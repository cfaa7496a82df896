# escrow

A token escrow between a learner and a mentor, written and proved in Verus.

A learner locks tokens of an approved kind for a session. The learner or the
admin releases them to the mentor; the mentor or the learner may dispute; the
admin may refund what is still held.

The contract runs on a ledger host. The library never talks to the host itself:
an operation names one host call at a time and is resumed with the reply, so
every decision is a verified function of plain values.

- `src/` is the verified library: the operations (`contract`), the calls they
  make (`host`, `script`), a model of the host (`ledger`), what each operation
  does to a ledger (`effects`), and what holds of every operation and history
  (`solvency`, `laws`).
- `app/` deploys it as a Soroban contract.
- `tests/` drives it by hand (`scripted`) and on a Soroban host with a real token
  contract (`on_host`).
