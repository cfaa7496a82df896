//! What holds of every operation and of every history.

use crate::effects::{outcome_is_expected, typed_stays};
use crate::host::{Key, RecordView};
use crate::ledger::{Ledger, Outcome};
use crate::script::{keep, FactsView, OutputView, RequestView};
use crate::solvency::{
    contract_stays_solvent, learners_stay_outside, numbers_stay, owed_covers_each,
    owed_is_determined, storage_stays_consistent,
};
use crate::types::{EscrowError, EscrowStatus, EscrowView};
use vstd::prelude::*;

verus! {

/// The ways an escrow's status may change: an active escrow is released,
/// disputed or refunded, and a disputed one is refunded.
pub open spec fn status_may_become(old: EscrowStatus, new: EscrowStatus) -> bool {
    ||| old == new
    ||| old is Active
    ||| old is Disputed && new is Refunded
}

/// Whether the operation may change the escrow `id`.
pub open spec fn concerns(request: RequestView, id: u64) -> bool {
    match request {
        RequestView::ReleaseFunds { escrow_id, .. } => escrow_id == id,
        RequestView::Dispute { escrow_id, .. } => escrow_id == id,
        RequestView::Refund { escrow_id } => escrow_id == id,
        _ => false,
    }
}

// Calls.

/// An operation is refused before it has written an entry, moved a token or
/// announced anything.
pub proof fn refusals_come_before_effects(request: RequestView, facts: FactsView, done: nat, k: int)
    requires
        request.refusal(facts, done) is Some,
        0 <= k < done,
    ensures
        !request.calls(facts)[k].is_effect(),
{
}

/// An operation extends the lifetime of every entry that it reads or writes.
pub proof fn touched_entries_are_kept_alive(
    request: RequestView,
    facts: FactsView,
    k: int,
    key: Key,
)
    requires
        0 <= k < request.length(),
        request.calls(facts)[k].touches(key),
    ensures
        request.calls(facts).contains(keep(key)),
{
    let calls = request.calls(facts);
    match request {
        RequestView::Initialize { .. } => {
            assert(calls[2] == keep(Key::Admin));
            assert(calls[4] == keep(Key::ApprovedTokens));
            assert(calls[6] == keep(Key::EscrowCount));
        },
        RequestView::CreateEscrow { .. } => {
            assert(calls[1] == keep(Key::ApprovedTokens));
            assert(calls[6] == keep(Key::EscrowCount));
            assert(calls[10] == keep(Key::Escrow(request.new_id(facts))));
        },
        RequestView::ReleaseFunds { escrow_id, .. } => {
            assert(calls[0] == keep(Key::Escrow(escrow_id)));
            assert(calls[3] == keep(Key::Admin));
        },
        RequestView::Dispute { escrow_id, .. } => {
            assert(calls[0] == keep(Key::Escrow(escrow_id)));
        },
        RequestView::Refund { escrow_id } => {
            assert(calls[1] == keep(Key::Admin));
            assert(calls[3] == keep(Key::Escrow(escrow_id)));
        },
        RequestView::GetEscrow { escrow_id } => {
            assert(calls[0] == keep(Key::Escrow(escrow_id)));
        },
        RequestView::GetEscrowCount => {
            assert(calls[0] == keep(Key::EscrowCount));
        },
    }
}

// One operation.

/// A contract is initialized once: a second attempt is refused.
pub proof fn second_initialization_is_refused(
    ledger: Ledger,
    admin: Seq<char>,
    approved_tokens: Seq<Seq<char>>,
    other_admin: Seq<char>,
    other_tokens: Seq<Seq<char>>,
)
    requires
        ledger.typed(),
    ensures
        ({
            let after = ledger.next(RequestView::Initialize { admin, approved_tokens });
            after.outcome(
                RequestView::Initialize { admin: other_admin, approved_tokens: other_tokens },
            ) == Outcome::Refused(EscrowError::AlreadyInitialized)
        }),
{
    let first = RequestView::Initialize { admin, approved_tokens };
    outcome_is_expected(ledger, first);
    typed_stays(ledger, first);
    outcome_is_expected(
        ledger.next(first),
        RequestView::Initialize { admin: other_admin, approved_tokens: other_tokens },
    );
}

/// No operation changes the admin or the approved tokens of an initialized
/// contract.
pub proof fn settings_are_permanent(ledger: Ledger, request: RequestView)
    requires
        ledger.typed(),
        ledger.is_initialized(),
    ensures
        ledger.next(request).is_initialized(),
        ledger.next(request).admin() == ledger.admin(),
        ledger.next(request).approved() == ledger.approved(),
{
    outcome_is_expected(ledger, request);
}

/// An escrow never disappears, only its status ever changes, and the status
/// only moves forward, each time by the operation that is named after it. An
/// operation on another escrow leaves it as it is.
pub proof fn escrow_only_moves_forward(ledger: Ledger, request: RequestView, id: u64)
    requires
        ledger.typed(),
        ledger.numbered(),
        ledger.has_escrow(id),
    ensures
        ({
            let next = ledger.next(request);
            &&& next.has_escrow(id)
            &&& next.escrow(id) == ledger.escrow(id).with_status(next.escrow(id).status)
            &&& status_may_become(ledger.escrow(id).status, next.escrow(id).status)
            &&& next.escrow(id).status != ledger.escrow(id).status ==> match next.escrow(id).status {
                EscrowStatus::Active => false,
                EscrowStatus::Released => request is ReleaseFunds,
                EscrowStatus::Disputed => request is Dispute,
                EscrowStatus::Refunded => request is Refund,
            }
            &&& !concerns(request, id) ==> next.escrow(id) == ledger.escrow(id)
        }),
{
    outcome_is_expected(ledger, request);
    assert(ledger.storage[Key::Escrow(id)].fits(Key::Escrow(id)));
}

/// A created escrow gets the next number, which no escrow has where they are
/// numbered, and reading it back gives what it was created with, active and
/// dated. The count then is its number.
pub proof fn created_escrow_reads_back(
    ledger: Ledger,
    mentor: Seq<char>,
    learner: Seq<char>,
    amount: i128,
    session_id: Seq<char>,
    token_address: Seq<char>,
)
    requires
        ledger.typed(),
        ledger.outcome(
            RequestView::CreateEscrow { mentor, learner, amount, session_id, token_address },
        ) is Committed,
    ensures
        ({
            let request = RequestView::CreateEscrow {
                mentor,
                learner,
                amount,
                session_id,
                token_address,
            };
            let next = ledger.next(request);
            let id = (ledger.count() + 1) as u64;
            &&& id == ledger.count() + 1
            &&& ledger.numbered() ==> !ledger.has_escrow(id)
            &&& ledger.outcome(request) == Outcome::Committed(next, OutputView::EscrowId(id))
            &&& next.outcome(RequestView::GetEscrow { escrow_id: id }) == Outcome::Committed(
                next,
                OutputView::Escrow(
                    EscrowView {
                        id,
                        mentor,
                        learner,
                        amount,
                        session_id,
                        status: EscrowStatus::Active,
                        created_at: ledger.now,
                        token_address,
                    },
                ),
            )
            &&& next.outcome(RequestView::GetEscrowCount) == Outcome::Committed(
                next,
                OutputView::Count(id),
            )
        }),
{
    let request = RequestView::CreateEscrow { mentor, learner, amount, session_id, token_address };
    let id = (ledger.count() + 1) as u64;
    outcome_is_expected(ledger, request);
    typed_stays(ledger, request);
    let next = ledger.next(request);
    outcome_is_expected(next, RequestView::GetEscrow { escrow_id: id });
    outcome_is_expected(next, RequestView::GetEscrowCount);
}

/// An escrow is created only for a positive amount of an approved token that
/// the learner has and signed for; the amount then is the contract's. Tokens
/// that the contract locks for itself do not move.
pub proof fn creation_locks_the_amount(
    ledger: Ledger,
    mentor: Seq<char>,
    learner: Seq<char>,
    amount: i128,
    session_id: Seq<char>,
    token_address: Seq<char>,
)
    requires
        ledger.typed(),
        ledger.outcome(
            RequestView::CreateEscrow { mentor, learner, amount, session_id, token_address },
        ) is Committed,
    ensures
        ({
            let next = ledger.next(
                RequestView::CreateEscrow { mentor, learner, amount, session_id, token_address },
            );
            &&& amount > 0
            &&& ledger.approved().contains(token_address)
            &&& ledger.signers.contains(learner)
            &&& ledger.balance(token_address, learner) >= amount
            &&& learner != ledger.this ==> next.balance(token_address, learner) == ledger.balance(
                token_address,
                learner,
            ) - amount
            &&& learner != ledger.this ==> next.balance(token_address, ledger.this)
                == ledger.balance(token_address, ledger.this) + amount
            &&& learner == ledger.this ==> next.balances == ledger.balances
            &&& forall|token: Seq<char>, holder: Seq<char>|
                !(token == token_address && (holder == learner || holder == ledger.this))
                    ==> #[trigger] next.balance(token, holder) == ledger.balance(token, holder)
        }),
{
    outcome_is_expected(
        ledger,
        RequestView::CreateEscrow { mentor, learner, amount, session_id, token_address },
    );
}

/// Only an active escrow is released, by its learner or by the admin, who
/// signed; its mentor then has the amount and the contract no longer does.
pub proof fn release_pays_the_mentor(ledger: Ledger, caller: Seq<char>, escrow_id: u64)
    requires
        ledger.typed(),
        ledger.outcome(RequestView::ReleaseFunds { caller, escrow_id }) is Committed,
    ensures
        ({
            let escrow = ledger.escrow(escrow_id);
            let next = ledger.next(RequestView::ReleaseFunds { caller, escrow_id });
            &&& ledger.has_escrow(escrow_id)
            &&& escrow.status is Active
            &&& next.escrow(escrow_id).status is Released
            &&& ledger.signers.contains(caller)
            &&& caller == escrow.learner || caller == ledger.admin()
            &&& escrow_is_paid(ledger, next, escrow, escrow.mentor)
        }),
{
    outcome_is_expected(ledger, RequestView::ReleaseFunds { caller, escrow_id });
}

/// Only an escrow whose tokens are still held is refunded, with the admin's
/// signature; its learner then has the amount and the contract no longer does.
pub proof fn refund_pays_the_learner(ledger: Ledger, escrow_id: u64)
    requires
        ledger.typed(),
        ledger.outcome(RequestView::Refund { escrow_id }) is Committed,
    ensures
        ({
            let escrow = ledger.escrow(escrow_id);
            let next = ledger.next(RequestView::Refund { escrow_id });
            &&& ledger.has_escrow(escrow_id)
            &&& escrow.is_held()
            &&& next.escrow(escrow_id).status is Refunded
            &&& ledger.signers.contains(ledger.admin())
            &&& escrow_is_paid(ledger, next, escrow, escrow.learner)
        }),
{
    outcome_is_expected(ledger, RequestView::Refund { escrow_id });
}

/// The whole amount of `escrow`, and nothing else, went from the contract to
/// `to`. A payment to the contract itself moves nothing.
pub open spec fn escrow_is_paid(
    before: Ledger,
    after: Ledger,
    escrow: EscrowView,
    to: Seq<char>,
) -> bool {
    let token = escrow.token_address;
    let moved: int = if to == before.this {
        0
    } else {
        escrow.amount as int
    };
    &&& after.balance(token, to) == before.balance(token, to) + moved
    &&& after.balance(token, before.this) == before.balance(token, before.this) - moved
    &&& forall|t: Seq<char>, holder: Seq<char>|
        !(t == token && (holder == to || holder == before.this)) ==> #[trigger] after.balance(
            t,
            holder,
        ) == before.balance(t, holder)
}

/// Only an active escrow is disputed, by its mentor or its learner, who
/// signed. No tokens move, and the escrow can then only be refunded.
pub proof fn dispute_freezes_the_escrow(
    ledger: Ledger,
    caller: Seq<char>,
    escrow_id: u64,
    other_caller: Seq<char>,
)
    requires
        ledger.typed(),
        ledger.outcome(RequestView::Dispute { caller, escrow_id }) is Committed,
    ensures
        ({
            let escrow = ledger.escrow(escrow_id);
            let next = ledger.next(RequestView::Dispute { caller, escrow_id });
            &&& ledger.has_escrow(escrow_id)
            &&& escrow.status is Active
            &&& next.escrow(escrow_id).status is Disputed
            &&& ledger.signers.contains(caller)
            &&& caller == escrow.mentor || caller == escrow.learner
            &&& next.balances == ledger.balances
            &&& next.outcome(
                RequestView::ReleaseFunds { caller: other_caller, escrow_id },
            ) == Outcome::Refused(EscrowError::EscrowNotActive)
            &&& next.outcome(
                RequestView::Dispute { caller: other_caller, escrow_id },
            ) == Outcome::Refused(EscrowError::EscrowNotActive)
        }),
{
    let request = RequestView::Dispute { caller, escrow_id };
    outcome_is_expected(ledger, request);
    typed_stays(ledger, request);
    let next = ledger.next(request);
    outcome_is_expected(next, RequestView::ReleaseFunds { caller: other_caller, escrow_id });
    outcome_is_expected(next, RequestView::Dispute { caller: other_caller, escrow_id });
}

/// Tokens move only when an escrow is created, released or refunded.
pub proof fn other_operations_move_no_tokens(ledger: Ledger, request: RequestView)
    requires
        ledger.typed(),
        request !is CreateEscrow,
        request !is ReleaseFunds,
        request !is Refund,
    ensures
        ledger.next(request).balances == ledger.balances,
{
    outcome_is_expected(ledger, request);
}

/// A query leaves the ledger as it is.
pub proof fn queries_change_nothing(ledger: Ledger, request: RequestView)
    requires
        ledger.typed(),
        request is GetEscrow || request is GetEscrowCount,
    ensures
        ledger.next(request) == ledger,
{
    outcome_is_expected(ledger, request);
}

/// A committed change to an escrow is announced by one event, which names the
/// change, the escrow and its token. Nothing else is announced.
pub proof fn changes_are_announced(ledger: Ledger, request: RequestView)
    requires
        ledger.typed(),
    ensures
        ({
            let next = ledger.next(request);
            match (ledger.outcome(request), request) {
                (Outcome::Committed(_, output), RequestView::CreateEscrow { .. }) => announces(
                    ledger,
                    next,
                    "created"@,
                    output->EscrowId_0,
                ),
                (Outcome::Committed(_, _), RequestView::ReleaseFunds { escrow_id, .. }) =>
                    announces(ledger, next, "released"@, escrow_id),
                (Outcome::Committed(_, _), RequestView::Dispute { escrow_id, .. }) => announces(
                    ledger,
                    next,
                    "disputed"@,
                    escrow_id,
                ),
                (Outcome::Committed(_, _), RequestView::Refund { escrow_id }) => announces(
                    ledger,
                    next,
                    "refunded"@,
                    escrow_id,
                ),
                _ => next.events == ledger.events,
            }
        }),
{
    outcome_is_expected(ledger, request);
}

/// Exactly one event was added, under `topic`, about the escrow `id` and its
/// token.
pub open spec fn announces(before: Ledger, after: Ledger, topic: Seq<char>, id: u64) -> bool {
    let event = after.events.last();
    &&& after.events == before.events.push(event)
    &&& event.topic() == topic
    &&& event.escrow_id() == id
    &&& event.token() == after.escrow(id).token_address
}

/// The tokens of a held escrow are never out of reach: a refund that the admin
/// signed goes through, unless the token itself does not let the learner
/// receive the amount.
pub proof fn held_escrow_can_be_refunded(ledger: Ledger, escrow_id: u64)
    requires
        ledger.consistent(),
        ledger.solvent(),
        ledger.has_escrow(escrow_id),
        ledger.escrow(escrow_id).is_held(),
        ledger.signers.contains(ledger.admin()),
        can_receive(ledger, ledger.escrow(escrow_id), ledger.escrow(escrow_id).learner),
    ensures
        ledger.outcome(RequestView::Refund { escrow_id }) is Committed,
{
    outcome_is_expected(ledger, RequestView::Refund { escrow_id });
    let token = ledger.escrow(escrow_id).token_address;
    owed_covers_each(ledger, token, escrow_id, ledger.count() as nat);
    assert(ledger.owed(token, ledger.count() as nat) <= ledger.balance(token, ledger.this));
}

/// The tokens of an active escrow are never out of reach: a release that the
/// learner or the admin signed goes through, unless the token itself does not
/// let the mentor receive the amount.
pub proof fn active_escrow_can_be_released(ledger: Ledger, caller: Seq<char>, escrow_id: u64)
    requires
        ledger.consistent(),
        ledger.solvent(),
        ledger.has_escrow(escrow_id),
        ledger.escrow(escrow_id).status is Active,
        ledger.signers.contains(caller),
        caller == ledger.escrow(escrow_id).learner || caller == ledger.admin(),
        can_receive(ledger, ledger.escrow(escrow_id), ledger.escrow(escrow_id).mentor),
    ensures
        ledger.outcome(RequestView::ReleaseFunds { caller, escrow_id }) is Committed,
{
    outcome_is_expected(ledger, RequestView::ReleaseFunds { caller, escrow_id });
    let token = ledger.escrow(escrow_id).token_address;
    owed_covers_each(ledger, token, escrow_id, ledger.count() as nat);
    assert(ledger.owed(token, ledger.count() as nat) <= ledger.balance(token, ledger.this));
}

/// The token lets `to` receive the amount of `escrow` from the contract.
pub open spec fn can_receive(ledger: Ledger, escrow: EscrowView, to: Seq<char>) -> bool {
    let token = escrow.token_address;
    &&& to != ledger.this ==> ledger.balance(token, to) + escrow.amount <= i128::MAX
    &&& !ledger.barred.contains((token, ledger.this, to, escrow.amount))
}

// Histories.

/// One operation, and what the rest of the network has made of the ledger when
/// it runs.
pub struct Turn {
    pub request: RequestView,
    pub signers: Set<Seq<char>>,
    pub now: u64,
    pub barred: Set<(Seq<char>, Seq<char>, Seq<char>, i128)>,
    pub untold: Set<(Seq<char>, Seq<char>)>,
    pub balances: Map<(Seq<char>, Seq<char>), i128>,
}

impl Turn {
    /// The ledger that the operation finds.
    pub open spec fn found(self, ledger: Ledger) -> Ledger {
        Ledger {
            signers: self.signers,
            now: self.now,
            barred: self.barred,
            untold: self.untold,
            balances: self.balances,
            ..ledger
        }
    }

    /// The rest of the network has not taken the contract's tokens, nor does it
    /// have the contract lock them again.
    pub open spec fn is_fair(self, ledger: Ledger) -> bool {
        &&& ledger.funded_from_outside(self.request)
        &&& forall|token: Seq<char>| #[trigger]
            self.found(ledger).balance(token, ledger.this) >= ledger.balance(token, ledger.this)
    }
}

/// The ledger after a history.
pub open spec fn replay(ledger: Ledger, turns: Seq<Turn>) -> Ledger
    decreases turns.len(),
{
    if turns.len() == 0 {
        ledger
    } else {
        let before = replay(ledger, turns.drop_last());
        turns.last().found(before).next(turns.last().request)
    }
}

/// The rest of the network is fair throughout a history.
pub open spec fn fair_history(ledger: Ledger, turns: Seq<Turn>) -> bool
    decreases turns.len(),
{
    turns.len() > 0 ==> {
        &&& fair_history(ledger, turns.drop_last())
        &&& turns.last().is_fair(replay(ledger, turns.drop_last()))
    }
}

/// The ledger of a contract that was just deployed.
pub open spec fn just_deployed(ledger: Ledger) -> bool {
    &&& ledger.storage == Map::<Key, RecordView>::empty()
    &&& forall|token: Seq<char>| #[trigger] ledger.balance(token, ledger.this) >= 0
}

/// What the rest of the network does leaves a consistent storage consistent.
proof fn found_is_consistent(ledger: Ledger, turn: Turn)
    requires
        ledger.consistent(),
    ensures
        turn.found(ledger).consistent(),
{
    let found = turn.found(ledger);
    assert forall|id: u64| #[trigger] found.has_escrow(id) <==> 1 <= id <= found.count() by {
        assert(ledger.has_escrow(id) <==> 1 <= id <= ledger.count());
    }
    assert forall|id: u64| #[trigger] found.has_escrow(id) implies {
        &&& found.escrow(id).id == id
        &&& found.escrow(id).amount > 0
        &&& found.approved().contains(found.escrow(id).token_address)
    } by {
        assert(ledger.has_escrow(id));
    }
}

/// After every history of a deployed contract, whatever was asked of it by
/// whom and whatever became of its tokens, its storage is consistent.
pub proof fn every_history_is_consistent(deployed: Ledger, turns: Seq<Turn>)
    requires
        deployed.storage == Map::<Key, RecordView>::empty(),
    ensures
        replay(deployed, turns).consistent(),
        replay(deployed, turns).this == deployed.this,
    decreases turns.len(),
{
    if turns.len() > 0 {
        let before = replay(deployed, turns.drop_last());
        every_history_is_consistent(deployed, turns.drop_last());
        found_is_consistent(before, turns.last());
        storage_stays_consistent(turns.last().found(before), turns.last().request);
    }
}

/// After every fair history of a deployed contract, whatever was asked of it by
/// whom, it has what it owes, and no learner is the contract itself.
pub proof fn every_fair_history_is_solvent(deployed: Ledger, turns: Seq<Turn>)
    requires
        just_deployed(deployed),
        fair_history(deployed, turns),
    ensures
        replay(deployed, turns).consistent(),
        replay(deployed, turns).solvent(),
        replay(deployed, turns).outside_learners(),
    decreases turns.len(),
{
    every_history_is_consistent(deployed, turns);
    if turns.len() > 0 {
        let turn = turns.last();
        let before = replay(deployed, turns.drop_last());
        let found = turn.found(before);
        every_fair_history_is_solvent(deployed, turns.drop_last());
        found_is_consistent(before, turn);
        assert forall|token: Seq<char>| #[trigger]
            found.owed(token, found.count() as nat) <= found.balance(token, found.this) by {
            owed_is_determined(before, found, token, before.count() as nat);
            assert(before.owed(token, before.count() as nat) <= before.balance(
                token,
                before.this,
            ));
        }
        assert(found.outside_learners()) by {
            assert forall|id: u64| #[trigger] found.has_escrow(id) implies found.escrow(id).learner
                != found.this by {
                assert(before.has_escrow(id));
            }
        }
        contract_stays_solvent(found, turn.request);
        learners_stay_outside(found, turn.request);
    } else {
        assert forall|token: Seq<char>| #[trigger]
            deployed.owed(token, deployed.count() as nat) <= deployed.balance(
            token,
            deployed.this,
        ) by {
            assert(deployed.balance(token, deployed.this) >= 0);
        }
    }
}

/// Once its tokens were paid out, an escrow stays as it is through every
/// history, whoever signs and whatever becomes of the contract's tokens: they
/// are paid once, to one side.
pub proof fn settled_escrow_is_final(ledger: Ledger, turns: Seq<Turn>, id: u64)
    requires
        ledger.typed(),
        ledger.is_initialized(),
        ledger.numbered(),
        ledger.has_escrow(id),
        !ledger.escrow(id).is_held(),
    ensures
        replay(ledger, turns).typed(),
        replay(ledger, turns).is_initialized(),
        replay(ledger, turns).numbered(),
        replay(ledger, turns).has_escrow(id),
        replay(ledger, turns).escrow(id) == ledger.escrow(id),
    decreases turns.len(),
{
    if turns.len() > 0 {
        let turn = turns.last();
        let before = replay(ledger, turns.drop_last());
        let found = turn.found(before);
        settled_escrow_is_final(ledger, turns.drop_last(), id);
        assert(found.typed());
        assert(found.numbered()) by {
            assert forall|k: u64| #[trigger] found.has_escrow(k) <==> 1 <= k <= found.count() by {
                assert(before.has_escrow(k) <==> 1 <= k <= before.count());
            }
        }
        assert(found.has_escrow(id));
        typed_stays(found, turn.request);
        numbers_stay(found, turn.request);
        escrow_only_moves_forward(found, turn.request, id);
        outcome_is_expected(found, turn.request);
    }
}

} // verus!
