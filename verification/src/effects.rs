//! What each operation does to a ledger, in closed form.

use crate::host::{EventView, Key, RecordView};
use crate::ledger::{Ledger, Outcome};
use crate::script::{no_facts, FactsView, OutputView, RequestView};
use crate::types::{EscrowError, EscrowStatus, EscrowView};
use vstd::prelude::*;

verus! {

/// How `initialize` ends.
pub open spec fn initialize_outcome(
    ledger: Ledger,
    admin: Seq<char>,
    approved_tokens: Seq<Seq<char>>,
) -> Outcome {
    if ledger.is_initialized() {
        Outcome::Refused(EscrowError::AlreadyInitialized)
    } else {
        Outcome::Committed(
            ledger.stored(Key::Admin, RecordView::Address(admin)).stored(
                Key::ApprovedTokens,
                RecordView::Tokens(approved_tokens),
            ).stored(Key::EscrowCount, RecordView::Count(0)),
            OutputView::Nothing,
        )
    }
}

/// How `create_escrow` ends.
pub open spec fn create_escrow_outcome(
    ledger: Ledger,
    mentor: Seq<char>,
    learner: Seq<char>,
    amount: i128,
    session_id: Seq<char>,
    token_address: Seq<char>,
) -> Outcome {
    let id = (ledger.count() + 1) as u64;
    if amount <= 0 {
        Outcome::Refused(EscrowError::AmountNotPositive)
    } else if !ledger.signers.contains(learner) {
        Outcome::Aborted
    } else if !ledger.storage.contains_key(Key::ApprovedTokens) {
        Outcome::Aborted
    } else if !ledger.approved().contains(token_address) {
        Outcome::Refused(EscrowError::TokenNotApproved)
    } else if ledger.untold.contains((token_address, learner)) {
        Outcome::Aborted
    } else if ledger.balance(token_address, learner) < amount {
        Outcome::Refused(EscrowError::InsufficientBalance)
    } else if ledger.count() == u64::MAX {
        Outcome::Refused(EscrowError::CountOverflow)
    } else if !ledger.can_move(token_address, learner, ledger.this, amount) {
        Outcome::Aborted
    } else {
        Outcome::Committed(
            ledger.stored(Key::EscrowCount, RecordView::Count(id)).moved(
                token_address,
                learner,
                ledger.this,
                amount,
            ).stored(
                Key::Escrow(id),
                RecordView::Escrow(
                    EscrowView {
                        id,
                        mentor,
                        learner,
                        amount,
                        session_id,
                        status: EscrowStatus::Active,
                        created_at: ledger.now,
                        token_address,
                    },
                ),
            ).announced(
                EventView::Created { id, mentor, learner, amount, session_id, token_address },
            ),
            OutputView::EscrowId(id),
        )
    }
}

/// The ledger once `escrow` was paid out to `to`, with its new status and the
/// announcement.
pub open spec fn paid_out(
    ledger: Ledger,
    id: u64,
    to: Seq<char>,
    status: EscrowStatus,
    event: EventView,
) -> Ledger {
    let escrow = ledger.escrow(id);
    ledger.moved(escrow.token_address, ledger.this, to, escrow.amount).stored(
        Key::Escrow(id),
        RecordView::Escrow(escrow.with_status(status)),
    ).announced(event)
}

/// How `release_funds` ends.
pub open spec fn release_funds_outcome(
    ledger: Ledger,
    caller: Seq<char>,
    escrow_id: u64,
) -> Outcome {
    let escrow = ledger.escrow(escrow_id);
    if !ledger.has_escrow(escrow_id) {
        Outcome::Aborted
    } else if escrow.status !is Active {
        Outcome::Refused(EscrowError::EscrowNotActive)
    } else if !ledger.is_initialized() {
        Outcome::Refused(EscrowError::AdminNotFound)
    } else if !ledger.signers.contains(caller) {
        Outcome::Aborted
    } else if caller != escrow.learner && caller != ledger.admin() {
        Outcome::Refused(EscrowError::CallerNotAuthorized)
    } else if !ledger.can_move(escrow.token_address, ledger.this, escrow.mentor, escrow.amount) {
        Outcome::Aborted
    } else {
        Outcome::Committed(
            paid_out(
                ledger,
                escrow_id,
                escrow.mentor,
                EscrowStatus::Released,
                EventView::Released {
                    id: escrow_id,
                    mentor: escrow.mentor,
                    amount: escrow.amount,
                    token_address: escrow.token_address,
                },
            ),
            OutputView::Nothing,
        )
    }
}

/// How `dispute` ends.
pub open spec fn dispute_outcome(ledger: Ledger, caller: Seq<char>, escrow_id: u64) -> Outcome {
    let escrow = ledger.escrow(escrow_id);
    if !ledger.has_escrow(escrow_id) {
        Outcome::Aborted
    } else if escrow.status !is Active {
        Outcome::Refused(EscrowError::EscrowNotActive)
    } else if !ledger.signers.contains(caller) {
        Outcome::Aborted
    } else if caller != escrow.mentor && caller != escrow.learner {
        Outcome::Refused(EscrowError::CallerNotAuthorizedToDispute)
    } else {
        Outcome::Committed(
            ledger.stored(
                Key::Escrow(escrow_id),
                RecordView::Escrow(escrow.with_status(EscrowStatus::Disputed)),
            ).announced(
                EventView::Disputed { id: escrow_id, token_address: escrow.token_address },
            ),
            OutputView::Nothing,
        )
    }
}

/// How `refund` ends.
pub open spec fn refund_outcome(ledger: Ledger, escrow_id: u64) -> Outcome {
    let escrow = ledger.escrow(escrow_id);
    if !ledger.is_initialized() {
        Outcome::Refused(EscrowError::AdminNotFound)
    } else if !ledger.signers.contains(ledger.admin()) {
        Outcome::Aborted
    } else if !ledger.has_escrow(escrow_id) {
        Outcome::Aborted
    } else if !escrow.is_held() {
        Outcome::Refused(EscrowError::CannotRefund)
    } else if !ledger.can_move(escrow.token_address, ledger.this, escrow.learner, escrow.amount) {
        Outcome::Aborted
    } else {
        Outcome::Committed(
            paid_out(
                ledger,
                escrow_id,
                escrow.learner,
                EscrowStatus::Refunded,
                EventView::Refunded {
                    id: escrow_id,
                    learner: escrow.learner,
                    amount: escrow.amount,
                    token_address: escrow.token_address,
                },
            ),
            OutputView::Nothing,
        )
    }
}

/// How `get_escrow` ends.
pub open spec fn get_escrow_outcome(ledger: Ledger, escrow_id: u64) -> Outcome {
    if !ledger.has_escrow(escrow_id) {
        Outcome::Aborted
    } else {
        Outcome::Committed(ledger, OutputView::Escrow(ledger.escrow(escrow_id)))
    }
}

/// How `get_escrow_count` ends.
pub open spec fn get_escrow_count_outcome(ledger: Ledger) -> Outcome {
    if !ledger.storage.contains_key(Key::EscrowCount) {
        Outcome::Aborted
    } else {
        Outcome::Committed(ledger, OutputView::Count(ledger.count()))
    }
}

/// How an operation ends, for each operation.
pub open spec fn expected_outcome(ledger: Ledger, request: RequestView) -> Outcome {
    match request {
        RequestView::Initialize { admin, approved_tokens } => initialize_outcome(
            ledger,
            admin,
            approved_tokens,
        ),
        RequestView::CreateEscrow { mentor, learner, amount, session_id, token_address } =>
            create_escrow_outcome(ledger, mentor, learner, amount, session_id, token_address),
        RequestView::ReleaseFunds { caller, escrow_id } => release_funds_outcome(
            ledger,
            caller,
            escrow_id,
        ),
        RequestView::Dispute { caller, escrow_id } => dispute_outcome(ledger, caller, escrow_id),
        RequestView::Refund { escrow_id } => refund_outcome(ledger, escrow_id),
        RequestView::GetEscrow { escrow_id } => get_escrow_outcome(ledger, escrow_id),
        RequestView::GetEscrowCount => get_escrow_count_outcome(ledger),
    }
}

/// One call of a running operation.
proof fn one_call(ledger: Ledger, request: RequestView, facts: FactsView, done: nat)
    requires
        done < request.length(),
        request.refusal(facts, done) is None,
    ensures
        ledger.run(request.after(facts, done)) == match ledger.perform(
            request.calls(facts)[done as int],
        ) {
            Some((next, reply)) => next.run(
                request.after(
                    facts.learn(request.calls(facts)[done as int], reply),
                    (done + 1) as nat,
                ),
            ),
            None => Outcome::Aborted,
        },
{
    reveal(Ledger::run);
}

/// The end of an operation that was refused or made its last call.
proof fn at_end(ledger: Ledger, request: RequestView, facts: FactsView, done: nat)
    requires
        request.refusal(facts, done) is Some || done == request.length(),
    ensures
        ledger.run(request.after(facts, done)) == match request.refusal(facts, done) {
            Some(error) => Outcome::Refused(error),
            None => Outcome::Committed(ledger, request.output(facts)),
        },
{
    reveal(Ledger::run);
}

proof fn initialize_effect(ledger: Ledger, admin: Seq<char>, approved_tokens: Seq<Seq<char>>)
    ensures
        ledger.outcome(RequestView::Initialize { admin, approved_tokens }) == initialize_outcome(
            ledger,
            admin,
            approved_tokens,
        ),
{
    let r = RequestView::Initialize { admin, approved_tokens };
    let f0 = no_facts();
    let f1 = FactsView { initialized: ledger.is_initialized(), ..f0 };
    one_call(ledger, r, f0, 0);
    if ledger.is_initialized() {
        at_end(ledger, r, f1, 1);
    } else {
        let l1 = ledger.stored(Key::Admin, RecordView::Address(admin));
        let l2 = l1.stored(Key::ApprovedTokens, RecordView::Tokens(approved_tokens));
        let l3 = l2.stored(Key::EscrowCount, RecordView::Count(0));
        one_call(ledger, r, f1, 1);
        one_call(l1, r, f1, 2);
        one_call(l1, r, f1, 3);
        one_call(l2, r, f1, 4);
        one_call(l2, r, f1, 5);
        one_call(l3, r, f1, 6);
        at_end(l3, r, f1, 7);
    }
}

/// The checks of `create_escrow`.
proof fn create_escrow_checks(ledger: Ledger, r: RequestView)
    requires
        ledger.typed(),
        r is CreateEscrow,
        r->amount > 0,
        ledger.signers.contains(r->learner),
        ledger.storage.contains_key(Key::ApprovedTokens),
    ensures
        ledger.outcome(r) == if !ledger.approved().contains(r->token_address) {
            Outcome::Refused(EscrowError::TokenNotApproved)
        } else if ledger.untold.contains((r->token_address, r->learner)) {
            Outcome::Aborted
        } else if ledger.balance(r->token_address, r->learner) < r->amount {
            Outcome::Refused(EscrowError::InsufficientBalance)
        } else if ledger.count() == u64::MAX {
            Outcome::Refused(EscrowError::CountOverflow)
        } else {
            ledger.run(r.after(create_escrow_facts(ledger, r), 5))
        },
{
    let token = r->token_address;
    let f0 = no_facts();
    let f1 = FactsView { approved: Some(ledger.approved()), ..f0 };
    let f2 = FactsView { balance: ledger.balance(token, r->learner), ..f1 };
    let f3 = create_escrow_facts(ledger, r);
    assert(ledger.storage[Key::ApprovedTokens].fits(Key::ApprovedTokens));
    assert(ledger.storage.contains_key(Key::EscrowCount)
        ==> ledger.storage[Key::EscrowCount].fits(Key::EscrowCount));
    one_call(ledger, r, f0, 0);
    one_call(ledger, r, f0, 1);
    one_call(ledger, r, f0, 2);
    if !ledger.approved().contains(token) {
        at_end(ledger, r, f1, 3);
    } else {
        one_call(ledger, r, f1, 3);
        if !ledger.untold.contains((token, r->learner)) {
            if ledger.balance(token, r->learner) < r->amount {
                at_end(ledger, r, f2, 4);
            } else {
                one_call(ledger, r, f2, 4);
                if ledger.count() == u64::MAX {
                    at_end(ledger, r, f3, 5);
                }
            }
        }
    }
}

/// What `create_escrow` knows once its checks are passed.
spec fn create_escrow_facts(ledger: Ledger, r: RequestView) -> FactsView {
    FactsView {
        approved: Some(ledger.approved()),
        balance: ledger.balance(r->token_address, r->learner),
        count: ledger.count(),
        ..no_facts()
    }
}

proof fn create_escrow_effect(
    ledger: Ledger,
    mentor: Seq<char>,
    learner: Seq<char>,
    amount: i128,
    session_id: Seq<char>,
    token_address: Seq<char>,
)
    requires
        ledger.typed(),
    ensures
        ledger.outcome(
            RequestView::CreateEscrow { mentor, learner, amount, session_id, token_address },
        ) == create_escrow_outcome(ledger, mentor, learner, amount, session_id, token_address),
{
    let r = RequestView::CreateEscrow { mentor, learner, amount, session_id, token_address };
    let f0 = no_facts();
    if amount <= 0 {
        at_end(ledger, r, f0, 0);
    } else if !ledger.signers.contains(learner) {
        one_call(ledger, r, f0, 0);
    } else if !ledger.storage.contains_key(Key::ApprovedTokens) {
        one_call(ledger, r, f0, 0);
        one_call(ledger, r, f0, 1);
    } else {
        create_escrow_checks(ledger, r);
        if ledger.approved().contains(token_address) && !ledger.untold.contains(
            (token_address, learner),
        ) && ledger.balance(token_address, learner) >= amount && ledger.count() != u64::MAX {
            let f1 = create_escrow_facts(ledger, r);
            let id = r.new_id(f1);
            let l1 = ledger.stored(Key::EscrowCount, RecordView::Count(id));
            one_call(ledger, r, f1, 5);
            one_call(l1, r, f1, 6);
            one_call(l1, r, f1, 7);
            assert(l1.can_move(token_address, learner, l1.this, amount) == ledger.can_move(
                token_address,
                learner,
                ledger.this,
                amount,
            ));
            if ledger.can_move(token_address, learner, ledger.this, amount) {
                let l2 = l1.moved(token_address, learner, ledger.this, amount);
                let f2 = FactsView { now: ledger.now, ..f1 };
                let l3 = l2.stored(Key::Escrow(id), RecordView::Escrow(r.new_escrow(f2)));
                let l4 = l3.announced(
                    EventView::Created { id, mentor, learner, amount, session_id, token_address },
                );
                one_call(l2, r, f1, 8);
                one_call(l2, r, f2, 9);
                one_call(l3, r, f2, 10);
                one_call(l3, r, f2, 11);
                at_end(l4, r, f2, 12);
            }
        }
    }
}

proof fn release_funds_effect(ledger: Ledger, caller: Seq<char>, escrow_id: u64)
    requires
        ledger.typed(),
    ensures
        ledger.outcome(RequestView::ReleaseFunds { caller, escrow_id }) == release_funds_outcome(
            ledger,
            caller,
            escrow_id,
        ),
{
    let r = RequestView::ReleaseFunds { caller, escrow_id };
    let escrow = ledger.escrow(escrow_id);
    let key = Key::Escrow(escrow_id);
    let f0 = no_facts();
    let f1 = FactsView { escrow: Some(escrow), ..f0 };
    let f2 = FactsView { admin: Some(ledger.admin()), ..f1 };
    one_call(ledger, r, f0, 0);
    if ledger.has_escrow(escrow_id) {
        assert(ledger.storage[key].fits(key));
        one_call(ledger, r, f0, 1);
        if escrow.status !is Active {
            at_end(ledger, r, f1, 2);
        } else {
            one_call(ledger, r, f1, 2);
            if !ledger.is_initialized() {
                at_end(ledger, r, f1, 3);
            } else {
                assert(ledger.storage[Key::Admin].fits(Key::Admin));
                one_call(ledger, r, f2, 3);
                one_call(ledger, r, f2, 4);
                if caller != escrow.learner && caller != ledger.admin() {
                    at_end(ledger, r, f2, 5);
                } else {
                    one_call(ledger, r, f2, 5);
                    let l1 = ledger.moved(
                        escrow.token_address,
                        ledger.this,
                        escrow.mentor,
                        escrow.amount,
                    );
                    let l2 = l1.stored(
                        key,
                        RecordView::Escrow(escrow.with_status(EscrowStatus::Released)),
                    );
                    let l3 = l2.announced(
                        EventView::Released {
                            id: escrow_id,
                            mentor: escrow.mentor,
                            amount: escrow.amount,
                            token_address: escrow.token_address,
                        },
                    );
                    one_call(l1, r, f2, 6);
                    one_call(l2, r, f2, 7);
                    at_end(l3, r, f2, 8);
                }
            }
        }
    }
}

proof fn dispute_effect(ledger: Ledger, caller: Seq<char>, escrow_id: u64)
    requires
        ledger.typed(),
    ensures
        ledger.outcome(RequestView::Dispute { caller, escrow_id }) == dispute_outcome(
            ledger,
            caller,
            escrow_id,
        ),
{
    let r = RequestView::Dispute { caller, escrow_id };
    let escrow = ledger.escrow(escrow_id);
    let key = Key::Escrow(escrow_id);
    let f0 = no_facts();
    let f1 = FactsView { escrow: Some(escrow), ..f0 };
    one_call(ledger, r, f0, 0);
    if ledger.has_escrow(escrow_id) {
        assert(ledger.storage[key].fits(key));
        one_call(ledger, r, f0, 1);
        if escrow.status !is Active {
            at_end(ledger, r, f1, 2);
        } else {
            one_call(ledger, r, f1, 2);
            if caller != escrow.mentor && caller != escrow.learner {
                at_end(ledger, r, f1, 3);
            } else {
                let l1 = ledger.stored(
                    key,
                    RecordView::Escrow(escrow.with_status(EscrowStatus::Disputed)),
                );
                let l2 = l1.announced(
                    EventView::Disputed { id: escrow_id, token_address: escrow.token_address },
                );
                one_call(ledger, r, f1, 3);
                one_call(l1, r, f1, 4);
                at_end(l2, r, f1, 5);
            }
        }
    }
}

proof fn refund_effect(ledger: Ledger, escrow_id: u64)
    requires
        ledger.typed(),
    ensures
        ledger.outcome(RequestView::Refund { escrow_id }) == refund_outcome(ledger, escrow_id),
{
    let r = RequestView::Refund { escrow_id };
    let escrow = ledger.escrow(escrow_id);
    let key = Key::Escrow(escrow_id);
    let f0 = no_facts();
    let f1 = FactsView { admin: Some(ledger.admin()), ..f0 };
    let f2 = FactsView { escrow: Some(escrow), ..f1 };
    one_call(ledger, r, f0, 0);
    if !ledger.is_initialized() {
        at_end(ledger, r, f0, 1);
    } else {
        assert(ledger.storage[Key::Admin].fits(Key::Admin));
        one_call(ledger, r, f1, 1);
        one_call(ledger, r, f1, 2);
        one_call(ledger, r, f1, 3);
        if ledger.has_escrow(escrow_id) {
            assert(ledger.storage[key].fits(key));
            one_call(ledger, r, f1, 4);
            if !escrow.is_held() {
                at_end(ledger, r, f2, 5);
            } else {
                one_call(ledger, r, f2, 5);
                let l1 = ledger.moved(
                    escrow.token_address,
                    ledger.this,
                    escrow.learner,
                    escrow.amount,
                );
                let l2 = l1.stored(
                    key,
                    RecordView::Escrow(escrow.with_status(EscrowStatus::Refunded)),
                );
                let l3 = l2.announced(
                    EventView::Refunded {
                        id: escrow_id,
                        learner: escrow.learner,
                        amount: escrow.amount,
                        token_address: escrow.token_address,
                    },
                );
                one_call(l1, r, f2, 6);
                one_call(l2, r, f2, 7);
                at_end(l3, r, f2, 8);
            }
        }
    }
}

proof fn get_escrow_effect(ledger: Ledger, escrow_id: u64)
    requires
        ledger.typed(),
    ensures
        ledger.outcome(RequestView::GetEscrow { escrow_id }) == get_escrow_outcome(
            ledger,
            escrow_id,
        ),
{
    let r = RequestView::GetEscrow { escrow_id };
    let key = Key::Escrow(escrow_id);
    one_call(ledger, r, no_facts(), 0);
    if ledger.has_escrow(escrow_id) {
        assert(ledger.storage[key].fits(key));
        one_call(ledger, r, no_facts(), 1);
        at_end(ledger, r, FactsView { escrow: Some(ledger.escrow(escrow_id)), ..no_facts() }, 2);
    }
}

proof fn get_escrow_count_effect(ledger: Ledger)
    requires
        ledger.typed(),
    ensures
        ledger.outcome(RequestView::GetEscrowCount) == get_escrow_count_outcome(ledger),
{
    let r = RequestView::GetEscrowCount;
    let key = Key::EscrowCount;
    one_call(ledger, r, no_facts(), 0);
    if ledger.storage.contains_key(key) {
        assert(ledger.storage[key].fits(key));
        one_call(ledger, r, no_facts(), 1);
        at_end(ledger, r, FactsView { count: ledger.count(), ..no_facts() }, 2);
    }
}

/// Running an operation call by call ends as its closed form says, on every
/// ledger whose entries are of their kinds.
pub proof fn outcome_is_expected(ledger: Ledger, request: RequestView)
    requires
        ledger.typed(),
    ensures
        ledger.outcome(request) == expected_outcome(ledger, request),
{
    match request {
        RequestView::Initialize { admin, approved_tokens } => initialize_effect(
            ledger,
            admin,
            approved_tokens,
        ),
        RequestView::CreateEscrow { mentor, learner, amount, session_id, token_address } =>
            create_escrow_effect(ledger, mentor, learner, amount, session_id, token_address),
        RequestView::ReleaseFunds { caller, escrow_id } => release_funds_effect(
            ledger,
            caller,
            escrow_id,
        ),
        RequestView::Dispute { caller, escrow_id } => dispute_effect(ledger, caller, escrow_id),
        RequestView::Refund { escrow_id } => refund_effect(ledger, escrow_id),
        RequestView::GetEscrow { escrow_id } => get_escrow_effect(ledger, escrow_id),
        RequestView::GetEscrowCount => get_escrow_count_effect(ledger),
    }
}

/// Every operation, however it ends, leaves the entries of their kinds.
pub proof fn typed_stays(ledger: Ledger, request: RequestView)
    requires
        ledger.typed(),
    ensures
        ledger.next(request).typed(),
{
    outcome_is_expected(ledger, request);
    let next = ledger.next(request);
    assert forall|key: Key| #[trigger] next.storage.contains_key(key) implies next.storage[key].fits(
        key,
    ) by {
        assert(ledger.storage.contains_key(key) ==> ledger.storage[key].fits(key));
    }
}

} // verus!
