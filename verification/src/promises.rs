//! When each operation goes through, what it then leaves behind, and how each
//! other one is answered.
//!
//! Everything here is said of the ledger's own storage, balances and events.

use crate::effects::{outcome_is_expected, typed_stays};
use crate::host::{CallView, EventView, Key, PartyView, RecordView, ReplyView};
use crate::ledger::{Ledger, Outcome};
use crate::script::{FactsView, InvocationView, OutputView, ProgressView, RequestView};
use crate::types::{EscrowError, EscrowStatus, EscrowView};
use vstd::prelude::*;

verus! {

/// `n` is the recorded number of escrows; none is recorded where it is zero.
pub open spec fn counted(ledger: Ledger, n: u64) -> bool {
    if ledger.storage.contains_key(Key::EscrowCount) {
        ledger.storage[Key::EscrowCount] == RecordView::Count(n)
    } else {
        n == 0
    }
}

/// `escrow` is stored under `id`.
pub open spec fn stored_as(ledger: Ledger, id: u64, escrow: EscrowView) -> bool {
    &&& ledger.storage.contains_key(Key::Escrow(id))
    &&& ledger.storage[Key::Escrow(id)] == RecordView::Escrow(escrow)
}

/// The admin's address is stored.
pub open spec fn administered_by(ledger: Ledger, admin: Seq<char>) -> bool {
    &&& ledger.storage.contains_key(Key::Admin)
    &&& ledger.storage[Key::Admin] == RecordView::Address(admin)
}

/// The list of approved tokens is stored.
pub open spec fn approves(ledger: Ledger, list: Seq<Seq<char>>) -> bool {
    &&& ledger.storage.contains_key(Key::ApprovedTokens)
    &&& ledger.storage[Key::ApprovedTokens] == RecordView::Tokens(list)
}

/// The token makes the transfer.
pub open spec fn transferable(
    ledger: Ledger,
    token: Seq<char>,
    from: Seq<char>,
    to: Seq<char>,
    amount: i128,
) -> bool {
    &&& 0 <= amount <= ledger.balance(token, from)
    &&& from == to || ledger.balance(token, to) + amount <= i128::MAX
    &&& !ledger.barred.contains((token, from, to, amount))
}

/// Between the two ledgers exactly `amount` of `token` went from `from` to
/// `to`, and no other balance changed.
pub open spec fn transferred(
    before: Ledger,
    after: Ledger,
    token: Seq<char>,
    from: Seq<char>,
    to: Seq<char>,
    amount: i128,
) -> bool {
    forall|t: Seq<char>, holder: Seq<char>| #[trigger]
        after.balance(t, holder) == before.balance(t, holder) - (if t == token && holder == from {
            amount as int
        } else {
            0
        }) + (if t == token && holder == to {
            amount as int
        } else {
            0
        })
}

/// An operation changes nothing but storage, balances and events.
pub open spec fn same_surroundings(before: Ledger, after: Ledger) -> bool {
    &&& after.this == before.this
    &&& after.barred == before.barred
    &&& after.untold == before.untold
    &&& after.signers == before.signers
    &&& after.now == before.now
}

// The host.

/// What a holder has is what is recorded, or nothing.
pub proof fn balances_are_as_recorded(ledger: Ledger, token: Seq<char>, holder: Seq<char>)
    ensures
        ledger.balances.contains_key((token, holder)) ==> ledger.balance(token, holder)
            == ledger.balances[(token, holder)],
        !ledger.balances.contains_key((token, holder)) ==> ledger.balance(token, holder) == 0,
{
}

/// A read gives back what was last written under that key, and is not changed
/// by a write under another.
pub proof fn reads_follow_writes(ledger: Ledger, key: Key, record: RecordView, other: Key)
    ensures
        ledger.perform(CallView::Store(key, record)) matches Some((after, reply)) && reply
            == ReplyView::Done && after.balances == ledger.balances && after.events
            == ledger.events && same_surroundings(ledger, after) && after.perform(
            CallView::Load(key),
        ) == Some((after, ReplyView::Loaded(Some(record)))) && after.perform(CallView::Has(key))
            == Some((after, ReplyView::Flag(true))) && (other != key ==> after.storage.contains_key(
            other,
        ) == ledger.storage.contains_key(other) && after.storage[other] == ledger.storage[other]),
{
}

/// A transfer between any two parties is made exactly when the token can, and
/// moves exactly the amount.
pub proof fn transfers_are_exact(
    ledger: Ledger,
    token: Seq<char>,
    from: PartyView,
    to: PartyView,
    amount: i128,
)
    ensures
        ({
            let sender = match from {
                PartyView::ThisContract => ledger.this,
                PartyView::Holder(a) => a,
            };
            let receiver = match to {
                PartyView::ThisContract => ledger.this,
                PartyView::Holder(a) => a,
            };
            match ledger.perform(CallView::Transfer { token, from, to, amount }) {
                Some((after, reply)) => {
                    &&& transferable(ledger, token, sender, receiver, amount)
                    &&& reply == ReplyView::Done
                    &&& transferred(ledger, after, token, sender, receiver, amount)
                    &&& after.storage == ledger.storage
                    &&& after.events == ledger.events
                    &&& same_surroundings(ledger, after)
                },
                None => !transferable(ledger, token, sender, receiver, amount),
            }
        }),
{
}

/// Questions and checks leave the ledger as it is, and are answered from it.
pub proof fn questions_are_answered_from_the_ledger(
    ledger: Ledger,
    key: Key,
    who: Seq<char>,
    token: Seq<char>,
    threshold: u32,
    extend_to: u32,
)
    ensures
        ledger.perform(CallView::Has(key)) == Some(
            (ledger, ReplyView::Flag(ledger.storage.contains_key(key))),
        ),
        !ledger.storage.contains_key(key) ==> ledger.perform(CallView::Load(key)) == Some(
            (ledger, ReplyView::Loaded(None)),
        ),
        ledger.storage.contains_key(key) ==> ledger.perform(CallView::Load(key)) == Some(
            (ledger, ReplyView::Loaded(Some(ledger.storage[key]))),
        ),
        ledger.perform(CallView::Timestamp) == Some((ledger, ReplyView::Time(ledger.now))),
        ledger.perform(CallView::ExtendTtl { key, threshold, extend_to }) == (
        if ledger.storage.contains_key(key) {
            Some((ledger, ReplyView::Done))
        } else {
            None
        }),
        ledger.perform(CallView::RequireAuth(who)) == (if ledger.signers.contains(who) {
            Some((ledger, ReplyView::Done))
        } else {
            None
        }),
        ledger.perform(CallView::Balance { token, holder: who }) == (if ledger.untold.contains(
            (token, who),
        ) {
            None
        } else {
            Some((ledger, ReplyView::Amount(ledger.balance(token, who))))
        }),
{
}

/// An operation takes effect only when it commits.
pub proof fn only_commits_take_effect(ledger: Ledger, request: RequestView)
    ensures
        match ledger.outcome(request) {
            Outcome::Committed(after, _) => ledger.next(request) == after,
            Outcome::Refused(_) => ledger.next(request) == ledger,
            Outcome::Aborted => ledger.next(request) == ledger,
        },
{
}

// initialize

/// A contract without an admin can always be initialized, by anyone; it then
/// has the admin and exactly the approved tokens that were given, and counts
/// from zero. A contract with an admin refuses, and nothing else does.
pub proof fn initialization_records_what_it_is_given(
    ledger: Ledger,
    admin: Seq<char>,
    approved_tokens: Seq<Seq<char>>,
)
    requires
        ledger.typed(),
    ensures
        ({
            let request = RequestView::Initialize { admin, approved_tokens };
            let next = ledger.next(request);
            if ledger.storage.contains_key(Key::Admin) {
                &&& ledger.outcome(request) == Outcome::Refused(EscrowError::AlreadyInitialized)
                &&& next == ledger
            } else {
                &&& ledger.outcome(request) == Outcome::Committed(next, OutputView::Nothing)
                &&& administered_by(next, admin)
                &&& approves(next, approved_tokens)
                &&& next.storage.contains_key(Key::EscrowCount)
                &&& counted(next, 0)
                &&& forall|id: u64|
                    {
                        &&& #[trigger] next.storage.contains_key(Key::Escrow(id))
                            <==> ledger.storage.contains_key(Key::Escrow(id))
                        &&& next.storage[Key::Escrow(id)] == ledger.storage[Key::Escrow(id)]
                    }
                &&& next.balances == ledger.balances
                &&& next.events == ledger.events
                &&& same_surroundings(ledger, next)
                &&& next.is_initialized()
                &&& next.admin() == admin
                &&& next.approved() == approved_tokens
                &&& next.count() == 0
            }
        }),
{
    outcome_is_expected(ledger, RequestView::Initialize { admin, approved_tokens });
}

// create_escrow

/// An escrow is created exactly when the amount is positive, the learner
/// signed, the token is anywhere on the list, the token tells the learner's
/// balance and it covers the amount, a number is left, and the token makes the
/// transfer.
pub proof fn creation_goes_through(
    ledger: Ledger,
    mentor: Seq<char>,
    learner: Seq<char>,
    amount: i128,
    session_id: Seq<char>,
    token_address: Seq<char>,
    list: Seq<Seq<char>>,
    n: u64,
)
    requires
        ledger.typed(),
        approves(ledger, list),
        counted(ledger, n),
    ensures
        ledger.outcome(
            RequestView::CreateEscrow { mentor, learner, amount, session_id, token_address },
        ) is Committed <==> {
            &&& amount > 0
            &&& ledger.signers.contains(learner)
            &&& exists|k: int| 0 <= k < list.len() && #[trigger] list[k] == token_address
            &&& !ledger.untold.contains((token_address, learner))
            &&& ledger.balance(token_address, learner) >= amount
            &&& n < u64::MAX
            &&& transferable(ledger, token_address, learner, ledger.this, amount)
        },
{
    outcome_is_expected(
        ledger,
        RequestView::CreateEscrow { mentor, learner, amount, session_id, token_address },
    );
}

/// How a creation that does not go through is answered. The checks are made in
/// this order: the amount, the signature, the list, the token, the balance, the
/// numbers that are left, the transfer.
pub proof fn creation_is_turned_down_for_a_reason(
    ledger: Ledger,
    mentor: Seq<char>,
    learner: Seq<char>,
    amount: i128,
    session_id: Seq<char>,
    token_address: Seq<char>,
    list: Seq<Seq<char>>,
    n: u64,
)
    requires
        ledger.typed(),
        ledger.storage.contains_key(Key::ApprovedTokens) ==> approves(ledger, list),
        counted(ledger, n),
    ensures
        ({
            let outcome = ledger.outcome(
                RequestView::CreateEscrow { mentor, learner, amount, session_id, token_address },
            );
            let asked = amount > 0 && ledger.signers.contains(learner);
            let listed = asked && ledger.storage.contains_key(Key::ApprovedTokens)
                && list.contains(token_address);
            let told = listed && !ledger.untold.contains((token_address, learner));
            let covered = told && ledger.balance(token_address, learner) >= amount;
            &&& amount <= 0 <==> outcome == Outcome::Refused(EscrowError::AmountNotPositive)
            &&& asked && ledger.storage.contains_key(Key::ApprovedTokens) && !list.contains(
                token_address,
            ) <==> outcome == Outcome::Refused(EscrowError::TokenNotApproved)
            &&& told && !covered <==> outcome == Outcome::Refused(EscrowError::InsufficientBalance)
            &&& covered && n == u64::MAX <==> outcome == Outcome::Refused(
                EscrowError::CountOverflow,
            )
            &&& outcome matches Outcome::Refused(error) ==> {
                ||| error == EscrowError::AmountNotPositive
                ||| error == EscrowError::TokenNotApproved
                ||| error == EscrowError::InsufficientBalance
                ||| error == EscrowError::CountOverflow
            }
            &&& !ledger.storage.contains_key(Key::ApprovedTokens) ==> outcome !is Committed
        }),
{
    outcome_is_expected(
        ledger,
        RequestView::CreateEscrow { mentor, learner, amount, session_id, token_address },
    );
}

/// What a creation leaves behind: the next number is returned and recorded, the
/// escrow stands under it as it was asked for, the amount went from the learner
/// to the contract, and the creation is announced. Nothing else changed.
pub proof fn creation_leaves_the_escrow(
    ledger: Ledger,
    mentor: Seq<char>,
    learner: Seq<char>,
    amount: i128,
    session_id: Seq<char>,
    token_address: Seq<char>,
    n: u64,
    key: Key,
)
    requires
        ledger.typed(),
        counted(ledger, n),
        ledger.outcome(
            RequestView::CreateEscrow { mentor, learner, amount, session_id, token_address },
        ) is Committed,
    ensures
        ({
            let request = RequestView::CreateEscrow {
                mentor,
                learner,
                amount,
                session_id,
                token_address,
            };
            let next = ledger.next(request);
            let id = (n + 1) as u64;
            &&& id == n + 1
            &&& ledger.outcome(request) == Outcome::Committed(next, OutputView::EscrowId(id))
            &&& next.storage.contains_key(Key::EscrowCount)
            &&& counted(next, id)
            &&& stored_as(
                next,
                id,
                EscrowView {
                    id,
                    mentor,
                    learner,
                    amount,
                    session_id,
                    status: EscrowStatus::Active,
                    created_at: ledger.now,
                    token_address,
                },
            )
            &&& key != Key::EscrowCount && key != Key::Escrow(id) ==> {
                &&& next.storage.contains_key(key) <==> ledger.storage.contains_key(key)
                &&& next.storage[key] == ledger.storage[key]
            }
            &&& transferred(ledger, next, token_address, learner, ledger.this, amount)
            &&& next.events == ledger.events.push(
                EventView::Created { id, mentor, learner, amount, session_id, token_address },
            )
            &&& same_surroundings(ledger, next)
        }),
{
    outcome_is_expected(
        ledger,
        RequestView::CreateEscrow { mentor, learner, amount, session_id, token_address },
    );
}

// release_funds, dispute, refund

/// The operation left the escrow `id` as it was but for its status, announced
/// `event`, and changed no other entry.
pub open spec fn only_status_changed(
    before: Ledger,
    after: Ledger,
    id: u64,
    escrow: EscrowView,
    status: EscrowStatus,
    event: EventView,
) -> bool {
    &&& stored_as(
        after,
        id,
        EscrowView {
            id: escrow.id,
            mentor: escrow.mentor,
            learner: escrow.learner,
            amount: escrow.amount,
            session_id: escrow.session_id,
            status,
            created_at: escrow.created_at,
            token_address: escrow.token_address,
        },
    )
    &&& forall|key: Key| #[trigger]
        after.storage.contains_key(key) <==> before.storage.contains_key(key)
    &&& forall|key: Key|
        key != Key::Escrow(id) ==> #[trigger] after.storage[key] == before.storage[key]
    &&& after.events == before.events.push(event)
    &&& same_surroundings(before, after)
}

/// An escrow that is not there can be neither read nor changed: the host aborts
/// (a refund is refused before that where there is no admin).
pub proof fn missing_escrow_is_out_of_reach(ledger: Ledger, caller: Seq<char>, escrow_id: u64)
    requires
        ledger.typed(),
        !ledger.storage.contains_key(Key::Escrow(escrow_id)),
    ensures
        ledger.outcome(RequestView::ReleaseFunds { caller, escrow_id }) == Outcome::Aborted,
        ledger.outcome(RequestView::Dispute { caller, escrow_id }) == Outcome::Aborted,
        ledger.outcome(RequestView::GetEscrow { escrow_id }) == Outcome::Aborted,
        ledger.outcome(RequestView::Refund { escrow_id }) == (if ledger.storage.contains_key(
            Key::Admin,
        ) {
            Outcome::Aborted
        } else {
            Outcome::Refused(EscrowError::AdminNotFound)
        }),
{
    outcome_is_expected(ledger, RequestView::ReleaseFunds { caller, escrow_id });
    outcome_is_expected(ledger, RequestView::Dispute { caller, escrow_id });
    outcome_is_expected(ledger, RequestView::GetEscrow { escrow_id });
    outcome_is_expected(ledger, RequestView::Refund { escrow_id });
}

/// An escrow is released exactly when it is active, there is an admin, the
/// caller signed and is the learner or the admin, and the token makes the
/// payment to the mentor. It then is paid to the mentor, and released.
pub proof fn release_goes_through(
    ledger: Ledger,
    caller: Seq<char>,
    escrow_id: u64,
    escrow: EscrowView,
    admin: Seq<char>,
)
    requires
        ledger.typed(),
        stored_as(ledger, escrow_id, escrow),
        administered_by(ledger, admin),
    ensures
        ({
            let request = RequestView::ReleaseFunds { caller, escrow_id };
            let outcome = ledger.outcome(request);
            let next = ledger.next(request);
            let token = escrow.token_address;
            let active = escrow.status == EscrowStatus::Active;
            let signed = ledger.signers.contains(caller);
            let entitled = caller == escrow.learner || caller == admin;
            &&& active && signed && entitled && transferable(
                ledger,
                token,
                ledger.this,
                escrow.mentor,
                escrow.amount,
            ) <==> outcome is Committed
            &&& !active <==> outcome == Outcome::Refused(EscrowError::EscrowNotActive)
            &&& active && signed && !entitled <==> outcome == Outcome::Refused(
                EscrowError::CallerNotAuthorized,
            )
            &&& outcome matches Outcome::Refused(error) ==> error == EscrowError::EscrowNotActive
                || error == EscrowError::CallerNotAuthorized
            &&& outcome is Committed ==> {
                &&& outcome == Outcome::Committed(next, OutputView::Nothing)
                &&& transferred(ledger, next, token, ledger.this, escrow.mentor, escrow.amount)
                &&& only_status_changed(
                    ledger,
                    next,
                    escrow_id,
                    escrow,
                    EscrowStatus::Released,
                    EventView::Released {
                        id: escrow_id,
                        mentor: escrow.mentor,
                        amount: escrow.amount,
                        token_address: token,
                    },
                )
            }
        }),
{
    outcome_is_expected(ledger, RequestView::ReleaseFunds { caller, escrow_id });
}

/// An active escrow is disputed exactly when the caller signed and is the
/// mentor or the learner; no other is. It then is disputed, and no token moved.
pub proof fn dispute_goes_through(
    ledger: Ledger,
    caller: Seq<char>,
    escrow_id: u64,
    escrow: EscrowView,
)
    requires
        ledger.typed(),
        stored_as(ledger, escrow_id, escrow),
    ensures
        ({
            let request = RequestView::Dispute { caller, escrow_id };
            let outcome = ledger.outcome(request);
            let next = ledger.next(request);
            let active = escrow.status == EscrowStatus::Active;
            let signed = ledger.signers.contains(caller);
            let entitled = caller == escrow.mentor || caller == escrow.learner;
            &&& active && signed && entitled <==> outcome is Committed
            &&& !active <==> outcome == Outcome::Refused(EscrowError::EscrowNotActive)
            &&& active && signed && !entitled <==> outcome == Outcome::Refused(
                EscrowError::CallerNotAuthorizedToDispute,
            )
            &&& active && !signed <==> outcome == Outcome::Aborted
            &&& outcome is Committed ==> {
                &&& outcome == Outcome::Committed(next, OutputView::Nothing)
                &&& next.balances == ledger.balances
                &&& only_status_changed(
                    ledger,
                    next,
                    escrow_id,
                    escrow,
                    EscrowStatus::Disputed,
                    EventView::Disputed { id: escrow_id, token_address: escrow.token_address },
                )
            }
        }),
{
    outcome_is_expected(ledger, RequestView::Dispute { caller, escrow_id });
}

/// An escrow is refunded exactly when it is active or disputed, the admin
/// signed, and the token makes the payment to the learner. It then is paid to
/// the learner, and refunded.
pub proof fn refund_goes_through(
    ledger: Ledger,
    escrow_id: u64,
    escrow: EscrowView,
    admin: Seq<char>,
)
    requires
        ledger.typed(),
        stored_as(ledger, escrow_id, escrow),
        administered_by(ledger, admin),
    ensures
        ({
            let request = RequestView::Refund { escrow_id };
            let outcome = ledger.outcome(request);
            let next = ledger.next(request);
            let token = escrow.token_address;
            let paid = escrow.status == EscrowStatus::Released || escrow.status
                == EscrowStatus::Refunded;
            let signed = ledger.signers.contains(admin);
            &&& signed && !paid && transferable(
                ledger,
                token,
                ledger.this,
                escrow.learner,
                escrow.amount,
            ) <==> outcome is Committed
            &&& signed && paid <==> outcome == Outcome::Refused(EscrowError::CannotRefund)
            &&& outcome matches Outcome::Refused(error) ==> error == EscrowError::CannotRefund
            &&& outcome is Committed ==> {
                &&& outcome == Outcome::Committed(next, OutputView::Nothing)
                &&& transferred(ledger, next, token, ledger.this, escrow.learner, escrow.amount)
                &&& only_status_changed(
                    ledger,
                    next,
                    escrow_id,
                    escrow,
                    EscrowStatus::Refunded,
                    EventView::Refunded {
                        id: escrow_id,
                        learner: escrow.learner,
                        amount: escrow.amount,
                        token_address: token,
                    },
                )
            }
        }),
{
    outcome_is_expected(ledger, RequestView::Refund { escrow_id });
}

/// Without an admin nothing is paid out: a refund is refused, and so is the
/// release of an active escrow.
pub proof fn payments_need_an_admin(
    ledger: Ledger,
    caller: Seq<char>,
    escrow_id: u64,
    escrow: EscrowView,
)
    requires
        ledger.typed(),
        !ledger.storage.contains_key(Key::Admin),
        stored_as(ledger, escrow_id, escrow),
    ensures
        ledger.outcome(RequestView::Refund { escrow_id }) == Outcome::Refused(
            EscrowError::AdminNotFound,
        ),
        ledger.outcome(RequestView::ReleaseFunds { caller, escrow_id }) == (if escrow.status
            == EscrowStatus::Active {
            Outcome::Refused(EscrowError::AdminNotFound)
        } else {
            Outcome::Refused(EscrowError::EscrowNotActive)
        }),
{
    outcome_is_expected(ledger, RequestView::Refund { escrow_id });
    outcome_is_expected(ledger, RequestView::ReleaseFunds { caller, escrow_id });
}

// get_escrow, get_escrow_count

/// A query returns what is stored, whole and in whatever status, to anyone, and
/// changes nothing.
pub proof fn queries_return_what_is_stored(
    ledger: Ledger,
    escrow_id: u64,
    escrow: EscrowView,
    n: u64,
)
    requires
        ledger.typed(),
    ensures
        stored_as(ledger, escrow_id, escrow) ==> ledger.outcome(
            RequestView::GetEscrow { escrow_id },
        ) == Outcome::Committed(ledger, OutputView::Escrow(escrow)),
        ledger.storage.contains_key(Key::EscrowCount) && counted(ledger, n) ==> ledger.outcome(
            RequestView::GetEscrowCount,
        ) == Outcome::Committed(ledger, OutputView::Count(n)),
        !ledger.storage.contains_key(Key::EscrowCount) ==> ledger.outcome(
            RequestView::GetEscrowCount,
        ) == Outcome::Aborted,
{
    outcome_is_expected(ledger, RequestView::GetEscrow { escrow_id });
    outcome_is_expected(ledger, RequestView::GetEscrowCount);
}

// Operations that follow each other.

/// A refund undoes a creation: once the escrow was created and, at once or
/// later on the same balances, refunded, everyone has what they had.
pub proof fn refund_undoes_creation(
    ledger: Ledger,
    mentor: Seq<char>,
    learner: Seq<char>,
    amount: i128,
    session_id: Seq<char>,
    token_address: Seq<char>,
    n: u64,
    token: Seq<char>,
    holder: Seq<char>,
)
    requires
        ledger.typed(),
        counted(ledger, n),
        n < u64::MAX,
    ensures
        ({
            let create = RequestView::CreateEscrow {
                mentor,
                learner,
                amount,
                session_id,
                token_address,
            };
            let refund = RequestView::Refund { escrow_id: (n + 1) as u64 };
            let created = ledger.next(create);
            ledger.outcome(create) is Committed && created.outcome(refund) is Committed
                ==> created.next(refund).balance(token, holder) == ledger.balance(token, holder)
        }),
{
    let create = RequestView::CreateEscrow { mentor, learner, amount, session_id, token_address };
    let id = (n + 1) as u64;
    let created = ledger.next(create);
    if ledger.outcome(create) is Committed {
        outcome_is_expected(ledger, create);
        typed_stays(ledger, create);
        outcome_is_expected(created, RequestView::Refund { escrow_id: id });
    }
}

/// A release hands on what a creation locked: once the escrow was created and
/// released, the amount went from the learner to the mentor, and the contract
/// has what it had.
pub proof fn release_hands_on_what_creation_locked(
    ledger: Ledger,
    mentor: Seq<char>,
    learner: Seq<char>,
    amount: i128,
    session_id: Seq<char>,
    token_address: Seq<char>,
    n: u64,
    caller: Seq<char>,
)
    requires
        ledger.typed(),
        counted(ledger, n),
        n < u64::MAX,
    ensures
        ({
            let create = RequestView::CreateEscrow {
                mentor,
                learner,
                amount,
                session_id,
                token_address,
            };
            let release = RequestView::ReleaseFunds { caller, escrow_id: (n + 1) as u64 };
            let created = ledger.next(create);
            ledger.outcome(create) is Committed && created.outcome(release) is Committed
                ==> transferred(
                ledger,
                created.next(release),
                token_address,
                learner,
                mentor,
                amount,
            )
        }),
{
    let create = RequestView::CreateEscrow { mentor, learner, amount, session_id, token_address };
    let release = RequestView::ReleaseFunds { caller, escrow_id: (n + 1) as u64 };
    let created = ledger.next(create);
    if ledger.outcome(create) is Committed {
        outcome_is_expected(ledger, create);
        typed_stays(ledger, create);
        outcome_is_expected(created, release);
        if created.outcome(release) is Committed {
            let after = created.next(release);
            assert forall|t: Seq<char>, holder: Seq<char>| #[trigger]
                after.balance(t, holder) == ledger.balance(t, holder) - (if t == token_address
                    && holder == learner {
                    amount as int
                } else {
                    0
                }) + (if t == token_address && holder == mentor {
                    amount as int
                } else {
                    0
                }) by {}
        }
    }
}

// Calls.

/// An operation makes a fixed number of calls, whatever its arguments and
/// whatever it learns.
pub proof fn number_of_calls_is_fixed(request: RequestView, facts: FactsView)
    ensures
        request.calls(facts).len() == request.length(),
        request is Initialize ==> request.length() == 7,
        request is CreateEscrow ==> request.length() == 12,
        request is ReleaseFunds ==> request.length() == 8,
        request is Dispute ==> request.length() == 5,
        request is Refund ==> request.length() == 8,
        request is GetEscrow ==> request.length() == 2,
        request is GetEscrowCount ==> request.length() == 2,
{
}

/// A stop comes before every write, transfer and announcement.
pub proof fn stops_come_before_changes(request: RequestView, facts: FactsView, done: nat, k: int)
    requires
        request.refusal(facts, done) is Some,
        0 <= k < done,
    ensures
        request.calls(facts)[k] !is Store,
        request.calls(facts)[k] !is Transfer,
        request.calls(facts)[k] !is Publish,
{
}

/// A signature is asked for before anything is written, moved or announced:
/// the learner's to create, the caller's to release or dispute, and the admin's
/// to refund. Nobody else is asked to sign.
pub proof fn signatures_come_before_changes(request: RequestView, facts: FactsView, k: int)
    requires
        0 <= k < request.length(),
        request !is Initialize,
    ensures
        ({
            let calls = request.calls(facts);
            let signer = match request {
                RequestView::CreateEscrow { learner, .. } => learner,
                RequestView::ReleaseFunds { caller, .. } => caller,
                RequestView::Dispute { caller, .. } => caller,
                _ => facts.admin->0,
            };
            &&& calls[k] is Store || calls[k] is Transfer || calls[k] is Publish ==> exists|j: int|
                0 <= j < k && #[trigger] calls[j] == CallView::RequireAuth(signer)
            &&& calls[k] matches CallView::RequireAuth(who) ==> who == signer
        }),
{
    let calls = request.calls(facts);
    match request {
        RequestView::CreateEscrow { learner, .. } => {
            assert(calls[0] == CallView::RequireAuth(learner));
        },
        RequestView::ReleaseFunds { caller, .. } => {
            assert(calls[4] == CallView::RequireAuth(caller));
        },
        RequestView::Dispute { caller, .. } => {
            assert(calls[2] == CallView::RequireAuth(caller));
        },
        RequestView::Refund { .. } => {
            assert(calls[2] == CallView::RequireAuth(facts.admin->0));
        },
        _ => {},
    }
}

/// Every entry that is read or written is kept alive in the same operation, to
/// a million ledgers where half a million or fewer are left, and no other entry
/// is.
pub proof fn exactly_the_touched_entries_are_kept_alive(
    request: RequestView,
    facts: FactsView,
    k: int,
    key: Key,
)
    requires
        0 <= k < request.length(),
    ensures
        ({
            let calls = request.calls(facts);
            let keep = CallView::ExtendTtl { key, threshold: 500_000, extend_to: 1_000_000 };
            &&& calls[k] == CallView::Has(key) || calls[k] == CallView::Load(key) || (
            calls[k] matches CallView::Store(at, _) && at == key) ==> exists|j: int|
                0 <= j < calls.len() && #[trigger] calls[j] == keep
            &&& calls[k] matches CallView::ExtendTtl { key: at, threshold, extend_to } ==> {
                &&& threshold == 500_000
                &&& extend_to == 1_000_000
                &&& exists|j: int|
                    0 <= j < calls.len() && {
                        ||| #[trigger] calls[j] == CallView::Load(at)
                        ||| calls[j] matches CallView::Store(written, _) && written == at
                    }
            }
        }),
{
    let calls = request.calls(facts);
    let keep = CallView::ExtendTtl { key, threshold: 500_000, extend_to: 1_000_000 };
    match request {
        RequestView::Initialize { .. } => {
            assert(key == Key::Admin ==> calls[2] == keep);
            assert(key == Key::ApprovedTokens ==> calls[4] == keep);
            assert(key == Key::EscrowCount ==> calls[6] == keep);
            assert(calls[1] matches CallView::Store(Key::Admin, _));
            assert(calls[3] matches CallView::Store(Key::ApprovedTokens, _));
            assert(calls[5] matches CallView::Store(Key::EscrowCount, _));
        },
        RequestView::CreateEscrow { .. } => {
            let id = request.new_id(facts);
            assert(key == Key::ApprovedTokens ==> calls[1] == keep);
            assert(key == Key::EscrowCount ==> calls[6] == keep);
            assert(key == Key::Escrow(id) ==> calls[10] == keep);
            assert(calls[2] == CallView::Load(Key::ApprovedTokens));
            assert(calls[4] == CallView::Load(Key::EscrowCount));
            assert(calls[9] matches CallView::Store(written, _) && written == Key::Escrow(id));
        },
        RequestView::ReleaseFunds { escrow_id, .. } => {
            assert(key == Key::Escrow(escrow_id) ==> calls[0] == keep);
            assert(key == Key::Admin ==> calls[3] == keep);
            assert(calls[1] == CallView::Load(Key::Escrow(escrow_id)));
            assert(calls[2] == CallView::Load(Key::Admin));
        },
        RequestView::Dispute { escrow_id, .. } => {
            assert(key == Key::Escrow(escrow_id) ==> calls[0] == keep);
            assert(calls[1] == CallView::Load(Key::Escrow(escrow_id)));
        },
        RequestView::Refund { escrow_id } => {
            assert(key == Key::Admin ==> calls[1] == keep);
            assert(key == Key::Escrow(escrow_id) ==> calls[3] == keep);
            assert(calls[0] == CallView::Load(Key::Admin));
            assert(calls[4] == CallView::Load(Key::Escrow(escrow_id)));
        },
        RequestView::GetEscrow { escrow_id } => {
            assert(key == Key::Escrow(escrow_id) ==> calls[0] == keep);
            assert(calls[1] == CallView::Load(Key::Escrow(escrow_id)));
        },
        RequestView::GetEscrowCount => {
            assert(key == Key::EscrowCount ==> calls[0] == keep);
            assert(calls[1] == CallView::Load(Key::EscrowCount));
        },
    }
}

/// Changes come in this order: a new escrow's number is recorded before the
/// token is moved, tokens are moved before the escrow is written, and the
/// announcement is the last call.
pub proof fn changes_come_in_order(request: RequestView, facts: FactsView, j: int, k: int)
    requires
        0 <= j < request.length(),
        0 <= k < request.length(),
    ensures
        ({
            let calls = request.calls(facts);
            &&& calls[j] is Store && calls[j]->Store_0 == Key::EscrowCount && calls[k] is Transfer
                ==> j < k
            &&& calls[j] is Transfer && calls[k] is Store && calls[k]->Store_0 is Escrow ==> j < k
            &&& calls[k] is Publish <==> k == request.length() - 1 && {
                ||| request is CreateEscrow
                ||| request is ReleaseFunds
                ||| request is Dispute
                ||| request is Refund
            }
        }),
{
}

// Replies.

/// An operation that finds no entry where it needs one stops and says which; a
/// count that was never written counts as zero.
pub proof fn missing_entries_are_named(invocation: InvocationView)
    requires
        invocation.well_formed(),
    ensures
        ({
            let missing = invocation.resume(ReplyView::Loaded(None));
            match invocation.call() {
                CallView::Load(Key::Admin) => missing == ProgressView::Finished(
                    Err(EscrowError::AdminNotFound),
                ),
                CallView::Load(Key::ApprovedTokens) => missing == ProgressView::Finished(
                    Err(EscrowError::ApprovedTokensNotSet),
                ),
                CallView::Load(Key::Escrow(_)) => missing == ProgressView::Finished(
                    Err(EscrowError::EscrowNotFound),
                ),
                CallView::Load(Key::EscrowCount) => missing == invocation.resume(
                    ReplyView::Loaded(Some(RecordView::Count(0))),
                ),
                _ => true,
            }
        }),
{
}

/// What an operation makes of an escrow that it reads: only an active one is
/// released or disputed, only one that was not paid out is refunded, and a query
/// returns it as it is.
pub proof fn escrows_are_judged_by_status(
    invocation: InvocationView,
    id: u64,
    escrow: EscrowView,
)
    requires
        invocation.well_formed(),
        invocation.call() == CallView::Load(Key::Escrow(id)),
    ensures
        ({
            let read = invocation.resume(ReplyView::Loaded(Some(RecordView::Escrow(escrow))));
            match invocation.request {
                RequestView::GetEscrow { .. } => read == ProgressView::Finished(
                    Ok(OutputView::Escrow(escrow)),
                ),
                RequestView::Refund { .. } => if escrow.status == EscrowStatus::Released
                    || escrow.status == EscrowStatus::Refunded {
                    read == ProgressView::Finished(Err(EscrowError::CannotRefund))
                } else {
                    read is Waiting
                },
                _ => if escrow.status == EscrowStatus::Active {
                    read is Waiting
                } else {
                    read == ProgressView::Finished(Err(EscrowError::EscrowNotActive))
                },
            }
        }),
{
}

/// What an operation makes of the other things that it reads: an admin that is
/// there, a list of tokens, a balance, a count.
pub proof fn readings_are_judged_alike(
    invocation: InvocationView,
    admin: Seq<char>,
    list: Seq<Seq<char>>,
    balance: i128,
    count: u64,
    flag: bool,
    time: u64,
)
    requires
        invocation.well_formed(),
    ensures
        match invocation.call() {
            CallView::Has(_) => invocation.resume(ReplyView::Flag(flag)) == ProgressView::Finished(
                Err(EscrowError::AlreadyInitialized),
            ) <==> flag,
            CallView::Load(Key::Admin) => invocation.resume(
                ReplyView::Loaded(Some(RecordView::Address(admin))),
            ) is Waiting,
            CallView::Load(Key::ApprovedTokens) => {
                let next = invocation.resume(ReplyView::Loaded(Some(RecordView::Tokens(list))));
                if list.contains(invocation.request->token_address) {
                    next is Waiting
                } else {
                    next == ProgressView::Finished(Err(EscrowError::TokenNotApproved))
                }
            },
            CallView::Balance { token, holder } => {
                let next = invocation.resume(ReplyView::Amount(balance));
                &&& token == invocation.request->token_address
                &&& holder == invocation.request->learner
                &&& if balance >= invocation.request->amount {
                    next is Waiting
                } else {
                    next == ProgressView::Finished(Err(EscrowError::InsufficientBalance))
                }
            },
            CallView::Load(Key::EscrowCount) => {
                let next = invocation.resume(ReplyView::Loaded(Some(RecordView::Count(count))));
                if invocation.request is GetEscrowCount {
                    next == ProgressView::Finished(Ok(OutputView::Count(count)))
                } else if count == u64::MAX {
                    next == ProgressView::Finished(Err(EscrowError::CountOverflow))
                } else {
                    next is Waiting
                }
            },
            CallView::Timestamp => invocation.resume(ReplyView::Time(time)) is Waiting,
            _ => true,
        },
{
}

/// A command that the host carried out stops no operation, but for the
/// signature of a caller who is not entitled.
pub proof fn commands_let_operations_go_on(invocation: InvocationView)
    requires
        invocation.well_formed(),
    ensures
        ({
            let next = invocation.resume(ReplyView::Done);
            match invocation.call() {
                CallView::Store(_, _) => next is Waiting,
                CallView::ExtendTtl { .. } => !(next is Finished && next->Finished_0 is Err),
                CallView::Transfer { .. } => next is Waiting,
                CallView::Publish(_) => next is Finished && next->Finished_0 is Ok,
                CallView::RequireAuth(who) => match invocation.request {
                    RequestView::ReleaseFunds { .. } => if who == invocation.facts.escrow->0.learner
                        || who == invocation.facts.admin->0 {
                        next is Waiting
                    } else {
                        next == ProgressView::Finished(Err(EscrowError::CallerNotAuthorized))
                    },
                    RequestView::Dispute { .. } => if who == invocation.facts.escrow->0.mentor
                        || who == invocation.facts.escrow->0.learner {
                        next is Waiting
                    } else {
                        next == ProgressView::Finished(
                            Err(EscrowError::CallerNotAuthorizedToDispute),
                        )
                    },
                    _ => next is Waiting,
                },
                _ => true,
            }
        }),
{
}

} // verus!
