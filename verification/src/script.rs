//! Which calls each operation makes, in which order, and where it stops.
//!
//! An operation is a fixed sequence of host calls. The later calls depend on
//! what the earlier ones learned (the `Facts`), and after some replies the
//! operation may be refused instead of going on.

use crate::host::{CallView, EventView, Key, PartyView, RecordView, ReplyView};
use crate::types::{EscrowError, EscrowStatus, EscrowView, ESCROW_TTL_BUMP, ESCROW_TTL_THRESHOLD};
use vstd::prelude::*;

verus! {

/// An operation with its arguments.
pub enum RequestView {
    Initialize { admin: Seq<char>, approved_tokens: Seq<Seq<char>> },
    CreateEscrow {
        mentor: Seq<char>,
        learner: Seq<char>,
        amount: i128,
        session_id: Seq<char>,
        token_address: Seq<char>,
    },
    ReleaseFunds { caller: Seq<char>, escrow_id: u64 },
    Dispute { caller: Seq<char>, escrow_id: u64 },
    Refund { escrow_id: u64 },
    GetEscrow { escrow_id: u64 },
    GetEscrowCount,
}

/// What an operation has learned from the host so far.
pub struct FactsView {
    /// Whether there is an admin.
    pub initialized: bool,
    /// The admin that was read; none where there is none.
    pub admin: Option<Seq<char>>,
    /// The approved tokens that were read; none where there is no list.
    pub approved: Option<Seq<Seq<char>>>,
    /// The learner's balance.
    pub balance: i128,
    /// The number of escrows so far; zero where none was recorded.
    pub count: u64,
    /// The time of the operation.
    pub now: u64,
    /// The escrow that was read; none where there is none.
    pub escrow: Option<EscrowView>,
}

/// What is known before the first reply.
pub open spec fn no_facts() -> FactsView {
    FactsView {
        initialized: false,
        admin: None,
        approved: None,
        balance: 0,
        count: 0,
        now: 0,
        escrow: None,
    }
}

impl FactsView {
    /// What is known once `call` was answered by `reply`.
    pub open spec fn learn(self, call: CallView, reply: ReplyView) -> FactsView {
        match (call, reply) {
            (CallView::Has(_), ReplyView::Flag(b)) => FactsView { initialized: b, ..self },
            (CallView::Load(Key::Admin), ReplyView::Loaded(r)) => FactsView {
                admin: match r {
                    Some(RecordView::Address(a)) => Some(a),
                    _ => None,
                },
                ..self
            },
            (CallView::Load(Key::ApprovedTokens), ReplyView::Loaded(r)) => FactsView {
                approved: match r {
                    Some(RecordView::Tokens(t)) => Some(t),
                    _ => None,
                },
                ..self
            },
            (CallView::Load(Key::EscrowCount), ReplyView::Loaded(r)) => FactsView {
                count: match r {
                    Some(RecordView::Count(n)) => n,
                    _ => 0,
                },
                ..self
            },
            (CallView::Load(Key::Escrow(_)), ReplyView::Loaded(r)) => FactsView {
                escrow: match r {
                    Some(RecordView::Escrow(e)) => Some(e),
                    _ => None,
                },
                ..self
            },
            (CallView::Balance { .. }, ReplyView::Amount(n)) => FactsView { balance: n, ..self },
            (CallView::Timestamp, ReplyView::Time(t)) => FactsView { now: t, ..self },
            _ => self,
        }
    }
}

/// What an operation that was not refused returns.
pub enum OutputView {
    Nothing,
    EscrowId(u64),
    Escrow(EscrowView),
    Count(u64),
}

/// The call that keeps an entry alive.
pub open spec fn keep(key: Key) -> CallView {
    CallView::ExtendTtl { key, threshold: ESCROW_TTL_THRESHOLD, extend_to: ESCROW_TTL_BUMP }
}

/// The call that pays the whole of `escrow` out to `to`.
pub open spec fn pay(escrow: EscrowView, to: Seq<char>) -> CallView {
    CallView::Transfer {
        token: escrow.token_address,
        from: PartyView::ThisContract,
        to: PartyView::Holder(to),
        amount: escrow.amount,
    }
}

/// The call that writes `escrow` under `id`.
pub open spec fn store(id: u64, escrow: EscrowView) -> CallView {
    CallView::Store(Key::Escrow(id), RecordView::Escrow(escrow))
}

impl RequestView {
    /// The number that a new escrow gets.
    pub open spec fn new_id(self, facts: FactsView) -> u64 {
        (facts.count + 1) as u64
    }

    /// The escrow that `CreateEscrow` records.
    pub open spec fn new_escrow(self, facts: FactsView) -> EscrowView {
        EscrowView {
            id: self.new_id(facts),
            mentor: self->mentor,
            learner: self->learner,
            amount: self->amount,
            session_id: self->session_id,
            status: EscrowStatus::Active,
            created_at: facts.now,
            token_address: self->token_address,
        }
    }

    /// All the calls of the operation, in order.
    pub open spec fn calls(self, facts: FactsView) -> Seq<CallView> {
        let escrow = facts.escrow->0;
        match self {
            RequestView::Initialize { admin, approved_tokens } => seq![
                CallView::Has(Key::Admin),
                CallView::Store(Key::Admin, RecordView::Address(admin)),
                keep(Key::Admin),
                CallView::Store(Key::ApprovedTokens, RecordView::Tokens(approved_tokens)),
                keep(Key::ApprovedTokens),
                CallView::Store(Key::EscrowCount, RecordView::Count(0)),
                keep(Key::EscrowCount),
            ],
            RequestView::CreateEscrow { mentor, learner, amount, session_id, token_address } => {
                let id = self.new_id(facts);
                seq![
                    CallView::RequireAuth(learner),
                    keep(Key::ApprovedTokens),
                    CallView::Load(Key::ApprovedTokens),
                    CallView::Balance { token: token_address, holder: learner },
                    CallView::Load(Key::EscrowCount),
                    CallView::Store(Key::EscrowCount, RecordView::Count(id)),
                    keep(Key::EscrowCount),
                    CallView::Transfer {
                        token: token_address,
                        from: PartyView::Holder(learner),
                        to: PartyView::ThisContract,
                        amount,
                    },
                    CallView::Timestamp,
                    store(id, self.new_escrow(facts)),
                    keep(Key::Escrow(id)),
                    CallView::Publish(
                        EventView::Created {
                            id,
                            mentor,
                            learner,
                            amount,
                            session_id,
                            token_address,
                        },
                    ),
                ]
            },
            RequestView::ReleaseFunds { caller, escrow_id } => seq![
                keep(Key::Escrow(escrow_id)),
                CallView::Load(Key::Escrow(escrow_id)),
                CallView::Load(Key::Admin),
                keep(Key::Admin),
                CallView::RequireAuth(caller),
                pay(escrow, escrow.mentor),
                store(escrow_id, escrow.with_status(EscrowStatus::Released)),
                CallView::Publish(
                    EventView::Released {
                        id: escrow_id,
                        mentor: escrow.mentor,
                        amount: escrow.amount,
                        token_address: escrow.token_address,
                    },
                ),
            ],
            RequestView::Dispute { caller, escrow_id } => seq![
                keep(Key::Escrow(escrow_id)),
                CallView::Load(Key::Escrow(escrow_id)),
                CallView::RequireAuth(caller),
                store(escrow_id, escrow.with_status(EscrowStatus::Disputed)),
                CallView::Publish(
                    EventView::Disputed { id: escrow_id, token_address: escrow.token_address },
                ),
            ],
            RequestView::Refund { escrow_id } => seq![
                CallView::Load(Key::Admin),
                keep(Key::Admin),
                CallView::RequireAuth(facts.admin->0),
                keep(Key::Escrow(escrow_id)),
                CallView::Load(Key::Escrow(escrow_id)),
                pay(escrow, escrow.learner),
                store(escrow_id, escrow.with_status(EscrowStatus::Refunded)),
                CallView::Publish(
                    EventView::Refunded {
                        id: escrow_id,
                        learner: escrow.learner,
                        amount: escrow.amount,
                        token_address: escrow.token_address,
                    },
                ),
            ],
            RequestView::GetEscrow { escrow_id } => seq![
                keep(Key::Escrow(escrow_id)),
                CallView::Load(Key::Escrow(escrow_id)),
            ],
            RequestView::GetEscrowCount => seq![
                keep(Key::EscrowCount),
                CallView::Load(Key::EscrowCount),
            ],
        }
    }

    /// How many calls the operation makes when it is not refused.
    pub open spec fn length(self) -> nat {
        self.calls(no_facts()).len()
    }

    /// Why the operation stops after `done` replies, if it does.
    pub open spec fn refusal(self, facts: FactsView, done: nat) -> Option<EscrowError> {
        match self {
            RequestView::Initialize { .. } => if done == 1 && facts.initialized {
                Some(EscrowError::AlreadyInitialized)
            } else {
                None
            },
            RequestView::CreateEscrow { amount, token_address, .. } => if done == 0 && amount
                <= 0 {
                Some(EscrowError::AmountNotPositive)
            } else if done == 3 && facts.approved is None {
                Some(EscrowError::ApprovedTokensNotSet)
            } else if done == 3 && !facts.approved->0.contains(token_address) {
                Some(EscrowError::TokenNotApproved)
            } else if done == 4 && facts.balance < amount {
                Some(EscrowError::InsufficientBalance)
            } else if done == 5 && facts.count == u64::MAX {
                Some(EscrowError::CountOverflow)
            } else {
                None
            },
            RequestView::ReleaseFunds { caller, .. } => if done == 2 && facts.escrow is None {
                Some(EscrowError::EscrowNotFound)
            } else if done == 2 && facts.escrow->0.status !is Active {
                Some(EscrowError::EscrowNotActive)
            } else if done == 3 && facts.admin is None {
                Some(EscrowError::AdminNotFound)
            } else if done == 5 && caller != facts.escrow->0.learner && caller != facts.admin->0 {
                Some(EscrowError::CallerNotAuthorized)
            } else {
                None
            },
            RequestView::Dispute { caller, .. } => if done == 2 && facts.escrow is None {
                Some(EscrowError::EscrowNotFound)
            } else if done == 2 && facts.escrow->0.status !is Active {
                Some(EscrowError::EscrowNotActive)
            } else if done == 3 && caller != facts.escrow->0.mentor && caller
                != facts.escrow->0.learner {
                Some(EscrowError::CallerNotAuthorizedToDispute)
            } else {
                None
            },
            RequestView::Refund { .. } => if done == 1 && facts.admin is None {
                Some(EscrowError::AdminNotFound)
            } else if done == 5 && facts.escrow is None {
                Some(EscrowError::EscrowNotFound)
            } else if done == 5 && !facts.escrow->0.is_held() {
                Some(EscrowError::CannotRefund)
            } else {
                None
            },
            RequestView::GetEscrow { .. } => if done == 2 && facts.escrow is None {
                Some(EscrowError::EscrowNotFound)
            } else {
                None
            },
            RequestView::GetEscrowCount => None,
        }
    }

    /// What the operation returns when it is not refused.
    pub open spec fn output(self, facts: FactsView) -> OutputView {
        match self {
            RequestView::CreateEscrow { .. } => OutputView::EscrowId(self.new_id(facts)),
            RequestView::GetEscrow { .. } => OutputView::Escrow(facts.escrow->0),
            RequestView::GetEscrowCount => OutputView::Count(facts.count),
            _ => OutputView::Nothing,
        }
    }

    /// Where the operation stands after `done` replies that taught it `facts`.
    pub open spec fn after(self, facts: FactsView, done: nat) -> ProgressView {
        match self.refusal(facts, done) {
            Some(error) => ProgressView::Finished(Err(error)),
            None => if done < self.length() {
                ProgressView::Waiting(InvocationView { request: self, facts, done })
            } else {
                ProgressView::Finished(Ok(self.output(facts)))
            },
        }
    }

    /// Where the operation stands before any reply.
    pub open spec fn begin(self) -> ProgressView {
        self.after(no_facts(), 0)
    }
}

/// An operation that waits for the reply to its next call.
pub struct InvocationView {
    pub request: RequestView,
    pub facts: FactsView,
    /// How many calls were answered.
    pub done: nat,
}

/// Where an operation stands.
pub enum ProgressView {
    Waiting(InvocationView),
    Finished(Result<OutputView, EscrowError>),
}

impl InvocationView {
    /// The operation has a next call, and was not refused before it.
    pub open spec fn well_formed(self) -> bool {
        &&& self.done < self.request.length()
        &&& forall|k: nat|
            k <= self.done ==> (#[trigger] self.request.refusal(self.facts, k)) is None
    }

    /// The call that waits for a reply.
    pub open spec fn call(self) -> CallView {
        self.request.calls(self.facts)[self.done as int]
    }

    /// Where the operation stands once its call was answered by `reply`.
    pub open spec fn resume(self, reply: ReplyView) -> ProgressView {
        self.request.after(self.facts.learn(self.call(), reply), self.done + 1)
    }
}

/// What one reply teaches does not undo a check that was passed before it.
pub proof fn lemma_learning_keeps_checks(inv: InvocationView, reply: ReplyView)
    requires
        inv.well_formed(),
        inv.call().admits(reply),
    ensures
        forall|k: nat|
            k <= inv.done ==> (#[trigger] inv.request.refusal(
                inv.facts.learn(inv.call(), reply),
                k,
            )) is None,
{
    assert forall|k: nat| k <= inv.done implies (#[trigger] inv.request.refusal(
        inv.facts.learn(inv.call(), reply),
        k,
    )) is None by {
        assert(inv.request.refusal(inv.facts, k) is None);
    }
}

} // verus!
