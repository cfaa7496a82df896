//! The operations of the escrow contract.

use crate::host::{Call, CallView, Event, Key, Party, Record, Reply};
use crate::script::{
    lemma_learning_keeps_checks, no_facts, FactsView, InvocationView, OutputView, ProgressView,
    RequestView,
};
use crate::types::{
    clone_addresses, contains_address, texts, Address, Escrow, EscrowError, EscrowStatus,
    ESCROW_TTL_BUMP, ESCROW_TTL_THRESHOLD,
};
use vstd::prelude::*;

verus! {

/// An operation with its arguments.
#[derive(Debug)]
enum Request {
    Initialize { admin: Address, approved_tokens: Vec<Address> },
    CreateEscrow {
        mentor: Address,
        learner: Address,
        amount: i128,
        session_id: String,
        token_address: Address,
    },
    ReleaseFunds { caller: Address, escrow_id: u64 },
    Dispute { caller: Address, escrow_id: u64 },
    Refund { escrow_id: u64 },
    GetEscrow { escrow_id: u64 },
    GetEscrowCount,
}

impl View for Request {
    type V = RequestView;

    closed spec fn view(&self) -> RequestView {
        match self {
            Request::Initialize { admin, approved_tokens } => RequestView::Initialize {
                admin: admin@,
                approved_tokens: texts(approved_tokens@),
            },
            Request::CreateEscrow { mentor, learner, amount, session_id, token_address } =>
                RequestView::CreateEscrow {
                    mentor: mentor@,
                    learner: learner@,
                    amount: *amount,
                    session_id: session_id@,
                    token_address: token_address@,
                },
            Request::ReleaseFunds { caller, escrow_id } => RequestView::ReleaseFunds {
                caller: caller@,
                escrow_id: *escrow_id,
            },
            Request::Dispute { caller, escrow_id } => RequestView::Dispute {
                caller: caller@,
                escrow_id: *escrow_id,
            },
            Request::Refund { escrow_id } => RequestView::Refund { escrow_id: *escrow_id },
            Request::GetEscrow { escrow_id } => RequestView::GetEscrow { escrow_id: *escrow_id },
            Request::GetEscrowCount => RequestView::GetEscrowCount,
        }
    }
}

/// What an operation has learned from the host so far.
#[derive(Debug)]
struct Facts {
    initialized: bool,
    admin: Option<Address>,
    approved: Option<Vec<Address>>,
    balance: i128,
    count: u64,
    now: u64,
    escrow: Option<Escrow>,
}

impl View for Facts {
    type V = FactsView;

    closed spec fn view(&self) -> FactsView {
        FactsView {
            initialized: self.initialized,
            admin: match self.admin {
                Some(a) => Some(a@),
                None => None,
            },
            approved: match self.approved {
                Some(t) => Some(texts(t@)),
                None => None,
            },
            balance: self.balance,
            count: self.count,
            now: self.now,
            escrow: match self.escrow {
                Some(e) => Some(e@),
                None => None,
            },
        }
    }
}

impl Facts {
    fn none() -> (res: Facts)
        ensures
            res@ == no_facts(),
    {
        Facts {
            initialized: false,
            admin: None,
            approved: None,
            balance: 0,
            count: 0,
            now: 0,
            escrow: None,
        }
    }

    /// Takes in the reply to `call`.
    fn learn(&mut self, call: &Call, reply: Reply)
        requires
            call@.admits(reply@),
        ensures
            final(self)@ == old(self)@.learn(call@, reply@),
    {
        match reply {
            Reply::Done => {},
            Reply::Flag(initialized) => self.initialized = initialized,
            Reply::Amount(balance) => self.balance = balance,
            Reply::Time(now) => self.now = now,
            Reply::Loaded(Some(Record::Address(admin))) => self.admin = Some(admin),
            Reply::Loaded(Some(Record::Tokens(tokens))) => self.approved = Some(tokens),
            Reply::Loaded(Some(Record::Count(count))) => self.count = count,
            Reply::Loaded(Some(Record::Escrow(escrow))) => self.escrow = Some(escrow),
            Reply::Loaded(None) => match call {
                Call::Load(Key::Admin) => self.admin = None,
                Call::Load(Key::ApprovedTokens) => self.approved = None,
                Call::Load(Key::EscrowCount) => self.count = 0,
                Call::Load(Key::Escrow(_)) => self.escrow = None,
                _ => {},
            },
        }
    }
}

/// The call that keeps an entry alive.
fn keep(key: Key) -> (res: Call)
    ensures
        res@ == crate::script::keep(key),
{
    Call::ExtendTtl { key, threshold: ESCROW_TTL_THRESHOLD, extend_to: ESCROW_TTL_BUMP }
}

/// The call that pays the whole of `escrow` out to `to`.
fn pay(escrow: &Escrow, to: &Address) -> (res: Call)
    ensures
        res@ == crate::script::pay(escrow@, to@),
{
    Call::Transfer {
        token: escrow.token_address.clone(),
        from: Party::ThisContract,
        to: Party::Holder(to.clone()),
        amount: escrow.amount,
    }
}

/// The call that writes `escrow` under `id`.
fn store(id: u64, escrow: Escrow) -> (res: Call)
    ensures
        res@ == crate::script::store(id, escrow@),
{
    Call::Store(Key::Escrow(id), Record::Escrow(escrow))
}

impl Request {
    /// How many calls the operation makes when it is not refused.
    fn length(&self) -> (res: usize)
        ensures
            res == self@.length(),
    {
        match self {
            Request::Initialize { .. } => 7,
            Request::CreateEscrow { .. } => 12,
            Request::ReleaseFunds { .. } => 8,
            Request::Dispute { .. } => 5,
            Request::Refund { .. } => 8,
            Request::GetEscrow { .. } => 2,
            Request::GetEscrowCount => 2,
        }
    }

    /// The call that follows `done` replies.
    fn call(&self, facts: &Facts, done: usize) -> (res: Call)
        requires
            (InvocationView { request: self@, facts: facts@, done: done as nat }).well_formed(),
        ensures
            res@ == self@.calls(facts@)[done as int],
    {
        let ghost inv = InvocationView { request: self@, facts: facts@, done: done as nat };
        match self {
            Request::Initialize { admin, approved_tokens } => match done {
                0 => Call::Has(Key::Admin),
                1 => Call::Store(Key::Admin, Record::Address(admin.clone())),
                2 => keep(Key::Admin),
                3 => Call::Store(
                    Key::ApprovedTokens,
                    Record::Tokens(clone_addresses(approved_tokens)),
                ),
                4 => keep(Key::ApprovedTokens),
                5 => Call::Store(Key::EscrowCount, Record::Count(0)),
                _ => keep(Key::EscrowCount),
            },
            Request::CreateEscrow { mentor, learner, amount, session_id, token_address } => {
                if done < 5 {
                    match done {
                        0 => Call::RequireAuth(learner.clone()),
                        1 => keep(Key::ApprovedTokens),
                        2 => Call::Load(Key::ApprovedTokens),
                        3 => Call::Balance {
                            token: token_address.clone(),
                            holder: learner.clone(),
                        },
                        _ => Call::Load(Key::EscrowCount),
                    }
                } else {
                    assert(inv.request.refusal(inv.facts, 5) is None);
                    let id: u64 = facts.count + 1;
                    match done {
                        5 => Call::Store(Key::EscrowCount, Record::Count(id)),
                        6 => keep(Key::EscrowCount),
                        7 => Call::Transfer {
                            token: token_address.clone(),
                            from: Party::Holder(learner.clone()),
                            to: Party::ThisContract,
                            amount: *amount,
                        },
                        8 => Call::Timestamp,
                        9 => store(
                            id,
                            Escrow {
                                id,
                                mentor: mentor.clone(),
                                learner: learner.clone(),
                                amount: *amount,
                                session_id: session_id.clone(),
                                status: EscrowStatus::Active,
                                created_at: facts.now,
                                token_address: token_address.clone(),
                            },
                        ),
                        10 => keep(Key::Escrow(id)),
                        _ => Call::Publish(
                            Event::Created {
                                id,
                                mentor: mentor.clone(),
                                learner: learner.clone(),
                                amount: *amount,
                                session_id: session_id.clone(),
                                token_address: token_address.clone(),
                            },
                        ),
                    }
                }
            },
            Request::ReleaseFunds { caller, escrow_id } => {
                if done < 5 {
                    match done {
                        0 => keep(Key::Escrow(*escrow_id)),
                        1 => Call::Load(Key::Escrow(*escrow_id)),
                        2 => Call::Load(Key::Admin),
                        3 => keep(Key::Admin),
                        _ => Call::RequireAuth(caller.clone()),
                    }
                } else {
                    assert(inv.request.refusal(inv.facts, 2) is None);
                    let escrow = facts.escrow.as_ref().unwrap();
                    match done {
                        5 => pay(escrow, &escrow.mentor),
                        6 => store(*escrow_id, escrow.with_status(EscrowStatus::Released)),
                        _ => Call::Publish(
                            Event::Released {
                                id: *escrow_id,
                                mentor: escrow.mentor.clone(),
                                amount: escrow.amount,
                                token_address: escrow.token_address.clone(),
                            },
                        ),
                    }
                }
            },
            Request::Dispute { caller, escrow_id } => {
                if done < 3 {
                    match done {
                        0 => keep(Key::Escrow(*escrow_id)),
                        1 => Call::Load(Key::Escrow(*escrow_id)),
                        _ => Call::RequireAuth(caller.clone()),
                    }
                } else {
                    assert(inv.request.refusal(inv.facts, 2) is None);
                    let escrow = facts.escrow.as_ref().unwrap();
                    match done {
                        3 => store(*escrow_id, escrow.with_status(EscrowStatus::Disputed)),
                        _ => Call::Publish(
                            Event::Disputed {
                                id: *escrow_id,
                                token_address: escrow.token_address.clone(),
                            },
                        ),
                    }
                }
            },
            Request::Refund { escrow_id } => {
                if done < 5 {
                    match done {
                        0 => Call::Load(Key::Admin),
                        1 => keep(Key::Admin),
                        2 => {
                            assert(inv.request.refusal(inv.facts, 1) is None);
                            Call::RequireAuth(facts.admin.as_ref().unwrap().clone())
                        },
                        3 => keep(Key::Escrow(*escrow_id)),
                        _ => Call::Load(Key::Escrow(*escrow_id)),
                    }
                } else {
                    assert(inv.request.refusal(inv.facts, 5) is None);
                    let escrow = facts.escrow.as_ref().unwrap();
                    match done {
                        5 => pay(escrow, &escrow.learner),
                        6 => store(*escrow_id, escrow.with_status(EscrowStatus::Refunded)),
                        _ => Call::Publish(
                            Event::Refunded {
                                id: *escrow_id,
                                learner: escrow.learner.clone(),
                                amount: escrow.amount,
                                token_address: escrow.token_address.clone(),
                            },
                        ),
                    }
                }
            },
            Request::GetEscrow { escrow_id } => match done {
                0 => keep(Key::Escrow(*escrow_id)),
                _ => Call::Load(Key::Escrow(*escrow_id)),
            },
            Request::GetEscrowCount => match done {
                0 => keep(Key::EscrowCount),
                _ => Call::Load(Key::EscrowCount),
            },
        }
    }

    /// Why the operation stops after `done` replies, if it does.
    fn refusal(&self, facts: &Facts, done: usize) -> (res: Option<EscrowError>)
        requires
            forall|k: nat| k < done ==> (#[trigger] self@.refusal(facts@, k)) is None,
        ensures
            res == self@.refusal(facts@, done as nat),
    {
        match self {
            Request::Initialize { .. } => if done == 1 && facts.initialized {
                Some(EscrowError::AlreadyInitialized)
            } else {
                None
            },
            Request::CreateEscrow { amount, token_address, .. } => match done {
                0 => if *amount <= 0 {
                    Some(EscrowError::AmountNotPositive)
                } else {
                    None
                },
                3 => match &facts.approved {
                    None => Some(EscrowError::ApprovedTokensNotSet),
                    Some(approved) => if contains_address(approved, token_address) {
                        None
                    } else {
                        Some(EscrowError::TokenNotApproved)
                    },
                },
                4 => if facts.balance < *amount {
                    Some(EscrowError::InsufficientBalance)
                } else {
                    None
                },
                5 => if facts.count == u64::MAX {
                    Some(EscrowError::CountOverflow)
                } else {
                    None
                },
                _ => None,
            },
            Request::ReleaseFunds { caller, .. } => match done {
                2 => refuse_inactive(&facts.escrow),
                3 => if facts.admin.is_none() {
                    Some(EscrowError::AdminNotFound)
                } else {
                    None
                },
                5 => {
                    assert(self@.refusal(facts@, 2) is None);
                    assert(self@.refusal(facts@, 3) is None);
                    let escrow = facts.escrow.as_ref().unwrap();
                    let admin = facts.admin.as_ref().unwrap();
                    if *caller != escrow.learner && *caller != *admin {
                        Some(EscrowError::CallerNotAuthorized)
                    } else {
                        None
                    }
                },
                _ => None,
            },
            Request::Dispute { caller, .. } => match done {
                2 => refuse_inactive(&facts.escrow),
                3 => {
                    assert(self@.refusal(facts@, 2) is None);
                    let escrow = facts.escrow.as_ref().unwrap();
                    if *caller != escrow.mentor && *caller != escrow.learner {
                        Some(EscrowError::CallerNotAuthorizedToDispute)
                    } else {
                        None
                    }
                },
                _ => None,
            },
            Request::Refund { .. } => match done {
                1 => if facts.admin.is_none() {
                    Some(EscrowError::AdminNotFound)
                } else {
                    None
                },
                5 => match &facts.escrow {
                    None => Some(EscrowError::EscrowNotFound),
                    Some(escrow) => if escrow.status == EscrowStatus::Released || escrow.status
                        == EscrowStatus::Refunded {
                        Some(EscrowError::CannotRefund)
                    } else {
                        None
                    },
                },
                _ => None,
            },
            Request::GetEscrow { .. } => if done == 2 && facts.escrow.is_none() {
                Some(EscrowError::EscrowNotFound)
            } else {
                None
            },
            Request::GetEscrowCount => None,
        }
    }

    /// What the operation returns once every call was answered.
    fn output(&self, facts: Facts) -> (res: Output)
        requires
            forall|k: nat|
                k <= self@.length() ==> (#[trigger] self@.refusal(facts@, k)) is None,
        ensures
            res@ == self@.output(facts@),
    {
        match self {
            Request::CreateEscrow { .. } => {
                assert(self@.refusal(facts@, 5) is None);
                Output::EscrowId(facts.count + 1)
            },
            Request::GetEscrow { .. } => {
                assert(self@.refusal(facts@, 2) is None);
                Output::Escrow(facts.escrow.unwrap())
            },
            Request::GetEscrowCount => Output::Count(facts.count),
            _ => Output::Nothing,
        }
    }

    /// Where the operation stands after `done` replies that taught it `facts`.
    fn after(self, facts: Facts, done: usize) -> (res: Progress)
        requires
            done <= self@.length(),
            forall|k: nat| k < done ==> (#[trigger] self@.refusal(facts@, k)) is None,
        ensures
            res@ == self@.after(facts@, done as nat),
    {
        match self.refusal(&facts, done) {
            Some(error) => Progress::Finished(Err(error)),
            None => if done < self.length() {
                Progress::Waiting(Invocation { request: self, facts, done })
            } else {
                Progress::Finished(Ok(self.output(facts)))
            },
        }
    }
}

/// Refuses an escrow that is missing or not active.
fn refuse_inactive(escrow: &Option<Escrow>) -> (res: Option<EscrowError>)
    ensures
        res == match escrow {
            None => Some(EscrowError::EscrowNotFound),
            Some(e) => if e.status is Active {
                None
            } else {
                Some(EscrowError::EscrowNotActive)
            },
        },
{
    match escrow {
        None => Some(EscrowError::EscrowNotFound),
        Some(e) => if e.status != EscrowStatus::Active {
            Some(EscrowError::EscrowNotActive)
        } else {
            None
        },
    }
}

/// What an operation that was not refused returns.
#[derive(Clone, Debug)]
pub enum Output {
    Nothing,
    EscrowId(u64),
    Escrow(Escrow),
    Count(u64),
}

impl View for Output {
    type V = OutputView;

    open spec fn view(&self) -> OutputView {
        match self {
            Output::Nothing => OutputView::Nothing,
            Output::EscrowId(id) => OutputView::EscrowId(*id),
            Output::Escrow(escrow) => OutputView::Escrow(escrow@),
            Output::Count(count) => OutputView::Count(*count),
        }
    }
}

/// An operation that waits for the reply to its next call.
#[derive(Debug)]
pub struct Invocation {
    request: Request,
    facts: Facts,
    done: usize,
}

impl View for Invocation {
    type V = InvocationView;

    closed spec fn view(&self) -> InvocationView {
        InvocationView { request: self.request@, facts: self.facts@, done: self.done as nat }
    }
}

/// Where an operation stands.
#[derive(Debug)]
pub enum Progress {
    /// The host is to answer the next call.
    Waiting(Invocation),
    /// The operation is over; a refused one leaves no trace on the ledger.
    Finished(Result<Output, EscrowError>),
}

impl View for Progress {
    type V = ProgressView;

    open spec fn view(&self) -> ProgressView {
        match self {
            Progress::Waiting(inv) => ProgressView::Waiting(inv@),
            Progress::Finished(Ok(output)) => ProgressView::Finished(Ok(output@)),
            Progress::Finished(Err(error)) => ProgressView::Finished(Err(*error)),
        }
    }
}

impl Invocation {
    #[verifier::type_invariant]
    spec fn in_script(self) -> bool {
        self@.well_formed()
    }

    /// The call that the host is to answer.
    pub fn call(&self) -> (res: Call)
        ensures
            self@.well_formed(),
            res@ == self@.call(),
    {
        proof {
            use_type_invariant(self);
        }
        self.request.call(&self.facts, self.done)
    }

    /// Takes in the host's reply to the call.
    pub fn resume(self, reply: Reply) -> (res: Progress)
        requires
            self@.call().admits(reply@),
        ensures
            self@.well_formed(),
            res@ == self@.resume(reply@),
    {
        proof {
            use_type_invariant(&self);
            lemma_learning_keeps_checks(self@, reply@);
        }
        let call = self.call();
        let Invocation { request, mut facts, done } = self;
        facts.learn(&call, reply);
        request.after(facts, done + 1)
    }
}

/// The escrow contract. Each operation starts here and is then driven by the
/// host's replies.
pub struct EscrowContract;

impl EscrowContract {
    /// Sets the admin and the tokens that may be locked. Refused when there
    /// is an admin already.
    pub fn initialize(admin: Address, approved_tokens: Vec<Address>) -> (res: Progress)
        ensures
            res@ == (RequestView::Initialize {
                admin: admin@,
                approved_tokens: texts(approved_tokens@),
            }).begin(),
            res matches Progress::Waiting(inv) && inv@.call() == CallView::Has(Key::Admin),
    {
        (Request::Initialize { admin, approved_tokens }).after(Facts::none(), 0)
    }

    /// Locks `amount` of the learner's tokens for the mentor. Returns the
    /// number of the new escrow.
    pub fn create_escrow(
        mentor: Address,
        learner: Address,
        amount: i128,
        session_id: String,
        token_address: Address,
    ) -> (res: Progress)
        ensures
            res@ == (RequestView::CreateEscrow {
                mentor: mentor@,
                learner: learner@,
                amount,
                session_id: session_id@,
                token_address: token_address@,
            }).begin(),
            amount <= 0 ==> res == Progress::Finished(Err(EscrowError::AmountNotPositive)),
            amount > 0 ==> (res matches Progress::Waiting(inv) && inv@.call()
                == CallView::RequireAuth(learner@)),
    {
        (Request::CreateEscrow { mentor, learner, amount, session_id, token_address }).after(
            Facts::none(),
            0,
        )
    }

    /// Pays an active escrow to its mentor. The caller is the learner or the
    /// admin.
    pub fn release_funds(caller: Address, escrow_id: u64) -> (res: Progress)
        ensures
            res@ == (RequestView::ReleaseFunds { caller: caller@, escrow_id }).begin(),
            res matches Progress::Waiting(inv) && inv@.call() == crate::script::keep(
                Key::Escrow(escrow_id),
            ),
    {
        (Request::ReleaseFunds { caller, escrow_id }).after(Facts::none(), 0)
    }

    /// Objects to an active escrow. The caller is the mentor or the learner.
    pub fn dispute(caller: Address, escrow_id: u64) -> (res: Progress)
        ensures
            res@ == (RequestView::Dispute { caller: caller@, escrow_id }).begin(),
            res matches Progress::Waiting(inv) && inv@.call() == crate::script::keep(
                Key::Escrow(escrow_id),
            ),
    {
        (Request::Dispute { caller, escrow_id }).after(Facts::none(), 0)
    }

    /// Pays an active or disputed escrow back to its learner. The admin has to
    /// sign.
    pub fn refund(escrow_id: u64) -> (res: Progress)
        ensures
            res@ == (RequestView::Refund { escrow_id }).begin(),
            res matches Progress::Waiting(inv) && inv@.call() == CallView::Load(Key::Admin),
    {
        (Request::Refund { escrow_id }).after(Facts::none(), 0)
    }

    /// Returns an escrow.
    pub fn get_escrow(escrow_id: u64) -> (res: Progress)
        ensures
            res@ == (RequestView::GetEscrow { escrow_id }).begin(),
            res matches Progress::Waiting(inv) && inv@.call() == crate::script::keep(
                Key::Escrow(escrow_id),
            ),
    {
        (Request::GetEscrow { escrow_id }).after(Facts::none(), 0)
    }

    /// Returns how many escrows were created.
    pub fn get_escrow_count() -> (res: Progress)
        ensures
            res@ == RequestView::GetEscrowCount.begin(),
            res matches Progress::Waiting(inv) && inv@.call() == crate::script::keep(
                Key::EscrowCount,
            ),
    {
        Request::GetEscrowCount.after(Facts::none(), 0)
    }
}

} // verus!
