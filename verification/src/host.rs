//! The calls that the contract makes to its ledger host, and their replies.

use crate::types::{texts, Address, Escrow, EscrowView};
use vstd::prelude::*;

verus! {

/// The entries of the contract's persistent storage.
#[derive(Clone, Copy, Debug, PartialEq, Eq, Structural)]
pub enum Key {
    /// The admin's address.
    Admin,
    /// The tokens that may be locked.
    ApprovedTokens,
    /// How many escrows were created.
    EscrowCount,
    /// The escrow of that number.
    Escrow(u64),
}

impl Key {
    /// The symbol that the entry is stored under.
    pub open spec fn spec_symbol(self) -> Seq<char> {
        match self {
            Key::Admin => "ADMIN"@,
            Key::ApprovedTokens => "APR_TOKS"@,
            Key::EscrowCount => "ESC_CNT"@,
            Key::Escrow(_) => "ESCROW"@,
        }
    }

    /// The symbol that the entry is stored under. An escrow is stored under
    /// the pair of this symbol and its number.
    pub fn symbol(&self) -> (res: &'static str)
        ensures
            res@ == self.spec_symbol(),
    {
        match self {
            Key::Admin => "ADMIN",
            Key::ApprovedTokens => "APR_TOKS",
            Key::EscrowCount => "ESC_CNT",
            Key::Escrow(_) => "ESCROW",
        }
    }
}

/// What a storage entry holds.
#[derive(Clone, Debug)]
pub enum Record {
    Address(Address),
    Tokens(Vec<Address>),
    Count(u64),
    Escrow(Escrow),
}

/// The contents of a `Record`.
pub enum RecordView {
    Address(Seq<char>),
    Tokens(Seq<Seq<char>>),
    Count(u64),
    Escrow(EscrowView),
}

impl View for Record {
    type V = RecordView;

    open spec fn view(&self) -> RecordView {
        match self {
            Record::Address(a) => RecordView::Address(a@),
            Record::Tokens(t) => RecordView::Tokens(texts(t@)),
            Record::Count(n) => RecordView::Count(*n),
            Record::Escrow(e) => RecordView::Escrow(e@),
        }
    }
}

impl RecordView {
    /// Whether the record is of the kind that `key` stores.
    pub open spec fn fits(self, key: Key) -> bool {
        match key {
            Key::Admin => self is Address,
            Key::ApprovedTokens => self is Tokens,
            Key::EscrowCount => self is Count,
            Key::Escrow(_) => self is Escrow,
        }
    }
}

impl Record {
    /// Tells whether the record is of the kind that `key` stores.
    pub fn fits(&self, key: &Key) -> (res: bool)
        ensures
            res == self@.fits(*key),
    {
        match (key, self) {
            (Key::Admin, Record::Address(_)) => true,
            (Key::ApprovedTokens, Record::Tokens(_)) => true,
            (Key::EscrowCount, Record::Count(_)) => true,
            (Key::Escrow(_), Record::Escrow(_)) => true,
            _ => false,
        }
    }
}

/// A side of a token transfer.
#[derive(Clone, Debug)]
pub enum Party {
    /// The contract itself.
    ThisContract,
    Holder(Address),
}

/// The contents of a `Party`.
pub enum PartyView {
    ThisContract,
    Holder(Seq<char>),
}

impl View for Party {
    type V = PartyView;

    open spec fn view(&self) -> PartyView {
        match self {
            Party::ThisContract => PartyView::ThisContract,
            Party::Holder(a) => PartyView::Holder(a@),
        }
    }
}

/// What the contract announces.
#[derive(Clone, Debug)]
pub enum Event {
    Created {
        id: u64,
        mentor: Address,
        learner: Address,
        amount: i128,
        session_id: String,
        token_address: Address,
    },
    Released { id: u64, mentor: Address, amount: i128, token_address: Address },
    Disputed { id: u64, token_address: Address },
    Refunded { id: u64, learner: Address, amount: i128, token_address: Address },
}

/// The contents of an `Event`.
pub enum EventView {
    Created {
        id: u64,
        mentor: Seq<char>,
        learner: Seq<char>,
        amount: i128,
        session_id: Seq<char>,
        token_address: Seq<char>,
    },
    Released { id: u64, mentor: Seq<char>, amount: i128, token_address: Seq<char> },
    Disputed { id: u64, token_address: Seq<char> },
    Refunded { id: u64, learner: Seq<char>, amount: i128, token_address: Seq<char> },
}

impl View for Event {
    type V = EventView;

    open spec fn view(&self) -> EventView {
        match self {
            Event::Created { id, mentor, learner, amount, session_id, token_address } =>
                EventView::Created {
                    id: *id,
                    mentor: mentor@,
                    learner: learner@,
                    amount: *amount,
                    session_id: session_id@,
                    token_address: token_address@,
                },
            Event::Released { id, mentor, amount, token_address } => EventView::Released {
                id: *id,
                mentor: mentor@,
                amount: *amount,
                token_address: token_address@,
            },
            Event::Disputed { id, token_address } => EventView::Disputed {
                id: *id,
                token_address: token_address@,
            },
            Event::Refunded { id, learner, amount, token_address } => EventView::Refunded {
                id: *id,
                learner: learner@,
                amount: *amount,
                token_address: token_address@,
            },
        }
    }
}

/// One item of an event's data.
#[derive(Clone, Debug)]
pub enum Datum {
    Address(Address),
    Amount(i128),
    Session(String),
    EscrowId(u64),
}

/// The contents of a `Datum`.
pub enum DatumView {
    Address(Seq<char>),
    Amount(i128),
    Session(Seq<char>),
    EscrowId(u64),
}

impl View for Datum {
    type V = DatumView;

    open spec fn view(&self) -> DatumView {
        match self {
            Datum::Address(a) => DatumView::Address(a@),
            Datum::Amount(n) => DatumView::Amount(*n),
            Datum::Session(s) => DatumView::Session(s@),
            Datum::EscrowId(id) => DatumView::EscrowId(*id),
        }
    }
}

impl EventView {
    /// The items of the event's data, in the order in which they are announced.
    pub open spec fn data(self) -> Seq<DatumView> {
        match self {
            EventView::Created { mentor, learner, amount, session_id, token_address, .. } => seq![
                DatumView::Address(mentor),
                DatumView::Address(learner),
                DatumView::Amount(amount),
                DatumView::Session(session_id),
                DatumView::Address(token_address),
            ],
            EventView::Released { mentor, amount, token_address, .. } => seq![
                DatumView::Address(mentor),
                DatumView::Amount(amount),
                DatumView::Address(token_address),
            ],
            EventView::Disputed { id, token_address } => seq![
                DatumView::EscrowId(id),
                DatumView::Address(token_address),
            ],
            EventView::Refunded { learner, amount, token_address, .. } => seq![
                DatumView::Address(learner),
                DatumView::Amount(amount),
                DatumView::Address(token_address),
            ],
        }
    }

    /// The first topic of the event; the second is the escrow's number.
    pub open spec fn topic(self) -> Seq<char> {
        match self {
            EventView::Created { .. } => "created"@,
            EventView::Released { .. } => "released"@,
            EventView::Disputed { .. } => "disputed"@,
            EventView::Refunded { .. } => "refunded"@,
        }
    }

    /// The number of the escrow that the event is about.
    pub open spec fn escrow_id(self) -> u64 {
        match self {
            EventView::Created { id, .. } => id,
            EventView::Released { id, .. } => id,
            EventView::Disputed { id, .. } => id,
            EventView::Refunded { id, .. } => id,
        }
    }

    /// The token that the escrow is in.
    pub open spec fn token(self) -> Seq<char> {
        match self {
            EventView::Created { token_address, .. } => token_address,
            EventView::Released { token_address, .. } => token_address,
            EventView::Disputed { token_address, .. } => token_address,
            EventView::Refunded { token_address, .. } => token_address,
        }
    }
}

impl Event {
    /// The first topic of the event.
    pub fn topic(&self) -> (res: &'static str)
        ensures
            res@ == self@.topic(),
    {
        match self {
            Event::Created { .. } => "created",
            Event::Released { .. } => "released",
            Event::Disputed { .. } => "disputed",
            Event::Refunded { .. } => "refunded",
        }
    }

    /// The second topic of the event: the escrow's number.
    pub fn escrow_id(&self) -> (res: u64)
        ensures
            res == self@.escrow_id(),
    {
        match self {
            Event::Created { id, .. } => *id,
            Event::Released { id, .. } => *id,
            Event::Disputed { id, .. } => *id,
            Event::Refunded { id, .. } => *id,
        }
    }

    /// The items of the event's data, in the order in which they are announced.
    pub fn data(&self) -> (res: Vec<Datum>)
        ensures
            res@.map_values(|d: Datum| d@) == self@.data(),
    {
        let res = match self {
            Event::Created { mentor, learner, amount, session_id, token_address, .. } => vec![
                Datum::Address(mentor.clone()),
                Datum::Address(learner.clone()),
                Datum::Amount(*amount),
                Datum::Session(session_id.clone()),
                Datum::Address(token_address.clone()),
            ],
            Event::Released { mentor, amount, token_address, .. } => vec![
                Datum::Address(mentor.clone()),
                Datum::Amount(*amount),
                Datum::Address(token_address.clone()),
            ],
            Event::Disputed { id, token_address } => vec![
                Datum::EscrowId(*id),
                Datum::Address(token_address.clone()),
            ],
            Event::Refunded { learner, amount, token_address, .. } => vec![
                Datum::Address(learner.clone()),
                Datum::Amount(*amount),
                Datum::Address(token_address.clone()),
            ],
        };
        assert(res@.map_values(|d: Datum| d@) =~= self@.data());
        res
    }
}

/// One call to the host. A host that cannot do what is asked aborts the whole
/// operation instead of replying.
#[derive(Clone, Debug)]
pub enum Call {
    /// Is there an entry? Answered by `Flag`.
    Has(Key),
    /// What does the entry hold? Answered by `Loaded`.
    Load(Key),
    /// Write the entry. Answered by `Done`.
    Store(Key, Record),
    /// Extend the entry's lifetime to `extend_to` ledgers if it is at most
    /// `threshold`. Answered by `Done`; aborts where there is no entry.
    ExtendTtl { key: Key, threshold: u32, extend_to: u32 },
    /// Check that the address signed for this operation. Answered by `Done`;
    /// aborts where it did not.
    RequireAuth(Address),
    /// How much of the token does the holder have? Answered by `Amount`; aborts
    /// where the token does not tell.
    Balance { token: Address, holder: Address },
    /// Move tokens. Answered by `Done`; aborts where the token refuses.
    Transfer { token: Address, from: Party, to: Party, amount: i128 },
    /// What is the time? Answered by `Time`.
    Timestamp,
    /// Announce an event. Answered by `Done`.
    Publish(Event),
}

/// The contents of a `Call`.
pub enum CallView {
    Has(Key),
    Load(Key),
    Store(Key, RecordView),
    ExtendTtl { key: Key, threshold: u32, extend_to: u32 },
    RequireAuth(Seq<char>),
    Balance { token: Seq<char>, holder: Seq<char> },
    Transfer { token: Seq<char>, from: PartyView, to: PartyView, amount: i128 },
    Timestamp,
    Publish(EventView),
}

impl View for Call {
    type V = CallView;

    open spec fn view(&self) -> CallView {
        match self {
            Call::Has(key) => CallView::Has(*key),
            Call::Load(key) => CallView::Load(*key),
            Call::Store(key, record) => CallView::Store(*key, record@),
            Call::ExtendTtl { key, threshold, extend_to } => CallView::ExtendTtl {
                key: *key,
                threshold: *threshold,
                extend_to: *extend_to,
            },
            Call::RequireAuth(who) => CallView::RequireAuth(who@),
            Call::Balance { token, holder } => CallView::Balance {
                token: token@,
                holder: holder@,
            },
            Call::Transfer { token, from, to, amount } => CallView::Transfer {
                token: token@,
                from: from@,
                to: to@,
                amount: *amount,
            },
            Call::Timestamp => CallView::Timestamp,
            Call::Publish(event) => CallView::Publish(event@),
        }
    }
}

/// The host's answer to a call.
#[derive(Clone, Debug)]
pub enum Reply {
    Done,
    Flag(bool),
    Loaded(Option<Record>),
    Amount(i128),
    Time(u64),
}

/// The contents of a `Reply`.
pub enum ReplyView {
    Done,
    Flag(bool),
    Loaded(Option<RecordView>),
    Amount(i128),
    Time(u64),
}

impl View for Reply {
    type V = ReplyView;

    open spec fn view(&self) -> ReplyView {
        match self {
            Reply::Done => ReplyView::Done,
            Reply::Flag(b) => ReplyView::Flag(*b),
            Reply::Loaded(None) => ReplyView::Loaded(None),
            Reply::Loaded(Some(r)) => ReplyView::Loaded(Some(r@)),
            Reply::Amount(n) => ReplyView::Amount(*n),
            Reply::Time(t) => ReplyView::Time(*t),
        }
    }
}

impl CallView {
    /// Whether `reply` is an answer to this call.
    pub open spec fn admits(self, reply: ReplyView) -> bool {
        match self {
            CallView::Has(_) => reply is Flag,
            CallView::Load(key) => match reply {
                ReplyView::Loaded(None) => true,
                ReplyView::Loaded(Some(r)) => r.fits(key),
                _ => false,
            },
            CallView::Store(_, _) => reply is Done,
            CallView::ExtendTtl { .. } => reply is Done,
            CallView::RequireAuth(_) => reply is Done,
            CallView::Balance { .. } => reply is Amount,
            CallView::Transfer { .. } => reply is Done,
            CallView::Timestamp => reply is Time,
            CallView::Publish(_) => reply is Done,
        }
    }

    /// Whether the call changes storage entries or balances, or is announced.
    pub open spec fn is_effect(self) -> bool {
        self is Store || self is Transfer || self is Publish
    }

    /// Whether the call reads or writes the entry `key`.
    pub open spec fn touches(self, key: Key) -> bool {
        match self {
            CallView::Has(k) => k == key,
            CallView::Load(k) => k == key,
            CallView::Store(k, _) => k == key,
            _ => false,
        }
    }
}

impl Call {
    /// Tells whether `reply` is an answer to this call.
    pub fn admits(&self, reply: &Reply) -> (res: bool)
        ensures
            res == self@.admits(reply@),
    {
        match (self, reply) {
            (Call::Has(_), Reply::Flag(_)) => true,
            (Call::Load(_), Reply::Loaded(None)) => true,
            (Call::Load(key), Reply::Loaded(Some(record))) => record.fits(key),
            (Call::Store(_, _), Reply::Done) => true,
            (Call::ExtendTtl { .. }, Reply::Done) => true,
            (Call::RequireAuth(_), Reply::Done) => true,
            (Call::Balance { .. }, Reply::Amount(_)) => true,
            (Call::Transfer { .. }, Reply::Done) => true,
            (Call::Timestamp, Reply::Time(_)) => true,
            (Call::Publish(_), Reply::Done) => true,
            _ => false,
        }
    }
}

} // verus!
