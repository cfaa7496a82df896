//! The models of the library's values leave nothing out and add nothing, and
//! what is written down of them is the same for all values.

use crate::contract::{Invocation, Output, Progress};
use crate::host::{
    Call, CallView, Datum, DatumView, Event, EventView, Key, Party, PartyView, Record, RecordView,
    Reply, ReplyView,
};
use crate::ledger::Ledger;
use crate::script::{OutputView, ProgressView};
use crate::types::{texts, Address, Escrow, EscrowError, EscrowStatus, EscrowView};
use vstd::prelude::*;
use vstd::std_specs::cmp::PartialEqSpec;

verus! {

// Values and their models.

/// An address is its whole text.
pub proof fn address_is_its_text(address: Address)
    ensures
        address@ == address.strkey@,
{
}

/// Two addresses are the same exactly when their whole texts are.
pub proof fn addresses_are_compared_by_text(a: Address, b: Address)
    ensures
        <Address as PartialEqSpec>::obeys_eq_spec(),
        a.eq_spec(&b) <==> a.strkey@ == b.strkey@,
{
}

/// A list of addresses is modelled address by address.
pub proof fn list_keeps_every_address(list: Seq<Address>, k: int)
    requires
        0 <= k < list.len(),
    ensures
        texts(list).len() == list.len(),
        texts(list)[k] == list[k].strkey@,
{
}

/// An escrow is modelled field by field.
pub proof fn escrow_keeps_every_field(escrow: Escrow)
    ensures
        escrow@.id == escrow.id,
        escrow@.mentor == escrow.mentor.strkey@,
        escrow@.learner == escrow.learner.strkey@,
        escrow@.amount == escrow.amount,
        escrow@.session_id == escrow.session_id@,
        escrow@.status == escrow.status,
        escrow@.created_at == escrow.created_at,
        escrow@.token_address == escrow.token_address.strkey@,
{
}

/// Changing an escrow's status changes that status and no other field.
pub proof fn status_is_all_that_changes(escrow: EscrowView, status: EscrowStatus)
    ensures
        ({
            let changed = escrow.with_status(status);
            &&& changed.status == status
            &&& changed.id == escrow.id
            &&& changed.mentor == escrow.mentor
            &&& changed.learner == escrow.learner
            &&& changed.amount == escrow.amount
            &&& changed.session_id == escrow.session_id
            &&& changed.created_at == escrow.created_at
            &&& changed.token_address == escrow.token_address
        }),
{
}

/// The tokens are held exactly while the escrow is active or disputed.
pub proof fn held_until_paid(escrow: EscrowView)
    ensures
        escrow.is_held() <==> escrow.status != EscrowStatus::Released && escrow.status
            != EscrowStatus::Refunded,
{
}

/// A record is modelled by its kind and its whole contents.
pub proof fn record_keeps_its_contents(
    address: Address,
    tokens: Vec<Address>,
    count: u64,
    escrow: Escrow,
)
    ensures
        Record::Address(address)@ == RecordView::Address(address@),
        Record::Tokens(tokens)@ == RecordView::Tokens(texts(tokens@)),
        Record::Count(count)@ == RecordView::Count(count),
        Record::Escrow(escrow)@ == RecordView::Escrow(escrow@),
{
}

/// The sides of a transfer are modelled as they are.
pub proof fn party_keeps_its_address(address: Address)
    ensures
        Party::ThisContract@ == PartyView::ThisContract,
        Party::Holder(address)@ == PartyView::Holder(address@),
{
}

/// A host call is modelled by its kind and all its arguments.
pub proof fn call_keeps_its_arguments(
    key: Key,
    record: Record,
    threshold: u32,
    extend_to: u32,
    token: Address,
    holder: Address,
    from: Party,
    to: Party,
    amount: i128,
    event: Event,
)
    ensures
        Call::Has(key)@ == CallView::Has(key),
        Call::Load(key)@ == CallView::Load(key),
        Call::Store(key, record)@ == CallView::Store(key, record@),
        (Call::ExtendTtl { key, threshold, extend_to })@ == (CallView::ExtendTtl {
            key,
            threshold,
            extend_to,
        }),
        Call::RequireAuth(holder)@ == CallView::RequireAuth(holder@),
        (Call::Balance { token, holder })@ == (CallView::Balance {
            token: token@,
            holder: holder@,
        }),
        (Call::Transfer { token, from, to, amount })@ == (CallView::Transfer {
            token: token@,
            from: from@,
            to: to@,
            amount,
        }),
        Call::Timestamp@ == CallView::Timestamp,
        Call::Publish(event)@ == CallView::Publish(event@),
{
}

/// A reply is modelled by its kind and what it carries.
pub proof fn reply_keeps_its_contents(flag: bool, record: Record, amount: i128, time: u64)
    ensures
        Reply::Done@ == ReplyView::Done,
        Reply::Flag(flag)@ == ReplyView::Flag(flag),
        Reply::Loaded(None)@ == ReplyView::Loaded(None),
        Reply::Loaded(Some(record))@ == ReplyView::Loaded(Some(record@)),
        Reply::Amount(amount)@ == ReplyView::Amount(amount),
        Reply::Time(time)@ == ReplyView::Time(time),
{
}

/// What an operation returns, and where it stands, is modelled as it is.
pub proof fn end_keeps_its_contents(
    id: u64,
    escrow: Escrow,
    invocation: Invocation,
    output: Output,
    error: EscrowError,
)
    ensures
        Output::Nothing@ == OutputView::Nothing,
        Output::EscrowId(id)@ == OutputView::EscrowId(id),
        Output::Escrow(escrow)@ == OutputView::Escrow(escrow@),
        Output::Count(id)@ == OutputView::Count(id),
        Progress::Waiting(invocation)@ == ProgressView::Waiting(invocation@),
        Progress::Finished(Ok(output))@ == ProgressView::Finished(Ok(output@)),
        Progress::Finished(Err(error))@ == ProgressView::Finished(Err(error)),
{
}

/// An event is modelled by its kind and all its fields.
pub proof fn event_keeps_its_fields(
    id: u64,
    mentor: Address,
    learner: Address,
    amount: i128,
    session_id: String,
    token_address: Address,
)
    ensures
        (Event::Created { id, mentor, learner, amount, session_id, token_address })@
            == (EventView::Created {
            id,
            mentor: mentor@,
            learner: learner@,
            amount,
            session_id: session_id@,
            token_address: token_address@,
        }),
        (Event::Released { id, mentor, amount, token_address })@ == (EventView::Released {
            id,
            mentor: mentor@,
            amount,
            token_address: token_address@,
        }),
        (Event::Disputed { id, token_address })@ == (EventView::Disputed {
            id,
            token_address: token_address@,
        }),
        (Event::Refunded { id, learner, amount, token_address })@ == (EventView::Refunded {
            id,
            learner: learner@,
            amount,
            token_address: token_address@,
        }),
{
}

/// An item of an event's data is modelled as it is.
pub proof fn datum_keeps_its_contents(address: Address, amount: i128, session: String, id: u64)
    ensures
        Datum::Address(address)@ == DatumView::Address(address@),
        Datum::Amount(amount)@ == DatumView::Amount(amount),
        Datum::Session(session)@ == DatumView::Session(session@),
        Datum::EscrowId(id)@ == DatumView::EscrowId(id),
{
}

// Names and data.

/// Every escrow is stored under one symbol, and the other entries under
/// symbols of their own: two entries share a symbol only if both are escrows.
pub proof fn symbols_tell_entries_apart(a: Key, b: Key, id: u64)
    ensures
        Key::Escrow(id).spec_symbol() == "ESCROW"@,
        a.spec_symbol() == b.spec_symbol() <==> a == b || (a is Escrow && b is Escrow),
{
    reveal_strlit("ADMIN");
    reveal_strlit("APR_TOKS");
    reveal_strlit("ESC_CNT");
    reveal_strlit("ESCROW");
    assert("ADMIN"@[0] == 'A' && "APR_TOKS"@[1] == 'P' && "ADMIN"@[1] == 'D');
    assert("ESC_CNT"@.len() == 7 && "ESCROW"@.len() == 6 && "ADMIN"@.len() == 5);
    assert("APR_TOKS"@.len() == 8);
}

/// Two errors share a message only if they are the same.
pub proof fn messages_tell_errors_apart(a: EscrowError, b: EscrowError)
    ensures
        a.spec_message() == b.spec_message() <==> a == b,
{
    reveal_strlit("Already initialized");
    reveal_strlit("Amount must be greater than zero");
    reveal_strlit("Approved tokens not set");
    reveal_strlit("Token not approved; must be XLM, USDC, or PYUSD");
    reveal_strlit("Insufficient token balance");
    reveal_strlit("attempt to add with overflow");
    reveal_strlit("Escrow not found");
    reveal_strlit("Escrow not active");
    reveal_strlit("Admin not found");
    reveal_strlit("Caller not authorized");
    reveal_strlit("Caller not authorized to dispute");
    reveal_strlit("Cannot refund");
    assert("Already initialized"@.len() == 19 && "Approved tokens not set"@.len() == 23);
    assert("Amount must be greater than zero"@.len() == 32);
    assert("Token not approved; must be XLM, USDC, or PYUSD"@.len() == 47);
    assert("Insufficient token balance"@.len() == 26);
    assert("attempt to add with overflow"@.len() == 28);
    assert("Escrow not found"@.len() == 16 && "Escrow not active"@.len() == 17);
    assert("Admin not found"@.len() == 15 && "Caller not authorized"@.len() == 21);
    assert("Caller not authorized to dispute"@.len() == 32 && "Cannot refund"@.len() == 13);
    assert("Caller not authorized to dispute"@[0] == 'C');
    assert("Amount must be greater than zero"@[0] == 'A');
}

/// A creation is announced under its topic and number, with the mentor, the
/// learner, the amount, the session and the token, in that order.
pub proof fn creation_announces_all(
    id: u64,
    mentor: Seq<char>,
    learner: Seq<char>,
    amount: i128,
    session_id: Seq<char>,
    token_address: Seq<char>,
)
    ensures
        ({
            let event = EventView::Created {
                id,
                mentor,
                learner,
                amount,
                session_id,
                token_address,
            };
            &&& event.topic() == "created"@
            &&& event.escrow_id() == id
            &&& event.token() == token_address
            &&& event.data().len() == 5
            &&& event.data()[0] == DatumView::Address(mentor)
            &&& event.data()[1] == DatumView::Address(learner)
            &&& event.data()[2] == DatumView::Amount(amount)
            &&& event.data()[3] == DatumView::Session(session_id)
            &&& event.data()[4] == DatumView::Address(token_address)
        }),
{
}

/// A release is announced with the mentor, the amount and the token, and a
/// refund with the learner, the amount and the token, in that order.
pub proof fn payment_announces_all(
    id: u64,
    to: Seq<char>,
    amount: i128,
    token_address: Seq<char>,
)
    ensures
        ({
            let released = EventView::Released { id, mentor: to, amount, token_address };
            let refunded = EventView::Refunded { id, learner: to, amount, token_address };
            &&& released.topic() == "released"@
            &&& refunded.topic() == "refunded"@
            &&& released.escrow_id() == id
            &&& refunded.escrow_id() == id
            &&& released.token() == token_address
            &&& refunded.token() == token_address
            &&& released.data() == refunded.data()
            &&& released.data().len() == 3
            &&& released.data()[0] == DatumView::Address(to)
            &&& released.data()[1] == DatumView::Amount(amount)
            &&& released.data()[2] == DatumView::Address(token_address)
        }),
{
}

/// A dispute is announced with the escrow's number and the token, in that
/// order.
pub proof fn dispute_announces_all(id: u64, token_address: Seq<char>)
    ensures
        ({
            let event = EventView::Disputed { id, token_address };
            &&& event.topic() == "disputed"@
            &&& event.escrow_id() == id
            &&& event.token() == token_address
            &&& event.data().len() == 2
            &&& event.data()[0] == DatumView::EscrowId(id)
            &&& event.data()[1] == DatumView::Address(token_address)
        }),
{
}

// Calls and replies.

/// An entry takes every record of its kind, whatever it holds, and no other.
pub proof fn entries_take_their_kind(key: Key, record: RecordView)
    ensures
        record.fits(key) <==> {
            ||| key == Key::Admin && record is Address
            ||| key == Key::ApprovedTokens && record is Tokens
            ||| key == Key::EscrowCount && record is Count
            ||| key is Escrow && record is Escrow
        },
{
}

/// Storage is well typed exactly when every entry holds a record of its kind.
pub proof fn typed_storage_holds_its_kinds(ledger: Ledger)
    ensures
        ledger.typed() <==> forall|key: Key| #[trigger]
            ledger.storage.contains_key(key) ==> match key {
                Key::Admin => ledger.storage[key] is Address,
                Key::ApprovedTokens => ledger.storage[key] is Tokens,
                Key::EscrowCount => ledger.storage[key] is Count,
                Key::Escrow(_) => ledger.storage[key] is Escrow,
            },
{
}

/// Whatever the host replies to a call that it carries out is an answer to that
/// call, so an operation can go on after it.
pub proof fn host_replies_are_answers(ledger: Ledger, call: CallView)
    requires
        ledger.typed(),
    ensures
        ledger.perform(call) matches Some((_, reply)) ==> call.admits(reply),
{
}

/// What is an answer depends on the kinds alone: a question is answered by any
/// value of its kind, a command by `Done`, and by nothing else.
pub proof fn answers_go_by_kind(call: CallView, reply: ReplyView)
    ensures
        call is Has ==> (call.admits(reply) <==> reply is Flag),
        call is Balance ==> (call.admits(reply) <==> reply is Amount),
        call is Timestamp ==> (call.admits(reply) <==> reply is Time),
        call is Store || call is ExtendTtl || call is RequireAuth || call is Transfer
            || call is Publish ==> (call.admits(reply) <==> reply is Done),
        call matches CallView::Load(key) ==> (call.admits(reply) <==> {
            ||| reply == ReplyView::Loaded(None)
            ||| reply matches ReplyView::Loaded(Some(record)) && match key {
                Key::Admin => record is Address,
                Key::ApprovedTokens => record is Tokens,
                Key::EscrowCount => record is Count,
                Key::Escrow(_) => record is Escrow,
            }
        }),
{
}

} // verus!
