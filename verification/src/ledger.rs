//! A model of the ledger host, and what it means to run an operation on it.

use crate::host::{CallView, EventView, Key, PartyView, RecordView, ReplyView};
use crate::script::{OutputView, ProgressView, RequestView};
use crate::types::{EscrowError, EscrowView};
use vstd::prelude::*;

verus! {

/// What the host holds while one operation runs.
///
/// Tokens are modelled as ordinary ones: a transfer takes the amount from what
/// the sender has and adds it to what the receiver has. A token whose issuer
/// pays without its balance falling, or that keeps a fee, is not modelled; a
/// token that turns down a transfer, or does not tell a balance, is.
pub struct Ledger {
    /// The contract's own address.
    pub this: Seq<char>,
    /// The contract's persistent storage.
    pub storage: Map<Key, RecordView>,
    /// What each holder has of each token, by token and holder. A missing pair
    /// has nothing.
    pub balances: Map<(Seq<char>, Seq<char>), i128>,
    /// The transfers, by token, sender, receiver and amount, that the token
    /// refuses for reasons of its own.
    pub barred: Set<(Seq<char>, Seq<char>, Seq<char>, i128)>,
    /// The balances, by token and holder, that the token does not tell.
    pub untold: Set<(Seq<char>, Seq<char>)>,
    /// The addresses that signed for the operation.
    pub signers: Set<Seq<char>>,
    /// The time of the operation.
    pub now: u64,
    /// What the contract has announced, oldest first.
    pub events: Seq<EventView>,
}

/// How an operation ends.
pub enum Outcome {
    /// The operation took effect.
    Committed(Ledger, OutputView),
    /// The contract refused the operation.
    Refused(EscrowError),
    /// The host aborted the operation: a signature or an entry was missing, or
    /// a token did not move or did not tell a balance.
    Aborted,
}

impl Ledger {
    /// What `holder` has of `token`.
    pub open spec fn balance(self, token: Seq<char>, holder: Seq<char>) -> i128 {
        if self.balances.contains_key((token, holder)) {
            self.balances[(token, holder)]
        } else {
            0
        }
    }

    /// The address of a party.
    pub open spec fn address(self, party: PartyView) -> Seq<char> {
        match party {
            PartyView::ThisContract => self.this,
            PartyView::Holder(a) => a,
        }
    }

    /// Whether the token makes the transfer: the sender has the amount, the
    /// receiver has room for it, and the token does not bar it.
    pub open spec fn can_move(
        self,
        token: Seq<char>,
        from: Seq<char>,
        to: Seq<char>,
        amount: i128,
    ) -> bool {
        &&& 0 <= amount <= self.balance(token, from)
        &&& from != to ==> self.balance(token, to) + amount <= i128::MAX
        &&& !self.barred.contains((token, from, to, amount))
    }

    /// The ledger after a transfer.
    pub open spec fn moved(
        self,
        token: Seq<char>,
        from: Seq<char>,
        to: Seq<char>,
        amount: i128,
    ) -> Ledger {
        if from == to {
            self
        } else {
            Ledger {
                balances: self.balances.insert(
                    (token, from),
                    (self.balance(token, from) - amount) as i128,
                ).insert((token, to), (self.balance(token, to) + amount) as i128),
                ..self
            }
        }
    }

    /// The ledger after an entry was written.
    pub open spec fn stored(self, key: Key, record: RecordView) -> Ledger {
        Ledger { storage: self.storage.insert(key, record), ..self }
    }

    /// The ledger after an event was announced.
    pub open spec fn announced(self, event: EventView) -> Ledger {
        Ledger { events: self.events.push(event), ..self }
    }

    /// Does what `call` asks: the ledger afterwards and the reply, or none
    /// where the host aborts. Lifetimes of entries are not modelled, except
    /// that a missing entry's cannot be extended.
    pub open spec fn perform(self, call: CallView) -> Option<(Ledger, ReplyView)> {
        match call {
            CallView::Has(key) => Some((self, ReplyView::Flag(self.storage.contains_key(key)))),
            CallView::Load(key) => Some((self, ReplyView::Loaded(self.storage.get(key)))),
            CallView::Store(key, record) => Some((self.stored(key, record), ReplyView::Done)),
            CallView::ExtendTtl { key, .. } => if self.storage.contains_key(key) {
                Some((self, ReplyView::Done))
            } else {
                None
            },
            CallView::RequireAuth(who) => if self.signers.contains(who) {
                Some((self, ReplyView::Done))
            } else {
                None
            },
            CallView::Balance { token, holder } => if self.untold.contains((token, holder)) {
                None
            } else {
                Some((self, ReplyView::Amount(self.balance(token, holder))))
            },
            CallView::Transfer { token, from, to, amount } => if self.can_move(
                token,
                self.address(from),
                self.address(to),
                amount,
            ) {
                Some(
                    (
                        self.moved(token, self.address(from), self.address(to), amount),
                        ReplyView::Done,
                    ),
                )
            } else {
                None
            },
            CallView::Timestamp => Some((self, ReplyView::Time(self.now))),
            CallView::Publish(event) => Some((self.announced(event), ReplyView::Done)),
        }
    }

    /// Answers the calls of an operation until it ends.
    #[verifier::opaque]
    pub open spec fn run(self, progress: ProgressView) -> Outcome
        decreases progress.remaining(),
    {
        match progress {
            ProgressView::Finished(Ok(output)) => Outcome::Committed(self, output),
            ProgressView::Finished(Err(error)) => Outcome::Refused(error),
            ProgressView::Waiting(inv) => match self.perform(inv.call()) {
                Some((next, reply)) if inv.done < inv.request.length() => next.run(
                    inv.resume(reply),
                ),
                _ => Outcome::Aborted,
            },
        }
    }

    /// How an operation ends on this ledger.
    pub open spec fn outcome(self, request: RequestView) -> Outcome {
        self.run(request.begin())
    }

    /// The ledger once the operation is over. Only a committed operation
    /// leaves a trace.
    pub open spec fn next(self, request: RequestView) -> Ledger {
        match self.outcome(request) {
            Outcome::Committed(ledger, _) => ledger,
            _ => self,
        }
    }

    /// Every entry holds a record of its kind.
    pub open spec fn typed(self) -> bool {
        forall|key: Key| #[trigger]
            self.storage.contains_key(key) ==> self.storage[key].fits(key)
    }

    /// Whether the contract was initialized.
    pub open spec fn is_initialized(self) -> bool {
        self.storage.contains_key(Key::Admin)
    }

    /// The admin of an initialized contract.
    pub open spec fn admin(self) -> Seq<char> {
        self.storage[Key::Admin]->Address_0
    }

    /// The approved tokens of an initialized contract.
    pub open spec fn approved(self) -> Seq<Seq<char>> {
        self.storage[Key::ApprovedTokens]->Tokens_0
    }

    /// How many escrows were created.
    pub open spec fn count(self) -> u64 {
        if self.storage.contains_key(Key::EscrowCount) {
            self.storage[Key::EscrowCount]->Count_0
        } else {
            0
        }
    }

    /// Whether there is an escrow of that number.
    pub open spec fn has_escrow(self, id: u64) -> bool {
        self.storage.contains_key(Key::Escrow(id))
    }

    /// The escrow of that number.
    pub open spec fn escrow(self, id: u64) -> EscrowView {
        self.storage[Key::Escrow(id)]->Escrow_0
    }
}

impl ProgressView {
    /// How many calls are still to be made, at most.
    pub open spec fn remaining(self) -> nat {
        match self {
            ProgressView::Waiting(inv) => if inv.done < inv.request.length() {
                (inv.request.length() - inv.done) as nat
            } else {
                0
            },
            ProgressView::Finished(_) => 0,
        }
    }
}

} // verus!
