//! The contract's storage always makes sense, and the contract always holds
//! the tokens that it owes.

use crate::effects::{outcome_is_expected, typed_stays};
use crate::host::Key;
use crate::ledger::Ledger;
use crate::script::RequestView;
use vstd::prelude::*;

verus! {

impl Ledger {
    /// The escrows are numbered from 1 to the count.
    pub open spec fn numbered(self) -> bool {
        forall|id: u64| #[trigger] self.has_escrow(id) <==> 1 <= id <= self.count()
    }

    /// The storage makes sense: the admin, the approved tokens and the count
    /// are there together or not at all; the escrows are numbered from 1 to
    /// the count; and each has its own number and a positive amount of an
    /// approved token.
    pub open spec fn consistent(self) -> bool {
        &&& self.typed()
        &&& self.numbered()
        &&& self.is_initialized() <==> self.storage.contains_key(Key::ApprovedTokens)
        &&& self.is_initialized() <==> self.storage.contains_key(Key::EscrowCount)
        &&& forall|id: u64| #[trigger]
            self.has_escrow(id) ==> {
                &&& self.escrow(id).id == id
                &&& self.escrow(id).amount > 0
                &&& self.approved().contains(self.escrow(id).token_address)
            }
    }

    /// No escrow has the contract itself as its learner.
    pub open spec fn outside_learners(self) -> bool {
        forall|id: u64| #[trigger] self.has_escrow(id) ==> self.escrow(id).learner != self.this
    }

    /// What the contract owes of `token` for the escrow `id`.
    pub open spec fn held(self, id: u64, token: Seq<char>) -> int {
        if self.has_escrow(id) && self.escrow(id).token_address == token && self.escrow(
            id,
        ).is_held() {
            self.escrow(id).amount as int
        } else {
            0
        }
    }

    /// What the contract owes of `token` for the first `n` escrows.
    pub open spec fn owed(self, token: Seq<char>, n: nat) -> int
        decreases n,
    {
        if n == 0 {
            0
        } else {
            self.owed(token, (n - 1) as nat) + self.held(n as u64, token)
        }
    }

    /// The contract has what it owes, of every token.
    pub open spec fn solvent(self) -> bool {
        forall|token: Seq<char>| #[trigger]
            self.owed(token, self.count() as nat) <= self.balance(token, self.this)
    }

    /// The operation does not ask the contract to lock its own tokens.
    pub open spec fn funded_from_outside(self, request: RequestView) -> bool {
        request is CreateEscrow ==> request->learner != self.this
    }
}

/// What is owed depends on the escrows alone.
pub proof fn owed_is_determined(a: Ledger, b: Ledger, token: Seq<char>, n: nat)
    requires
        n <= u64::MAX,
        forall|id: u64| 1 <= id <= n ==> #[trigger] a.held(id, token) == b.held(id, token),
    ensures
        a.owed(token, n) == b.owed(token, n),
    decreases n,
{
    if n > 0 {
        owed_is_determined(a, b, token, (n - 1) as nat);
        assert(a.held(n as u64, token) == b.held(n as u64, token));
    }
}

/// Changing one escrow changes what is owed by what that escrow counts for.
pub proof fn owed_changes_with_one(a: Ledger, b: Ledger, token: Seq<char>, changed: u64, n: nat)
    requires
        1 <= changed <= n <= u64::MAX,
        forall|id: u64|
            1 <= id <= n && id != changed ==> #[trigger] a.held(id, token) == b.held(id, token),
    ensures
        b.owed(token, n) == a.owed(token, n) - a.held(changed, token) + b.held(changed, token),
    decreases n,
{
    if n == changed {
        owed_is_determined(a, b, token, (n - 1) as nat);
    } else {
        owed_changes_with_one(a, b, token, changed, (n - 1) as nat);
        assert(a.held(n as u64, token) == b.held(n as u64, token));
    }
}

/// No escrow counts for more than what is owed in all.
pub proof fn owed_covers_each(ledger: Ledger, token: Seq<char>, id: u64, n: nat)
    requires
        ledger.consistent(),
        1 <= id <= n <= u64::MAX,
    ensures
        0 <= ledger.held(id, token) <= ledger.owed(token, n),
    decreases n,
{
    if n > id {
        owed_covers_each(ledger, token, id, (n - 1) as nat);
        assert(ledger.held(n as u64, token) >= 0);
    } else {
        owed_is_not_negative(ledger, token, (n - 1) as nat);
    }
}

/// Nothing negative is owed.
pub proof fn owed_is_not_negative(ledger: Ledger, token: Seq<char>, n: nat)
    requires
        ledger.consistent(),
        n <= u64::MAX,
    ensures
        0 <= ledger.owed(token, n),
    decreases n,
{
    if n > 0 {
        owed_is_not_negative(ledger, token, (n - 1) as nat);
        assert(ledger.held(n as u64, token) >= 0);
    }
}

/// Every operation on an initialized contract, however it ends, leaves the
/// escrows numbered and does not lower the count.
pub proof fn numbers_stay(ledger: Ledger, request: RequestView)
    requires
        ledger.typed(),
        ledger.is_initialized(),
        ledger.numbered(),
    ensures
        ledger.next(request).is_initialized(),
        ledger.next(request).numbered(),
        ledger.next(request).count() >= ledger.count(),
{
    outcome_is_expected(ledger, request);
    let next = ledger.next(request);
    assert forall|id: u64| #[trigger] next.has_escrow(id) <==> 1 <= id <= next.count() by {
        assert(ledger.has_escrow(id) <==> 1 <= id <= ledger.count());
    }
}

/// Every operation, however it ends, leaves a consistent storage consistent,
/// whoever signed for it.
pub proof fn storage_stays_consistent(ledger: Ledger, request: RequestView)
    requires
        ledger.consistent(),
    ensures
        ledger.next(request).consistent(),
        ledger.next(request).this == ledger.this,
{
    outcome_is_expected(ledger, request);
    typed_stays(ledger, request);
    let next = ledger.next(request);
    assert forall|id: u64| #[trigger] next.has_escrow(id) <==> 1 <= id <= next.count() by {
        assert(ledger.has_escrow(id) <==> 1 <= id <= ledger.count());
    }
    assert forall|id: u64| #[trigger] next.has_escrow(id) implies {
        &&& next.escrow(id).id == id
        &&& next.escrow(id).amount > 0
        &&& next.approved().contains(next.escrow(id).token_address)
    } by {
        assert(ledger.has_escrow(id) <==> 1 <= id <= ledger.count());
    }
}

/// Where the contract is not asked to lock its own tokens, the learners stay
/// others than the contract.
pub proof fn learners_stay_outside(ledger: Ledger, request: RequestView)
    requires
        ledger.typed(),
        ledger.outside_learners(),
        ledger.funded_from_outside(request),
    ensures
        ledger.next(request).outside_learners(),
{
    outcome_is_expected(ledger, request);
    let next = ledger.next(request);
    assert forall|id: u64| #[trigger] next.has_escrow(id) implies next.escrow(id).learner
        != next.this by {
        assert(ledger.has_escrow(id) ==> ledger.escrow(id).learner != ledger.this);
    }
}

/// Every operation that does not ask the contract to lock its own tokens,
/// however it ends, leaves the contract able to pay what it owes.
pub proof fn contract_stays_solvent(ledger: Ledger, request: RequestView)
    requires
        ledger.consistent(),
        ledger.solvent(),
        ledger.funded_from_outside(request),
    ensures
        ledger.next(request).solvent(),
{
    outcome_is_expected(ledger, request);
    let next = ledger.next(request);
    let n = ledger.count() as nat;
    assert forall|token: Seq<char>| #[trigger]
        next.owed(token, next.count() as nat) <= next.balance(token, next.this) by {
        assert(ledger.owed(token, n) <= ledger.balance(token, ledger.this));
        match request {
            RequestView::Initialize { .. } => {
                owed_is_determined(ledger, next, token, next.count() as nat);
            },
            RequestView::CreateEscrow { .. } => {
                if ledger.outcome(request) is Committed {
                    owed_is_determined(ledger, next, token, n);
                    assert(next.owed(token, next.count() as nat) == next.owed(token, n)
                        + next.held(next.count(), token));
                }
            },
            RequestView::ReleaseFunds { escrow_id, .. } => {
                if ledger.outcome(request) is Committed {
                    assert(ledger.has_escrow(escrow_id));
                    owed_changes_with_one(ledger, next, token, escrow_id, n);
                }
            },
            RequestView::Refund { escrow_id } => {
                if ledger.outcome(request) is Committed {
                    assert(ledger.has_escrow(escrow_id));
                    owed_changes_with_one(ledger, next, token, escrow_id, n);
                }
            },
            RequestView::Dispute { .. } => {
                owed_is_determined(ledger, next, token, n);
            },
            _ => {},
        }
    }
}

} // verus!
