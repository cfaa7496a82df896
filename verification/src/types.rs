//! Addresses, escrows, and the reasons to refuse an operation.

use vstd::prelude::*;

verus! {

/// A storage entry that is touched while its remaining lifetime is at most this
/// many ledgers is extended.
pub const ESCROW_TTL_THRESHOLD: u32 = 500_000;

/// The lifetime, in ledgers, to which a touched entry is extended.
pub const ESCROW_TTL_BUMP: u32 = 1_000_000;

/// The address of an account or of a contract, in its textual form (strkey).
/// Two addresses are the same exactly when their texts are.
#[derive(Debug)]
pub struct Address {
    pub strkey: String,
}

impl View for Address {
    type V = Seq<char>;

    open spec fn view(&self) -> Seq<char> {
        self.strkey@
    }
}

impl Clone for Address {
    fn clone(&self) -> (res: Self)
        ensures
            res@ == self@,
    {
        Address { strkey: self.strkey.clone() }
    }
}

impl PartialEq for Address {
    fn eq(&self, other: &Self) -> (res: bool) {
        self.strkey == other.strkey
    }
}

impl Eq for Address {

}

impl vstd::std_specs::cmp::PartialEqSpecImpl for Address {
    open spec fn obeys_eq_spec() -> bool {
        true
    }

    open spec fn eq_spec(&self, other: &Self) -> bool {
        self@ == other@
    }
}

/// The texts of a list of addresses, in order.
pub open spec fn texts(list: Seq<Address>) -> Seq<Seq<char>> {
    list.map_values(|a: Address| a@)
}

/// Tells whether `list` holds an address equal to `item`.
pub fn contains_address(list: &Vec<Address>, item: &Address) -> (res: bool)
    ensures
        res == texts(list@).contains(item@),
        res == exists|k: int| 0 <= k < list@.len() && (#[trigger] list@[k])@ == item@,
{
    for i in 0..list.len()
        invariant
            forall|j: int| 0 <= j < i ==> texts(list@)[j] != item@,
    {
        if list[i] == *item {
            assert(texts(list@)[i as int] == item@);
            assert(list@[i as int]@ == item@);
            return true;
        }
    }
    assert forall|k: int| 0 <= k < list@.len() implies (#[trigger] list@[k])@ != item@ by {
        assert(texts(list@)[k] != item@);
    }
    false
}

/// A copy of a list of addresses.
pub(crate) fn clone_addresses(list: &Vec<Address>) -> (res: Vec<Address>)
    ensures
        texts(res@) == texts(list@),
        res@.len() == list@.len(),
        forall|k: int| 0 <= k < list@.len() ==> (#[trigger] res@[k])@ == list@[k]@,
{
    let mut res: Vec<Address> = Vec::new();
    for i in 0..list.len()
        invariant
            res@.len() == i,
            forall|j: int| 0 <= j < i ==> (#[trigger] res@[j])@ == list@[j]@,
    {
        res.push(list[i].clone());
    }
    assert(texts(res@) =~= texts(list@));
    res
}

/// Where an escrow stands.
#[derive(Clone, Copy, Debug, PartialEq, Eq, Structural)]
pub enum EscrowStatus {
    /// The tokens are held for the mentor.
    Active,
    /// The tokens went to the mentor.
    Released,
    /// The tokens are held and one side objects.
    Disputed,
    /// The tokens went back to the learner.
    Refunded,
}

/// One escrow.
#[derive(Debug)]
pub struct Escrow {
    pub id: u64,
    pub mentor: Address,
    pub learner: Address,
    pub amount: i128,
    pub session_id: String,
    pub status: EscrowStatus,
    pub created_at: u64,
    pub token_address: Address,
}

/// The contents of an `Escrow`.
pub struct EscrowView {
    pub id: u64,
    pub mentor: Seq<char>,
    pub learner: Seq<char>,
    pub amount: i128,
    pub session_id: Seq<char>,
    pub status: EscrowStatus,
    pub created_at: u64,
    pub token_address: Seq<char>,
}

impl View for Escrow {
    type V = EscrowView;

    open spec fn view(&self) -> EscrowView {
        EscrowView {
            id: self.id,
            mentor: self.mentor@,
            learner: self.learner@,
            amount: self.amount,
            session_id: self.session_id@,
            status: self.status,
            created_at: self.created_at,
            token_address: self.token_address@,
        }
    }
}

impl EscrowView {
    /// The same escrow in another status.
    pub open spec fn with_status(self, status: EscrowStatus) -> EscrowView {
        EscrowView { status, ..self }
    }

    /// Whether the contract still holds the tokens.
    pub open spec fn is_held(self) -> bool {
        self.status is Active || self.status is Disputed
    }
}

impl Clone for Escrow {
    fn clone(&self) -> (res: Self)
        ensures
            res@ == self@,
    {
        self.with_status(self.status)
    }
}

impl Escrow {
    /// The same escrow in another status.
    pub fn with_status(&self, status: EscrowStatus) -> (res: Escrow)
        ensures
            res@ == self@.with_status(status),
    {
        Escrow {
            id: self.id,
            mentor: self.mentor.clone(),
            learner: self.learner.clone(),
            amount: self.amount,
            session_id: self.session_id.clone(),
            status,
            created_at: self.created_at,
            token_address: self.token_address.clone(),
        }
    }
}

/// Why an operation is refused.
#[derive(Clone, Copy, Debug, PartialEq, Eq, Structural)]
pub enum EscrowError {
    /// The contract already has an admin.
    AlreadyInitialized,
    /// The amount to lock is zero or negative.
    AmountNotPositive,
    /// The contract has no list of approved tokens.
    ApprovedTokensNotSet,
    /// The token is not on the list of approved tokens.
    TokenNotApproved,
    /// The learner holds less than the amount.
    InsufficientBalance,
    /// Every escrow number has been given out.
    CountOverflow,
    /// There is no escrow of that number.
    EscrowNotFound,
    /// The escrow is not active.
    EscrowNotActive,
    /// The contract has no admin.
    AdminNotFound,
    /// The caller is neither the learner nor the admin.
    CallerNotAuthorized,
    /// The caller is neither the mentor nor the learner.
    CallerNotAuthorizedToDispute,
    /// The tokens have already left the escrow.
    CannotRefund,
}

impl EscrowError {
    /// The message that the error is reported with.
    pub open spec fn spec_message(self) -> Seq<char> {
        match self {
            EscrowError::AlreadyInitialized => "Already initialized"@,
            EscrowError::AmountNotPositive => "Amount must be greater than zero"@,
            EscrowError::ApprovedTokensNotSet => "Approved tokens not set"@,
            EscrowError::TokenNotApproved => "Token not approved; must be XLM, USDC, or PYUSD"@,
            EscrowError::InsufficientBalance => "Insufficient token balance"@,
            EscrowError::CountOverflow => "attempt to add with overflow"@,
            EscrowError::EscrowNotFound => "Escrow not found"@,
            EscrowError::EscrowNotActive => "Escrow not active"@,
            EscrowError::AdminNotFound => "Admin not found"@,
            EscrowError::CallerNotAuthorized => "Caller not authorized"@,
            EscrowError::CallerNotAuthorizedToDispute => "Caller not authorized to dispute"@,
            EscrowError::CannotRefund => "Cannot refund"@,
        }
    }

    /// The message that the error is reported with.
    pub fn message(&self) -> (res: &'static str)
        ensures
            res@ == self.spec_message(),
    {
        match self {
            EscrowError::AlreadyInitialized => "Already initialized",
            EscrowError::AmountNotPositive => "Amount must be greater than zero",
            EscrowError::ApprovedTokensNotSet => "Approved tokens not set",
            EscrowError::TokenNotApproved => "Token not approved; must be XLM, USDC, or PYUSD",
            EscrowError::InsufficientBalance => "Insufficient token balance",
            EscrowError::CountOverflow => "attempt to add with overflow",
            EscrowError::EscrowNotFound => "Escrow not found",
            EscrowError::EscrowNotActive => "Escrow not active",
            EscrowError::AdminNotFound => "Admin not found",
            EscrowError::CallerNotAuthorized => "Caller not authorized",
            EscrowError::CallerNotAuthorizedToDispute => "Caller not authorized to dispute",
            EscrowError::CannotRefund => "Cannot refund",
        }
    }
}

} // verus!
