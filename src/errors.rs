use vstd::prelude::*;

verus! {

/// An account, as the host identifies it to the contract.
pub type AccountId = u64;

/// Why an operation was refused. A refused operation changes nothing.
#[derive(Clone, Copy, Debug, PartialEq, Eq, Structural)]
pub enum TokenError {
    /// The caller is not authenticated as the account the operation requires.
    Unauthorized,
    /// A balance-changing operation was attempted while the token is paused.
    ContractPaused,
    /// The source balance is smaller than the amount.
    InsufficientBalance,
    /// The spender's allowance is smaller than the amount.
    InsufficientAllowance,
    /// The amount is negative, or not positive where a positive one is owed.
    InvalidAmount,
    /// The result would not fit in 128 bits.
    Overflow,
}

} // verus!

verus! {

/// `r` is what an operation returned and `after` the state it left, where
/// `expected` is what the operation's model gives from `before`: on success
/// the state becomes the model's new state, on refusal it stays as it was.
pub open spec fn applied<M>(
    r: Result<(), TokenError>,
    before: M,
    after: M,
    expected: Result<M, TokenError>,
) -> bool {
    match expected {
        Ok(next) => r == Ok::<(), TokenError>(()) && after == next,
        Err(e) => r == Err::<(), TokenError>(e) && after == before,
    }
}

} // verus!
