use crate::errors::{AccountId, TokenError};
use crate::ledger::lemma_transfer_keeps_valid;
use crate::token::TokenModel;
use vstd::prelude::*;

verus! {

/// Minting by any account other than the owner is refused as unauthorized,
/// whatever the amount; a refused call leaves the state as it was.
pub proof fn law_mint_needs_owner(s: TokenModel, invoker: AccountId, account: AccountId, amount: i128)
    requires
        invoker != s.owner,
    ensures
        s.mint(invoker, account, amount) == Err::<TokenModel, TokenError>(TokenError::Unauthorized),
{
}

/// While the token is paused, transfers, burns and the owner's mints are
/// refused as paused, and the owner can still pause and unpause.
pub proof fn law_paused_blocks_balance_changes(
    s: TokenModel,
    invoker: AccountId,
    from: AccountId,
    to: AccountId,
    amount: i128,
)
    requires
        s.paused,
        amount > 0,
    ensures
        s.transfer(invoker, from, to, amount) == Err::<TokenModel, TokenError>(TokenError::ContractPaused),
        s.burn(invoker, from, amount) == Err::<TokenModel, TokenError>(TokenError::ContractPaused),
        s.mint(s.owner, to, amount) == Err::<TokenModel, TokenError>(TokenError::ContractPaused),
        s.pause(s.owner) is Ok,
        s.unpause(s.owner) is Ok,
{
}

/// Pausing twice in a row succeeds both times and leaves the token paused.
pub proof fn law_pause_twice(s: TokenModel)
    ensures
        s.pause(s.owner) is Ok,
        s.pause(s.owner)->Ok_0.paused,
        s.pause(s.owner)->Ok_0.pause(s.owner) is Ok,
        s.pause(s.owner)->Ok_0.pause(s.owner)->Ok_0.paused,
{
}

/// A transfer of more than the source balance is refused for want of
/// balance (and so changes no balance), once the guards have passed.
pub proof fn law_transfer_over_balance(s: TokenModel, from: AccountId, to: AccountId, amount: i128)
    requires
        s.valid(),
        !s.paused,
        amount > s.ledger.balance(from),
    ensures
        s.transfer(from, from, to, amount) == Err::<TokenModel, TokenError>(TokenError::InsufficientBalance),
{
}

/// Sending `x` from `a` to `b` and then back from `b` to `a` succeeds and
/// restores both balances exactly.
pub proof fn law_transfer_round_trip(s: TokenModel, a: AccountId, b: AccountId, x: i128)
    requires
        s.valid(),
        s.transfer(a, a, b, x) is Ok,
    ensures
        s.transfer(a, a, b, x)->Ok_0.transfer(b, b, a, x) is Ok,
        s.transfer(a, a, b, x)->Ok_0.transfer(b, b, a, x)->Ok_0.ledger.balance(a) == s.ledger.balance(a),
        s.transfer(a, a, b, x)->Ok_0.transfer(b, b, a, x)->Ok_0.ledger.balance(b) == s.ledger.balance(b),
{
    lemma_transfer_keeps_valid(s.ledger, a, b, x);
    let s1 = s.transfer(a, a, b, x)->Ok_0;
    lemma_transfer_keeps_valid(s1.ledger, b, a, x);
}

} // verus!
