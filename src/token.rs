use crate::errors::{applied, AccountId, TokenError};
use crate::ledger::{Ledger, LedgerModel};
use vstd::prelude::*;

verus! {

/// Units minted to the recipient at construction: 100000 whole tokens.
pub const INITIAL_SUPPLY: i128 = 100000000000000000000000;

/// Decimal places of one whole token.
pub const DECIMALS: u32 = 18;

/// What the contract holds between calls.
pub struct TokenModel {
    pub owner: AccountId,
    pub paused: bool,
    pub ledger: LedgerModel,
    pub decimals: u32,
    pub name: Seq<char>,
    pub symbol: Seq<char>,
    /// Reference to the executable code currently installed.
    pub code: Seq<u8>,
}

impl TokenModel {
    pub open spec fn valid(self) -> bool {
        self.ledger.valid()
    }

    pub open spec fn with_ledger(self, l: LedgerModel) -> TokenModel {
        TokenModel { ledger: l, ..self }
    }

    /// The outcome of a ledger operation, seen on the whole contract.
    pub open spec fn lift(self, r: Result<LedgerModel, TokenError>) -> Result<TokenModel, TokenError> {
        match r {
            Ok(l) => Ok(self.with_ledger(l)),
            Err(e) => Err(e),
        }
    }

    /// The owner guard: only the owner passes.
    pub open spec fn owner_auth(self, invoker: AccountId) -> Result<(), TokenError> {
        if invoker == self.owner {
            Ok(())
        } else {
            Err(TokenError::Unauthorized)
        }
    }

    /// The pause guard: passes only while the token is active.
    pub open spec fn not_paused(self) -> Result<(), TokenError> {
        if self.paused {
            Err(TokenError::ContractPaused)
        } else {
            Ok(())
        }
    }

    /// Owner-only, refused while paused; the amount must be positive.
    pub open spec fn mint(self, invoker: AccountId, account: AccountId, amount: i128) -> Result<TokenModel, TokenError> {
        if invoker != self.owner {
            Err(TokenError::Unauthorized)
        } else if self.paused {
            Err(TokenError::ContractPaused)
        } else if amount <= 0 {
            Err(TokenError::InvalidAmount)
        } else {
            self.lift(self.ledger.mint(account, amount))
        }
    }

    /// Refused while paused; `from` must have authorized it.
    pub open spec fn transfer(self, invoker: AccountId, from: AccountId, to: AccountId, amount: i128) -> Result<TokenModel, TokenError> {
        if self.paused {
            Err(TokenError::ContractPaused)
        } else if invoker != from {
            Err(TokenError::Unauthorized)
        } else {
            self.lift(self.ledger.transfer(from, to, amount))
        }
    }

    /// Refused while paused; `spender` must have authorized it.
    pub open spec fn transfer_from(self, invoker: AccountId, spender: AccountId, from: AccountId, to: AccountId, amount: i128) -> Result<TokenModel, TokenError> {
        if self.paused {
            Err(TokenError::ContractPaused)
        } else if invoker != spender {
            Err(TokenError::Unauthorized)
        } else {
            self.lift(self.ledger.transfer_from(spender, from, to, amount))
        }
    }

    /// Refused while paused; `from` must have authorized it.
    pub open spec fn burn(self, invoker: AccountId, from: AccountId, amount: i128) -> Result<TokenModel, TokenError> {
        if self.paused {
            Err(TokenError::ContractPaused)
        } else if invoker != from {
            Err(TokenError::Unauthorized)
        } else {
            self.lift(self.ledger.burn(from, amount))
        }
    }

    /// Refused while paused; `spender` must have authorized it.
    pub open spec fn burn_from(self, invoker: AccountId, spender: AccountId, from: AccountId, amount: i128) -> Result<TokenModel, TokenError> {
        if self.paused {
            Err(TokenError::ContractPaused)
        } else if invoker != spender {
            Err(TokenError::Unauthorized)
        } else {
            self.lift(self.ledger.burn_from(spender, from, amount))
        }
    }

    /// `owner` must have authorized it; not gated by the pause switch.
    pub open spec fn approve(self, invoker: AccountId, owner: AccountId, spender: AccountId, amount: i128) -> Result<TokenModel, TokenError> {
        if invoker != owner {
            Err(TokenError::Unauthorized)
        } else {
            self.lift(self.ledger.approve(owner, spender, amount))
        }
    }

    /// Owner-only; pausing a paused token is no error.
    pub open spec fn pause(self, invoker: AccountId) -> Result<TokenModel, TokenError> {
        if invoker != self.owner {
            Err(TokenError::Unauthorized)
        } else {
            Ok(TokenModel { paused: true, ..self })
        }
    }

    /// Owner-only; unpausing an active token is no error.
    pub open spec fn unpause(self, invoker: AccountId) -> Result<TokenModel, TokenError> {
        if invoker != self.owner {
            Err(TokenError::Unauthorized)
        } else {
            Ok(TokenModel { paused: false, ..self })
        }
    }

    /// Owner-only: hands the owner role to `new_owner`.
    pub open spec fn transfer_ownership(self, invoker: AccountId, new_owner: AccountId) -> Result<TokenModel, TokenError> {
        if invoker != self.owner {
            Err(TokenError::Unauthorized)
        } else {
            Ok(TokenModel { owner: new_owner, ..self })
        }
    }

    /// Owner-only: installs `new_code` and keeps every other part of the state.
    pub open spec fn upgrade(self, operator: AccountId, new_code: Seq<u8>) -> Result<TokenModel, TokenError> {
        if operator != self.owner {
            Err(TokenError::Unauthorized)
        } else {
            Ok(TokenModel { code: new_code, ..self })
        }
    }
}

/// The token contract: owner and pause guards over a ledger.
pub struct ColibriToken {
    owner: AccountId,
    paused: bool,
    ledger: Ledger,
    decimals: u32,
    name: String,
    symbol: String,
    code: Vec<u8>,
}

impl View for ColibriToken {
    type V = TokenModel;

    closed spec fn view(&self) -> TokenModel {
        TokenModel {
            owner: self.owner,
            paused: self.paused,
            ledger: self.ledger@,
            decimals: self.decimals,
            name: self.name@,
            symbol: self.symbol@,
            code: self.code@,
        }
    }
}

} // verus!

verus! {

impl ColibriToken {
    /// Deploys the token with `code` installed: sets the metadata, mints the
    /// initial supply to `recipient` and makes `owner` the owner. The token
    /// starts active.
    pub fn new(code: Vec<u8>, recipient: AccountId, owner: AccountId) -> (r: ColibriToken)
        ensures
            r@.valid(),
            r@.owner == owner,
            !r@.paused,
            r@.decimals == DECIMALS,
            r@.name == "ColibriToken"@,
            r@.symbol == "CLBT"@,
            r@.code == code@,
            r@.ledger.total_supply == INITIAL_SUPPLY,
            forall|a: AccountId| #[trigger] r@.ledger.balance(a) == if a == recipient { INITIAL_SUPPLY as int } else { 0 },
            r@.ledger.allowances == Map::<u128, i128>::empty(),
    {
        let mut ledger = Ledger::new();
        // An empty ledger takes the initial supply without refusal.
        let _ = ledger.mint(recipient, INITIAL_SUPPLY);
        ColibriToken {
            owner,
            paused: false,
            ledger,
            decimals: DECIMALS,
            name: "ColibriToken".to_owned(),
            symbol: "CLBT".to_owned(),
            code,
        }
    }

    pub fn name(&self) -> (r: String)
        ensures
            r@ == self@.name,
    {
        self.name.clone()
    }

    pub fn symbol(&self) -> (r: String)
        ensures
            r@ == self@.symbol,
    {
        self.symbol.clone()
    }

    pub fn decimals(&self) -> (r: u32)
        ensures
            r == self@.decimals,
    {
        self.decimals
    }

    pub fn owner(&self) -> (r: AccountId)
        ensures
            r == self@.owner,
    {
        self.owner
    }

    pub fn paused(&self) -> (r: bool)
        ensures
            r == self@.paused,
    {
        self.paused
    }

    pub fn code(&self) -> (r: &Vec<u8>)
        ensures
            r@ == self@.code,
    {
        &self.code
    }

    pub fn balance(&self, account: AccountId) -> (r: i128)
        ensures
            r == self@.ledger.balance(account),
    {
        self.ledger.balance(account)
    }

    pub fn allowance(&self, owner: AccountId, spender: AccountId) -> (r: i128)
        ensures
            r == self@.ledger.allowance(owner, spender),
    {
        self.ledger.allowance(owner, spender)
    }

    pub fn total_supply(&self) -> (r: i128)
        ensures
            r == self@.ledger.total_supply,
    {
        self.ledger.total_supply()
    }

    /// Passes only when `invoker`, the account the host authenticated for
    /// this call, is the owner.
    pub fn enforce_owner_auth(&self, invoker: AccountId) -> (r: Result<(), TokenError>)
        ensures
            r == self@.owner_auth(invoker),
    {
        if invoker == self.owner {
            Ok(())
        } else {
            Err(TokenError::Unauthorized)
        }
    }

    /// Passes only while the token is not paused.
    pub fn when_not_paused(&self) -> (r: Result<(), TokenError>)
        ensures
            r == self@.not_paused(),
    {
        if self.paused {
            Err(TokenError::ContractPaused)
        } else {
            Ok(())
        }
    }

    /// The check run before the code is replaced: the owner guard.
    pub fn authorize_upgrade(&self, operator: AccountId) -> (r: Result<(), TokenError>)
        ensures
            r == self@.owner_auth(operator),
    {
        self.enforce_owner_auth(operator)
    }

    /// Creates `amount` units for `account`.
    pub fn mint(&mut self, invoker: AccountId, account: AccountId, amount: i128) -> (r: Result<(), TokenError>)
        requires
            old(self)@.valid(),
        ensures
            final(self)@.valid(),
            applied(r, old(self)@, final(self)@, old(self)@.mint(invoker, account, amount)),
    {
        if let Err(e) = self.enforce_owner_auth(invoker) {
            return Err(e);
        }
        if let Err(e) = self.when_not_paused() {
            return Err(e);
        }
        if amount <= 0 {
            return Err(TokenError::InvalidAmount);
        }
        self.ledger.mint(account, amount)
    }

    /// Moves `amount` units from `from` to `to`.
    pub fn transfer(&mut self, invoker: AccountId, from: AccountId, to: AccountId, amount: i128) -> (r: Result<(), TokenError>)
        requires
            old(self)@.valid(),
        ensures
            final(self)@.valid(),
            applied(r, old(self)@, final(self)@, old(self)@.transfer(invoker, from, to, amount)),
    {
        if let Err(e) = self.when_not_paused() {
            return Err(e);
        }
        if invoker != from {
            return Err(TokenError::Unauthorized);
        }
        self.ledger.transfer(from, to, amount)
    }

    /// Moves `amount` units from `from` to `to` on behalf of `spender`.
    pub fn transfer_from(&mut self, invoker: AccountId, spender: AccountId, from: AccountId, to: AccountId, amount: i128) -> (r: Result<(), TokenError>)
        requires
            old(self)@.valid(),
        ensures
            final(self)@.valid(),
            applied(r, old(self)@, final(self)@, old(self)@.transfer_from(invoker, spender, from, to, amount)),
    {
        if let Err(e) = self.when_not_paused() {
            return Err(e);
        }
        if invoker != spender {
            return Err(TokenError::Unauthorized);
        }
        self.ledger.transfer_from(spender, from, to, amount)
    }

    /// Destroys `amount` units of `from`'s balance.
    pub fn burn(&mut self, invoker: AccountId, from: AccountId, amount: i128) -> (r: Result<(), TokenError>)
        requires
            old(self)@.valid(),
        ensures
            final(self)@.valid(),
            applied(r, old(self)@, final(self)@, old(self)@.burn(invoker, from, amount)),
    {
        if let Err(e) = self.when_not_paused() {
            return Err(e);
        }
        if invoker != from {
            return Err(TokenError::Unauthorized);
        }
        self.ledger.burn(from, amount)
    }

    /// Destroys `amount` units of `from`'s balance on behalf of `spender`.
    pub fn burn_from(&mut self, invoker: AccountId, spender: AccountId, from: AccountId, amount: i128) -> (r: Result<(), TokenError>)
        requires
            old(self)@.valid(),
        ensures
            final(self)@.valid(),
            applied(r, old(self)@, final(self)@, old(self)@.burn_from(invoker, spender, from, amount)),
    {
        if let Err(e) = self.when_not_paused() {
            return Err(e);
        }
        if invoker != spender {
            return Err(TokenError::Unauthorized);
        }
        self.ledger.burn_from(spender, from, amount)
    }

    /// Lets `spender` move up to `amount` units out of `owner`'s balance.
    pub fn approve(&mut self, invoker: AccountId, owner: AccountId, spender: AccountId, amount: i128) -> (r: Result<(), TokenError>)
        requires
            old(self)@.valid(),
        ensures
            final(self)@.valid(),
            applied(r, old(self)@, final(self)@, old(self)@.approve(invoker, owner, spender, amount)),
    {
        if invoker != owner {
            return Err(TokenError::Unauthorized);
        }
        self.ledger.approve(owner, spender, amount)
    }

    pub fn pause(&mut self, invoker: AccountId) -> (r: Result<(), TokenError>)
        ensures
            applied(r, old(self)@, final(self)@, old(self)@.pause(invoker)),
    {
        if let Err(e) = self.enforce_owner_auth(invoker) {
            return Err(e);
        }
        self.paused = true;
        Ok(())
    }

    pub fn unpause(&mut self, invoker: AccountId) -> (r: Result<(), TokenError>)
        ensures
            applied(r, old(self)@, final(self)@, old(self)@.unpause(invoker)),
    {
        if let Err(e) = self.enforce_owner_auth(invoker) {
            return Err(e);
        }
        self.paused = false;
        Ok(())
    }

    pub fn transfer_ownership(&mut self, invoker: AccountId, new_owner: AccountId) -> (r: Result<(), TokenError>)
        ensures
            applied(r, old(self)@, final(self)@, old(self)@.transfer_ownership(invoker, new_owner)),
    {
        if let Err(e) = self.enforce_owner_auth(invoker) {
            return Err(e);
        }
        self.owner = new_owner;
        Ok(())
    }

    /// Replaces the installed code with `new_code` once the upgrade is
    /// authorized; balances, owner and pause switch are kept as they are.
    pub fn upgrade(&mut self, operator: AccountId, new_code: Vec<u8>) -> (r: Result<(), TokenError>)
        ensures
            applied(r, old(self)@, final(self)@, old(self)@.upgrade(operator, new_code@)),
    {
        if let Err(e) = self.authorize_upgrade(operator) {
            return Err(e);
        }
        self.code = new_code;
        Ok(())
    }
}

} // verus!
