use crate::errors::{applied, AccountId, TokenError};
use std::collections::HashMap;
use vstd::prelude::*;

verus! {

broadcast use vstd::std_specs::hash::group_hash_axioms;

/// The sum of the values of `m` at `keys`.
pub open spec fn sum_over(m: Map<AccountId, i128>, keys: Set<AccountId>) -> int
    decreases keys.len(),
{
    if keys.finite() && keys.len() > 0 {
        let k = keys.choose();
        m[k] as int + sum_over(m, keys.remove(k))
    } else {
        0
    }
}

/// The sum of all balances held in `m`.
pub open spec fn total(m: Map<AccountId, i128>) -> int {
    sum_over(m, m.dom())
}

/// The key under which the allowance of `spender` over `owner`'s funds is kept.
pub open spec fn allowance_key(owner: AccountId, spender: AccountId) -> u128 {
    (owner as int * 18446744073709551616 + spender as int) as u128
}

/// What the ledger holds: a balance per account, an allowance per
/// (owner, spender) pair, and the total supply.
pub struct LedgerModel {
    pub balances: Map<AccountId, i128>,
    pub allowances: Map<u128, i128>,
    pub total_supply: int,
}

impl LedgerModel {
    /// The balance of `a`; an account never credited holds nothing.
    pub open spec fn balance(self, a: AccountId) -> int {
        if self.balances.contains_key(a) {
            self.balances[a] as int
        } else {
            0
        }
    }

    /// How much `spender` may still move out of `owner`'s balance.
    pub open spec fn allowance(self, owner: AccountId, spender: AccountId) -> int {
        let k = allowance_key(owner, spender);
        if self.allowances.contains_key(k) {
            self.allowances[k] as int
        } else {
            0
        }
    }

    /// No balance or allowance is negative, and the total supply is the sum
    /// of all balances.
    pub open spec fn valid(self) -> bool {
        &&& self.balances.dom().finite()
        &&& forall|a: AccountId| #[trigger] self.balances.contains_key(a) ==> self.balances[a] >= 0
        &&& forall|k: u128| #[trigger] self.allowances.contains_key(k) ==> self.allowances[k] >= 0
        &&& self.total_supply == total(self.balances)
        &&& self.total_supply <= i128::MAX
    }

    pub open spec fn with_balance(self, a: AccountId, v: int) -> LedgerModel {
        LedgerModel {
            balances: self.balances.insert(a, v as i128),
            allowances: self.allowances,
            total_supply: self.total_supply,
        }
    }

    pub open spec fn with_allowance(self, owner: AccountId, spender: AccountId, v: int) -> LedgerModel {
        LedgerModel {
            balances: self.balances,
            allowances: self.allowances.insert(allowance_key(owner, spender), v as i128),
            total_supply: self.total_supply,
        }
    }

    pub open spec fn with_total(self, t: int) -> LedgerModel {
        LedgerModel { balances: self.balances, allowances: self.allowances, total_supply: t }
    }

    /// Creating `amount` new units in `to`'s balance.
    pub open spec fn mint(self, to: AccountId, amount: i128) -> Result<LedgerModel, TokenError> {
        if amount < 0 {
            Err(TokenError::InvalidAmount)
        } else if self.total_supply + amount > i128::MAX {
            Err(TokenError::Overflow)
        } else {
            Ok(self.with_balance(to, self.balance(to) + amount).with_total(self.total_supply + amount))
        }
    }

    /// Destroying `amount` units of `from`'s balance.
    pub open spec fn burn(self, from: AccountId, amount: i128) -> Result<LedgerModel, TokenError> {
        if amount < 0 {
            Err(TokenError::InvalidAmount)
        } else if self.balance(from) < amount {
            Err(TokenError::InsufficientBalance)
        } else {
            Ok(self.with_balance(from, self.balance(from) - amount).with_total(self.total_supply - amount))
        }
    }

    /// Moving `amount` units from `from`'s balance to `to`'s: a debit, then a credit.
    pub open spec fn transfer(self, from: AccountId, to: AccountId, amount: i128) -> Result<LedgerModel, TokenError> {
        if amount < 0 {
            Err(TokenError::InvalidAmount)
        } else if self.balance(from) < amount {
            Err(TokenError::InsufficientBalance)
        } else {
            let debited = self.with_balance(from, self.balance(from) - amount);
            Ok(debited.with_balance(to, debited.balance(to) + amount))
        }
    }

    /// Setting the allowance of `spender` over `owner`'s balance to `amount`.
    pub open spec fn approve(self, owner: AccountId, spender: AccountId, amount: i128) -> Result<LedgerModel, TokenError> {
        if amount < 0 {
            Err(TokenError::InvalidAmount)
        } else {
            Ok(self.with_allowance(owner, spender, amount as int))
        }
    }

    /// Consuming `amount` of the allowance of `spender` over `owner`'s balance.
    pub open spec fn spend_allowance(self, owner: AccountId, spender: AccountId, amount: i128) -> Result<LedgerModel, TokenError> {
        if amount < 0 {
            Err(TokenError::InvalidAmount)
        } else if self.allowance(owner, spender) < amount {
            Err(TokenError::InsufficientAllowance)
        } else if amount == 0 {
            Ok(self)
        } else {
            Ok(self.with_allowance(owner, spender, self.allowance(owner, spender) - amount))
        }
    }

    /// A transfer that `spender` makes out of `from`'s balance, paid from its allowance.
    pub open spec fn transfer_from(self, spender: AccountId, from: AccountId, to: AccountId, amount: i128) -> Result<LedgerModel, TokenError> {
        match self.spend_allowance(from, spender, amount) {
            Ok(spent) => spent.transfer(from, to, amount),
            Err(e) => Err(e),
        }
    }

    /// A burn that `spender` makes out of `from`'s balance, paid from its allowance.
    pub open spec fn burn_from(self, spender: AccountId, from: AccountId, amount: i128) -> Result<LedgerModel, TokenError> {
        match self.spend_allowance(from, spender, amount) {
            Ok(spent) => spent.burn(from, amount),
            Err(e) => Err(e),
        }
    }
}

proof fn lemma_sum_remove(m: Map<AccountId, i128>, keys: Set<AccountId>, k: AccountId)
    requires
        keys.finite(),
        keys.contains(k),
    ensures
        sum_over(m, keys) == m[k] as int + sum_over(m, keys.remove(k)),
    decreases keys.len(),
{
    let c = keys.choose();
    if c != k {
        lemma_sum_remove(m, keys.remove(c), k);
        lemma_sum_remove(m, keys.remove(k), c);
        assert(keys.remove(c).remove(k) =~= keys.remove(k).remove(c));
    }
}

proof fn lemma_sum_agree(m1: Map<AccountId, i128>, m2: Map<AccountId, i128>, keys: Set<AccountId>)
    requires
        keys.finite(),
        forall|k: AccountId| keys.contains(k) ==> m1[k] == m2[k],
    ensures
        sum_over(m1, keys) == sum_over(m2, keys),
    decreases keys.len(),
{
    if keys.len() > 0 {
        let c = keys.choose();
        lemma_sum_agree(m1, m2, keys.remove(c));
    }
}

proof fn lemma_sum_nonneg(m: Map<AccountId, i128>, keys: Set<AccountId>)
    requires
        keys.finite(),
        forall|k: AccountId| keys.contains(k) ==> m[k] >= 0,
    ensures
        sum_over(m, keys) >= 0,
    decreases keys.len(),
{
    if keys.len() > 0 {
        let c = keys.choose();
        lemma_sum_nonneg(m, keys.remove(c));
    }
}

/// Setting one balance changes the sum of all balances by the difference.
pub proof fn lemma_total_insert(l: LedgerModel, a: AccountId, v: i128)
    requires
        l.balances.dom().finite(),
    ensures
        total(l.balances.insert(a, v)) == total(l.balances) - l.balance(a) + v,
{
    let m = l.balances;
    let m2 = m.insert(a, v);
    lemma_sum_remove(m2, m2.dom(), a);
    lemma_sum_agree(m2, m, m2.dom().remove(a));
    if m.contains_key(a) {
        lemma_sum_remove(m, m.dom(), a);
        assert(m2.dom().remove(a) =~= m.dom().remove(a));
    } else {
        assert(m2.dom().remove(a) =~= m.dom());
    }
}

/// In a valid ledger no balance exceeds the total supply.
pub proof fn lemma_balance_le_total(l: LedgerModel, a: AccountId)
    requires
        l.valid(),
    ensures
        0 <= l.balance(a) <= l.total_supply,
{
    let m = l.balances;
    if m.contains_key(a) {
        lemma_sum_remove(m, m.dom(), a);
        lemma_sum_nonneg(m, m.dom().remove(a));
    } else {
        lemma_sum_nonneg(m, m.dom());
    }
}

} // verus!

verus! {

/// Balances, allowances and total supply of the token.
pub struct Ledger {
    balances: HashMap<AccountId, i128>,
    allowances: HashMap<u128, i128>,
    total_supply: i128,
}

impl View for Ledger {
    type V = LedgerModel;

    closed spec fn view(&self) -> LedgerModel {
        LedgerModel {
            balances: self.balances@,
            allowances: self.allowances@,
            total_supply: self.total_supply as int,
        }
    }
}

fn key_of(owner: AccountId, spender: AccountId) -> (k: u128)
    ensures
        k == allowance_key(owner, spender),
{
    (owner as u128) * 18446744073709551616u128 + (spender as u128)
}

impl Ledger {
    /// An empty ledger: no balances, no allowances, nothing in supply.
    pub fn new() -> (r: Ledger)
        ensures
            r@.valid(),
            r@.balances == Map::<AccountId, i128>::empty(),
            r@.allowances == Map::<u128, i128>::empty(),
            r@.total_supply == 0,
    {
        Ledger { balances: HashMap::new(), allowances: HashMap::new(), total_supply: 0 }
    }

    pub fn balance(&self, a: AccountId) -> (r: i128)
        ensures
            r == self@.balance(a),
    {
        match self.balances.get(&a) {
            Some(v) => *v,
            None => 0,
        }
    }

    pub fn allowance(&self, owner: AccountId, spender: AccountId) -> (r: i128)
        ensures
            r == self@.allowance(owner, spender),
    {
        let k = key_of(owner, spender);
        match self.allowances.get(&k) {
            Some(v) => *v,
            None => 0,
        }
    }

    pub fn total_supply(&self) -> (r: i128)
        ensures
            r == self@.total_supply,
    {
        self.total_supply
    }

    fn set_balance(&mut self, a: AccountId, v: i128)
        ensures
            final(self)@ == old(self)@.with_balance(a, v as int),
    {
        self.balances.insert(a, v);
    }

    fn set_allowance(&mut self, owner: AccountId, spender: AccountId, v: i128)
        ensures
            final(self)@ == old(self)@.with_allowance(owner, spender, v as int),
    {
        let k = key_of(owner, spender);
        self.allowances.insert(k, v);
    }

    /// Creates `amount` units in `to`'s balance.
    pub fn mint(&mut self, to: AccountId, amount: i128) -> (r: Result<(), TokenError>)
        requires
            old(self)@.valid(),
        ensures
            final(self)@.valid(),
            applied(r, old(self)@, final(self)@, old(self)@.mint(to, amount)),
    {
        if amount < 0 {
            return Err(TokenError::InvalidAmount);
        }
        let new_total = match self.total_supply.checked_add(amount) {
            Some(t) => t,
            None => return Err(TokenError::Overflow),
        };
        let bal = self.balance(to);
        proof {
            lemma_balance_le_total(self@, to);
            lemma_total_insert(self@, to, (bal + amount) as i128);
        }
        self.set_balance(to, bal + amount);
        self.total_supply = new_total;
        Ok(())
    }

    /// Destroys `amount` units of `from`'s balance.
    pub fn burn(&mut self, from: AccountId, amount: i128) -> (r: Result<(), TokenError>)
        requires
            old(self)@.valid(),
        ensures
            final(self)@.valid(),
            applied(r, old(self)@, final(self)@, old(self)@.burn(from, amount)),
    {
        if amount < 0 {
            return Err(TokenError::InvalidAmount);
        }
        let bal = self.balance(from);
        if bal < amount {
            return Err(TokenError::InsufficientBalance);
        }
        proof {
            lemma_balance_le_total(self@, from);
            lemma_total_insert(self@, from, (bal - amount) as i128);
        }
        self.set_balance(from, bal - amount);
        self.total_supply = self.total_supply - amount;
        Ok(())
    }

    /// Moves `amount` units from `from`'s balance to `to`'s.
    pub fn transfer(&mut self, from: AccountId, to: AccountId, amount: i128) -> (r: Result<(), TokenError>)
        requires
            old(self)@.valid(),
        ensures
            final(self)@.valid(),
            applied(r, old(self)@, final(self)@, old(self)@.transfer(from, to, amount)),
    {
        if amount < 0 {
            return Err(TokenError::InvalidAmount);
        }
        let from_bal = self.balance(from);
        if from_bal < amount {
            return Err(TokenError::InsufficientBalance);
        }
        proof {
            lemma_transfer_keeps_valid(self@, from, to, amount);
        }
        self.set_balance(from, from_bal - amount);
        let to_bal = self.balance(to);
        self.set_balance(to, to_bal + amount);
        Ok(())
    }

    /// Sets the allowance of `spender` over `owner`'s balance to `amount`.
    pub fn approve(&mut self, owner: AccountId, spender: AccountId, amount: i128) -> (r: Result<(), TokenError>)
        requires
            old(self)@.valid(),
        ensures
            final(self)@.valid(),
            applied(r, old(self)@, final(self)@, old(self)@.approve(owner, spender, amount)),
    {
        if amount < 0 {
            return Err(TokenError::InvalidAmount);
        }
        self.set_allowance(owner, spender, amount);
        Ok(())
    }

    /// Consumes `amount` of the allowance of `spender` over `owner`'s balance.
    pub fn spend_allowance(&mut self, owner: AccountId, spender: AccountId, amount: i128) -> (r: Result<(), TokenError>)
        requires
            old(self)@.valid(),
        ensures
            final(self)@.valid(),
            applied(r, old(self)@, final(self)@, old(self)@.spend_allowance(owner, spender, amount)),
    {
        if amount < 0 {
            return Err(TokenError::InvalidAmount);
        }
        let current = self.allowance(owner, spender);
        if current < amount {
            return Err(TokenError::InsufficientAllowance);
        }
        if amount > 0 {
            self.set_allowance(owner, spender, current - amount);
        }
        Ok(())
    }

    /// A transfer that `spender` makes out of `from`'s balance, within its allowance.
    /// Nothing changes unless both the allowance and the balance suffice.
    pub fn transfer_from(&mut self, spender: AccountId, from: AccountId, to: AccountId, amount: i128) -> (r: Result<(), TokenError>)
        requires
            old(self)@.valid(),
        ensures
            final(self)@.valid(),
            applied(r, old(self)@, final(self)@, old(self)@.transfer_from(spender, from, to, amount)),
    {
        if amount < 0 {
            return Err(TokenError::InvalidAmount);
        }
        if self.allowance(from, spender) < amount {
            return Err(TokenError::InsufficientAllowance);
        }
        if self.balance(from) < amount {
            return Err(TokenError::InsufficientBalance);
        }
        if let Err(e) = self.spend_allowance(from, spender, amount) {
            return Err(e);
        }
        self.transfer(from, to, amount)
    }

    /// A burn that `spender` makes out of `from`'s balance, within its allowance.
    /// Nothing changes unless both the allowance and the balance suffice.
    pub fn burn_from(&mut self, spender: AccountId, from: AccountId, amount: i128) -> (r: Result<(), TokenError>)
        requires
            old(self)@.valid(),
        ensures
            final(self)@.valid(),
            applied(r, old(self)@, final(self)@, old(self)@.burn_from(spender, from, amount)),
    {
        if amount < 0 {
            return Err(TokenError::InvalidAmount);
        }
        if self.allowance(from, spender) < amount {
            return Err(TokenError::InsufficientAllowance);
        }
        if self.balance(from) < amount {
            return Err(TokenError::InsufficientBalance);
        }
        if let Err(e) = self.spend_allowance(from, spender, amount) {
            return Err(e);
        }
        self.burn(from, amount)
    }
}

/// A transfer that succeeds keeps the ledger valid.
pub proof fn lemma_transfer_keeps_valid(l: LedgerModel, from: AccountId, to: AccountId, amount: i128)
    requires
        l.valid(),
        l.transfer(from, to, amount) is Ok,
    ensures
        l.transfer(from, to, amount)->Ok_0.valid(),
        l.with_balance(from, l.balance(from) - amount).balance(to) + amount <= l.total_supply,
{
    let debited = l.with_balance(from, l.balance(from) - amount);
    lemma_balance_le_total(l, from);
    lemma_total_insert(l, from, (l.balance(from) - amount) as i128);
    assert(debited.with_total(l.total_supply - amount).valid());
    lemma_balance_le_total(debited.with_total(l.total_supply - amount), to);
    lemma_total_insert(debited, to, (debited.balance(to) + amount) as i128);
}

} // verus!
