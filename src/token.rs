//! The token ledger the bridge mints into, locks, unlocks and burns from.
use vstd::prelude::*;
use std::collections::HashMap;
use crate::types::{AccountId, BridgeError, TokenBalance};

verus! {

broadcast use vstd::std_specs::hash::group_hash_axioms;

/// Balances per account, with the part of each balance that is locked.
/// A locked amount still counts in the balance until it is burned.
pub struct TokenLedger {
    pub balances: HashMap<AccountId, TokenBalance>,
    pub locks: HashMap<AccountId, TokenBalance>,
    pub supply: TokenBalance,
}

/// Value of `a` in `m`, zero where `m` has no entry.
pub open spec fn value_or_zero(m: Map<AccountId, TokenBalance>, a: AccountId) -> TokenBalance {
    if m.contains_key(a) { m[a] } else { 0 }
}

/// Sum of the values of `m` over the accounts in `keys`.
pub open spec fn sum_over(m: Map<AccountId, TokenBalance>, keys: Set<AccountId>) -> int {
    keys.fold(0int, |acc: int, a: AccountId| acc + value_or_zero(m, a))
}

/// Sum of all the values of `m`.
pub open spec fn total(m: Map<AccountId, TokenBalance>) -> int {
    sum_over(m, m.dom())
}

proof fn lemma_sum_insert(m: Map<AccountId, TokenBalance>, s: Set<AccountId>, a: AccountId)
    requires
        s.finite(),
        !s.contains(a),
    ensures
        sum_over(m, s.insert(a)) == sum_over(m, s) + value_or_zero(m, a),
{
    let f = |acc: int, b: AccountId| acc + value_or_zero(m, b);
    assert(vstd::set::fold::is_fun_commutative(f));
    vstd::set::fold::lemma_fold_insert(s, 0int, f, a);
}

proof fn lemma_sum_empty(m: Map<AccountId, TokenBalance>, s: Set<AccountId>)
    requires
        s.finite(),
        s.len() == 0,
    ensures
        sum_over(m, s) == 0,
{
    assert(s =~= Set::<AccountId>::empty());
    vstd::set::fold::lemma_fold_empty(0int, |acc: int, b: AccountId| acc + value_or_zero(m, b));
}

/// Sums over a set agree for maps that agree on it, and are never negative.
proof fn lemma_sum_agree(m1: Map<AccountId, TokenBalance>, m2: Map<AccountId, TokenBalance>, s: Set<AccountId>)
    requires
        s.finite(),
        forall|a: AccountId| s.contains(a) ==> value_or_zero(m1, a) == value_or_zero(m2, a),
    ensures
        sum_over(m1, s) == sum_over(m2, s),
        sum_over(m1, s) >= 0,
    decreases s.len(),
{
    if s.len() == 0 {
        lemma_sum_empty(m1, s);
        lemma_sum_empty(m2, s);
    } else {
        let a = s.choose();
        let r = s.remove(a);
        assert(r.insert(a) =~= s);
        lemma_sum_agree(m1, m2, r);
        lemma_sum_insert(m1, r, a);
        lemma_sum_insert(m2, r, a);
    }
}

/// Setting the value of `k` to `v` changes the total by the difference, and the
/// total is at least any one value.
proof fn lemma_total_insert(m: Map<AccountId, TokenBalance>, k: AccountId, v: TokenBalance)
    requires
        m.dom().finite(),
    ensures
        total(m.insert(k, v)) == total(m) - value_or_zero(m, k) + v,
        total(m) >= value_or_zero(m, k),
{
    let m2 = m.insert(k, v);
    let r = m.dom().remove(k);
    lemma_sum_agree(m, m2, r);
    assert(r.insert(k) =~= m2.dom());
    lemma_sum_insert(m2, r, k);
    if m.dom().contains(k) {
        assert(r.insert(k) =~= m.dom());
        lemma_sum_insert(m, r, k);
    } else {
        assert(r =~= m.dom());
    }
}

impl TokenLedger {
    pub open spec fn balance(&self, a: AccountId) -> TokenBalance {
        value_or_zero(self.balances@, a)
    }

    pub open spec fn locked_of(&self, a: AccountId) -> TokenBalance {
        value_or_zero(self.locks@, a)
    }

    /// What of the balance of `a` is free to lock or burn.
    pub open spec fn available(&self, a: AccountId) -> int {
        self.balance(a) - self.locked_of(a)
    }

    /// No account has more locked than it holds, and the supply is the sum of
    /// the balances.
    pub open spec fn wf(&self) -> bool {
        &&& forall|a: AccountId| #[trigger] self.locked_of(a) <= self.balance(a)
        &&& self.supply == total(self.balances@)
    }

    /// The same balances, locks and supply.
    pub open spec fn same(&self, o: &TokenLedger) -> bool {
        &&& self.balances@ == o.balances@
        &&& self.locks@ == o.locks@
        &&& self.supply == o.supply
    }

    /// An empty ledger.
    pub fn new() -> (r: Self)
        ensures
            r.wf(),
            r.supply == 0,
            forall|a: AccountId| r.balance(a) == 0 && r.locked_of(a) == 0,
    {
        let r = TokenLedger { balances: HashMap::new(), locks: HashMap::new(), supply: 0 };
        proof {
            assert(r.balances@.dom() =~= Set::<AccountId>::empty());
            lemma_sum_empty(r.balances@, r.balances@.dom());
        }
        r
    }

    /// Balance of `a`, locked part included.
    pub fn balance_of(&self, a: AccountId) -> (r: TokenBalance)
        ensures
            r == self.balance(a),
    {
        match self.balances.get(&a) {
            Some(v) => *v,
            None => 0,
        }
    }

    /// Locked part of the balance of `a`.
    pub fn locked(&self, a: AccountId) -> (r: TokenBalance)
        ensures
            r == self.locked_of(a),
    {
        match self.locks.get(&a) {
            Some(v) => *v,
            None => 0,
        }
    }

    /// Tokens in existence.
    pub fn total_supply(&self) -> (r: TokenBalance)
        ensures
            r == self.supply,
    {
        self.supply
    }

    /// Encumbers `amount` of the available balance of `a`.
    pub fn lock(&mut self, a: AccountId, amount: TokenBalance) -> (r: Result<(), BridgeError>)
        requires
            old(self).wf(),
        ensures
            final(self).wf(),
            r is Err <==> old(self).available(a) < amount,
            r is Err ==> r == Err::<(), BridgeError>(BridgeError::InsufficientFunds)
                && final(self).same(old(self)),
            r is Ok ==> {
                &&& final(self).locks@ == old(self).locks@.insert(a, (old(self).locked_of(a) + amount) as TokenBalance)
                &&& final(self).balances@ == old(self).balances@
                &&& final(self).supply == old(self).supply
            },
    {
        let bal = self.balance_of(a);
        let cur = self.locked(a);
        if bal - cur < amount {
            return Err(BridgeError::InsufficientFunds);
        }
        self.locks.insert(a, cur + amount);
        proof {
            assert forall|b: AccountId| #[trigger] self.locked_of(b) <= self.balance(b) by {
                if b != a {
                    assert(old(self).locked_of(b) <= old(self).balance(b));
                }
            }
        }
        Ok(())
    }

    /// Releases `amount` of what is locked of `a`.
    pub fn unlock(&mut self, a: AccountId, amount: TokenBalance) -> (r: Result<(), BridgeError>)
        requires
            old(self).wf(),
        ensures
            final(self).wf(),
            r is Err <==> old(self).locked_of(a) < amount,
            r is Err ==> r == Err::<(), BridgeError>(BridgeError::InsufficientLocked)
                && final(self).same(old(self)),
            r is Ok ==> {
                &&& final(self).locks@ == old(self).locks@.insert(a, (old(self).locked_of(a) - amount) as TokenBalance)
                &&& final(self).balances@ == old(self).balances@
                &&& final(self).supply == old(self).supply
            },
    {
        let cur = self.locked(a);
        if cur < amount {
            return Err(BridgeError::InsufficientLocked);
        }
        self.locks.insert(a, cur - amount);
        proof {
            assert forall|b: AccountId| #[trigger] self.locked_of(b) <= self.balance(b) by {
                if b != a {
                    assert(old(self).locked_of(b) <= old(self).balance(b));
                }
            }
        }
        Ok(())
    }

    /// Creates `amount` new tokens on the balance of `a`.
    pub fn mint(&mut self, a: AccountId, amount: TokenBalance) -> (r: Result<(), BridgeError>)
        requires
            old(self).wf(),
        ensures
            final(self).wf(),
            r is Err <==> old(self).balance(a) + amount > TokenBalance::MAX
                || old(self).supply + amount > TokenBalance::MAX,
            r is Err ==> r == Err::<(), BridgeError>(BridgeError::Overflow)
                && final(self).same(old(self)),
            r is Ok ==> {
                &&& final(self).balances@ == old(self).balances@.insert(a, (old(self).balance(a) + amount) as TokenBalance)
                &&& final(self).locks@ == old(self).locks@
                &&& final(self).supply == old(self).supply + amount
            },
    {
        let bal = self.balance_of(a);
        let new_bal = match bal.checked_add(amount) {
            Some(v) => v,
            None => return Err(BridgeError::Overflow),
        };
        let new_supply = match self.supply.checked_add(amount) {
            Some(v) => v,
            None => return Err(BridgeError::Overflow),
        };
        proof { lemma_total_insert(self.balances@, a, new_bal); }
        self.balances.insert(a, new_bal);
        self.supply = new_supply;
        proof {
            assert forall|b: AccountId| #[trigger] self.locked_of(b) <= self.balance(b) by {
                if b != a {
                    assert(old(self).locked_of(b) <= old(self).balance(b));
                }
            }
        }
        Ok(())
    }

    /// Destroys `amount` tokens of the available balance of `a`.
    pub fn burn(&mut self, a: AccountId, amount: TokenBalance) -> (r: Result<(), BridgeError>)
        requires
            old(self).wf(),
        ensures
            final(self).wf(),
            r is Err <==> old(self).available(a) < amount,
            r is Err ==> r == Err::<(), BridgeError>(BridgeError::InsufficientFunds)
                && final(self).same(old(self)),
            r is Ok ==> {
                &&& final(self).balances@ == old(self).balances@.insert(a, (old(self).balance(a) - amount) as TokenBalance)
                &&& final(self).locks@ == old(self).locks@
                &&& final(self).supply == old(self).supply - amount
            },
    {
        let bal = self.balance_of(a);
        let cur = self.locked(a);
        if bal - cur < amount {
            return Err(BridgeError::InsufficientFunds);
        }
        proof { lemma_total_insert(self.balances@, a, (bal - amount) as TokenBalance); }
        self.balances.insert(a, bal - amount);
        self.supply = self.supply - amount;
        proof {
            assert forall|b: AccountId| #[trigger] self.locked_of(b) <= self.balance(b) by {
                if b != a {
                    assert(old(self).locked_of(b) <= old(self).balance(b));
                }
            }
        }
        Ok(())
    }
}

} // verus!
