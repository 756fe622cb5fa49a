//! The balance ledger: one amount per address.
use vstd::prelude::*;
use crate::error::ContractError;

verus! {

/// One address and its balance.
#[derive(Debug, Clone, PartialEq, Eq)]
pub struct Account {
    pub addr: String,
    pub amount: u128,
}

/// The balance recorded for `a` in `s`: the last entry for it, or zero.
pub open spec fn lookup(s: Seq<Account>, a: Seq<char>) -> nat
    decreases s.len(),
{
    if s.len() == 0 {
        0
    } else if s.last().addr@ == a {
        s.last().amount as nat
    } else {
        lookup(s.drop_last(), a)
    }
}

/// The sum of all amounts in `s`.
pub open spec fn total(s: Seq<Account>) -> nat
    decreases s.len(),
{
    if s.len() == 0 {
        0
    } else {
        (total(s.drop_last()) + s.last().amount) as nat
    }
}

/// No address has two entries.
pub open spec fn unique(s: Seq<Account>) -> bool {
    forall|i: int, j: int| 0 <= i < j < s.len() ==> s[i].addr@ != s[j].addr@
}

proof fn lemma_lookup_absent(s: Seq<Account>, a: Seq<char>)
    requires
        forall|i: int| 0 <= i < s.len() ==> s[i].addr@ != a,
    ensures
        lookup(s, a) == 0,
    decreases s.len(),
{
    if s.len() > 0 {
        lemma_lookup_absent(s.drop_last(), a);
    }
}

proof fn lemma_lookup_at(s: Seq<Account>, i: int)
    requires
        unique(s),
        0 <= i < s.len(),
    ensures
        lookup(s, s[i].addr@) == s[i].amount,
    decreases s.len(),
{
    if i < s.len() - 1 {
        lemma_lookup_at(s.drop_last(), i);
    }
}

proof fn lemma_update(s: Seq<Account>, i: int, e: Account)
    requires
        unique(s),
        0 <= i < s.len(),
        s[i].addr@ == e.addr@,
    ensures
        unique(s.update(i, e)),
        forall|b: Seq<char>|
            #![trigger lookup(s.update(i, e), b)]
            lookup(s.update(i, e), b) == if b == e.addr@ {
                e.amount as nat
            } else {
                lookup(s, b)
            },
        total(s.update(i, e)) == total(s) - s[i].amount + e.amount,
    decreases s.len(),
{
    let t = s.update(i, e);
    if i == s.len() - 1 {
        assert(t.drop_last() =~= s.drop_last());
        assert forall|b: Seq<char>| b == e.addr@ implies lookup(s, b) == lookup(s, b) by {}
        assert forall|b: Seq<char>| b != e.addr@ implies lookup(t, b) == lookup(s, b) by {}
    } else {
        lemma_update(s.drop_last(), i, e);
        assert(t.drop_last() =~= s.drop_last().update(i, e));
        assert forall|b: Seq<char>| #[trigger] lookup(t, b) == if b == e.addr@ {
            e.amount as nat
        } else {
            lookup(s, b)
        } by {
            assert(t.last() == s.last());
            assert(lookup(t.drop_last(), b) == lookup(s.drop_last().update(i, e), b));
            if b == e.addr@ {
                assert(s[i].addr@ != s[s.len() - 1].addr@);
            }
        }
    }
}

proof fn lemma_push(s: Seq<Account>, e: Account)
    requires
        unique(s),
        forall|i: int| 0 <= i < s.len() ==> s[i].addr@ != e.addr@,
    ensures
        unique(s.push(e)),
        forall|b: Seq<char>|
            #![trigger lookup(s.push(e), b)]
            lookup(s.push(e), b) == if b == e.addr@ {
                e.amount as nat
            } else {
                lookup(s, b)
            },
        total(s.push(e)) == total(s) + e.amount,
{
    assert(s.push(e).drop_last() =~= s);
}

proof fn lemma_lookup_le_total(s: Seq<Account>, a: Seq<char>)
    ensures
        lookup(s, a) <= total(s),
    decreases s.len(),
{
    if s.len() > 0 {
        lemma_lookup_le_total(s.drop_last(), a);
    }
}

/// The balances of all addresses. An address without an entry holds zero.
pub struct Ledger {
    pub accounts: Vec<Account>,
}

impl Ledger {
    pub open spec fn wf(&self) -> bool {
        unique(self.accounts@)
    }

    /// The balance of `a`.
    pub open spec fn balance(&self, a: Seq<char>) -> nat {
        lookup(self.accounts@, a)
    }

    /// The sum of all balances.
    pub open spec fn supply(&self) -> nat {
        total(self.accounts@)
    }

    /// No single balance exceeds the sum of all balances.
    pub proof fn lemma_balance_le_supply(&self, a: Seq<char>)
        ensures
            self.balance(a) <= self.supply(),
    {
        lemma_lookup_le_total(self.accounts@, a);
    }

    /// A ledger with no balances.
    pub fn new() -> (r: Ledger)
        ensures
            r.wf(),
            r.supply() == 0,
            forall|a: Seq<char>| r.balance(a) == 0,
    {
        Ledger { accounts: Vec::new() }
    }

    fn find(&self, a: &String) -> (r: Option<usize>)
        ensures
            match r {
                Some(i) => i < self.accounts@.len() && self.accounts@[i as int].addr@ == a@,
                None => forall|i: int|
                    0 <= i < self.accounts@.len() ==> self.accounts@[i].addr@ != a@,
            },
    {
        let mut i: usize = 0;
        while i < self.accounts.len()
            invariant
                i <= self.accounts@.len(),
                forall|j: int| 0 <= j < i ==> self.accounts@[j].addr@ != a@,
            decreases self.accounts@.len() - i,
        {
            if self.accounts[i].addr == *a {
                return Some(i);
            }
            i = i + 1;
        }
        None
    }

    /// The balance of `a`; zero when it has none.
    pub fn balance_of(&self, a: &String) -> (r: u128)
        requires
            self.wf(),
        ensures
            r == self.balance(a@),
    {
        match self.find(a) {
            Some(i) => {
                proof {
                    lemma_lookup_at(self.accounts@, i as int);
                }
                self.accounts[i].amount
            },
            None => {
                proof {
                    lemma_lookup_absent(self.accounts@, a@);
                }
                0
            },
        }
    }

    /// Sets the balance of `a` to `v`, leaving every other balance as it was.
    pub fn set_balance(&mut self, a: &String, v: u128)
        requires
            old(self).wf(),
        ensures
            final(self).wf(),
            final(self).balance(a@) == v,
            forall|b: Seq<char>| b != a@ ==> #[trigger] final(self).balance(b) == old(self).balance(b),
            final(self).supply() == old(self).supply() - old(self).balance(a@) + v,
    {
        let e = Account { addr: a.clone(), amount: v };
        match self.find(a) {
            Some(i) => {
                proof {
                    lemma_lookup_at(self.accounts@, i as int);
                    lemma_update(self.accounts@, i as int, e);
                }
                self.accounts.set(i, e);
            },
            None => {
                proof {
                    lemma_lookup_absent(self.accounts@, a@);
                    lemma_push(self.accounts@, e);
                }
                self.accounts.push(e);
            },
        }
    }

    /// Adds `amount` to the balance of `a`, saturating at the largest amount.
    pub fn credit(&mut self, a: &String, amount: u128)
        requires
            old(self).wf(),
        ensures
            final(self).wf(),
            final(self).balance(a@) == if old(self).balance(a@) + amount <= u128::MAX {
                old(self).balance(a@) + amount
            } else {
                u128::MAX as int
            },
            forall|b: Seq<char>| b != a@ ==> #[trigger] final(self).balance(b) == old(self).balance(b),
            final(self).supply() == old(self).supply() - old(self).balance(a@) + final(self).balance(a@),
    {
        let current = self.balance_of(a);
        self.set_balance(a, current.saturating_add(amount));
    }

    /// Takes `amount` from the balance of `a`; fails, changing nothing, when
    /// the balance is smaller.
    pub fn debit(&mut self, a: &String, amount: u128) -> (r: Result<(), ContractError>)
        requires
            old(self).wf(),
        ensures
            final(self).wf(),
            amount > old(self).balance(a@) ==> r == Err::<(), ContractError>(ContractError::InsufficientFunds)
                && *final(self) == *old(self),
            amount <= old(self).balance(a@) ==> r is Ok
                && final(self).balance(a@) == old(self).balance(a@) - amount
                && (forall|b: Seq<char>| b != a@ ==> #[trigger] final(self).balance(b) == old(self).balance(b))
                && final(self).supply() == old(self).supply() - amount,
    {
        let current = self.balance_of(a);
        match current.checked_sub(amount) {
            None => Err(ContractError::InsufficientFunds),
            Some(rest) => {
                self.set_balance(a, rest);
                Ok(())
            },
        }
    }
}

} // verus!
