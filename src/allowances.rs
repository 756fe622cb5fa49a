//! The allowance store: what a spender may still take from an owner.
//!
//! Every allowance is kept twice, under `(owner, spender)` and under
//! `(spender, owner)`, and the two copies always agree.
use vstd::prelude::*;
use crate::error::ContractError;

verus! {

/// The current block: its height and its time in nanoseconds.
#[derive(Debug, Clone, Copy, PartialEq, Eq, Structural)]
pub struct BlockInfo {
    pub height: u64,
    pub time: u64,
}

/// When an allowance stops being usable.
#[derive(Debug, Clone, Copy, PartialEq, Eq, Structural)]
pub enum Expiration {
    /// From this block height on.
    AtHeight(u64),
    /// From this time (nanoseconds) on.
    AtTime(u64),
    Never,
}

impl Expiration {
    pub open spec fn expired_at(self, block: BlockInfo) -> bool {
        match self {
            Expiration::AtHeight(h) => block.height >= h,
            Expiration::AtTime(t) => block.time >= t,
            Expiration::Never => false,
        }
    }

    pub fn is_expired(&self, block: &BlockInfo) -> (r: bool)
        ensures
            r == self.expired_at(*block),
    {
        match self {
            Expiration::AtHeight(h) => block.height >= *h,
            Expiration::AtTime(t) => block.time >= *t,
            Expiration::Never => false,
        }
    }
}

impl Default for Expiration {
    fn default() -> (r: Self)
        ensures
            r == Expiration::Never,
    {
        Expiration::Never
    }
}

/// An allowance: the amount left and when it expires.
#[derive(Debug, Clone, Copy, PartialEq, Eq, Structural)]
pub struct AllowanceResponse {
    pub allowance: u128,
    pub expires: Expiration,
}

/// What an absent allowance reads as.
pub open spec fn no_allowance() -> AllowanceResponse {
    AllowanceResponse { allowance: 0, expires: Expiration::Never }
}

impl Default for AllowanceResponse {
    fn default() -> (r: Self)
        ensures
            r == no_allowance(),
    {
        AllowanceResponse { allowance: 0, expires: Expiration::Never }
    }
}

/// One keyed slot of an index; `None` is an allowance that was removed.
#[derive(Debug, Clone, PartialEq, Eq)]
pub struct AllowanceEntry {
    pub first: String,
    pub second: String,
    pub value: Option<AllowanceResponse>,
}

/// The value stored under `(a, b)` in `s`.
pub open spec fn find_pair(s: Seq<AllowanceEntry>, a: Seq<char>, b: Seq<char>) -> Option<
    AllowanceResponse,
>
    decreases s.len(),
{
    if s.len() == 0 {
        None
    } else if s.last().first@ == a && s.last().second@ == b {
        s.last().value
    } else {
        find_pair(s.drop_last(), a, b)
    }
}

/// No key occurs twice.
pub open spec fn unique_pairs(s: Seq<AllowanceEntry>) -> bool {
    forall|i: int, j: int|
        0 <= i < j < s.len() ==> !(s[i].first@ == s[j].first@ && s[i].second@ == s[j].second@)
}

proof fn lemma_find_absent(s: Seq<AllowanceEntry>, a: Seq<char>, b: Seq<char>)
    requires
        forall|i: int| 0 <= i < s.len() ==> !(s[i].first@ == a && s[i].second@ == b),
    ensures
        find_pair(s, a, b) is None,
    decreases s.len(),
{
    if s.len() > 0 {
        lemma_find_absent(s.drop_last(), a, b);
    }
}

proof fn lemma_find_at(s: Seq<AllowanceEntry>, i: int)
    requires
        unique_pairs(s),
        0 <= i < s.len(),
    ensures
        find_pair(s, s[i].first@, s[i].second@) == s[i].value,
    decreases s.len(),
{
    if i < s.len() - 1 {
        lemma_find_at(s.drop_last(), i);
    }
}

proof fn lemma_pair_update(s: Seq<AllowanceEntry>, i: int, e: AllowanceEntry)
    requires
        unique_pairs(s),
        0 <= i < s.len(),
        s[i].first@ == e.first@,
        s[i].second@ == e.second@,
    ensures
        unique_pairs(s.update(i, e)),
        forall|a: Seq<char>, b: Seq<char>|
            #![trigger find_pair(s.update(i, e), a, b)]
            find_pair(s.update(i, e), a, b) == if a == e.first@ && b == e.second@ {
                e.value
            } else {
                find_pair(s, a, b)
            },
    decreases s.len(),
{
    let t = s.update(i, e);
    if i == s.len() - 1 {
        assert(t.drop_last() =~= s.drop_last());
    } else {
        lemma_pair_update(s.drop_last(), i, e);
        assert(t.drop_last() =~= s.drop_last().update(i, e));
        assert forall|a: Seq<char>, b: Seq<char>| #[trigger]
            find_pair(t, a, b) == if a == e.first@ && b == e.second@ {
                e.value
            } else {
                find_pair(s, a, b)
            } by {
            assert(t.last() == s.last());
            assert(find_pair(t.drop_last(), a, b) == find_pair(s.drop_last().update(i, e), a, b));
            if a == e.first@ && b == e.second@ {
                assert(!(s[i].first@ == s[s.len() - 1].first@ && s[i].second@ == s[s.len()
                    - 1].second@));
            }
        }
    }
}

proof fn lemma_pair_push(s: Seq<AllowanceEntry>, e: AllowanceEntry)
    requires
        unique_pairs(s),
        forall|i: int| 0 <= i < s.len() ==> !(s[i].first@ == e.first@ && s[i].second@ == e.second@),
    ensures
        unique_pairs(s.push(e)),
        forall|a: Seq<char>, b: Seq<char>|
            #![trigger find_pair(s.push(e), a, b)]
            find_pair(s.push(e), a, b) == if a == e.first@ && b == e.second@ {
                e.value
            } else {
                find_pair(s, a, b)
            },
{
    assert(s.push(e).drop_last() =~= s);
}

/// A table from a pair of addresses to an allowance.
pub struct AllowanceIndex {
    pub entries: Vec<AllowanceEntry>,
}

impl AllowanceIndex {
    pub open spec fn wf(&self) -> bool {
        unique_pairs(self.entries@)
    }

    pub open spec fn get_spec(&self, a: Seq<char>, b: Seq<char>) -> Option<AllowanceResponse> {
        find_pair(self.entries@, a, b)
    }

    pub fn new() -> (r: AllowanceIndex)
        ensures
            r.wf(),
            forall|a: Seq<char>, b: Seq<char>| r.get_spec(a, b) is None,
    {
        AllowanceIndex { entries: Vec::new() }
    }

    fn find(&self, a: &String, b: &String) -> (r: Option<usize>)
        ensures
            match r {
                Some(i) => i < self.entries@.len() && self.entries@[i as int].first@ == a@
                    && self.entries@[i as int].second@ == b@,
                None => forall|i: int|
                    0 <= i < self.entries@.len() ==> !(self.entries@[i].first@ == a@
                        && self.entries@[i].second@ == b@),
            },
    {
        let mut i: usize = 0;
        while i < self.entries.len()
            invariant
                i <= self.entries@.len(),
                forall|j: int|
                    0 <= j < i ==> !(self.entries@[j].first@ == a@ && self.entries@[j].second@
                        == b@),
            decreases self.entries@.len() - i,
        {
            if self.entries[i].first == *a && self.entries[i].second == *b {
                return Some(i);
            }
            i = i + 1;
        }
        None
    }

    pub fn get(&self, a: &String, b: &String) -> (r: Option<AllowanceResponse>)
        requires
            self.wf(),
        ensures
            r == self.get_spec(a@, b@),
    {
        match self.find(a, b) {
            Some(i) => {
                proof {
                    lemma_find_at(self.entries@, i as int);
                }
                self.entries[i].value
            },
            None => {
                proof {
                    lemma_find_absent(self.entries@, a@, b@);
                }
                None
            },
        }
    }

    /// Stores `v` under `(a, b)`; `None` removes the allowance.
    pub fn put(&mut self, a: &String, b: &String, v: Option<AllowanceResponse>)
        requires
            old(self).wf(),
        ensures
            final(self).wf(),
            forall|x: Seq<char>, y: Seq<char>|
                #[trigger] final(self).get_spec(x, y) == if x == a@ && y == b@ {
                    v
                } else {
                    old(self).get_spec(x, y)
                },
    {
        let e = AllowanceEntry { first: a.clone(), second: b.clone(), value: v };
        match self.find(a, b) {
            Some(i) => {
                proof {
                    lemma_pair_update(self.entries@, i as int, e);
                }
                self.entries.set(i, e);
            },
            None => {
                proof {
                    lemma_pair_push(self.entries@, e);
                }
                self.entries.push(e);
            },
        }
    }
}

/// The allowance store, indexed by owner and mirrored by spender.
pub struct Allowances {
    pub by_owner: AllowanceIndex,
    pub by_spender: AllowanceIndex,
}

impl Allowances {
    /// Both indices are well formed and each is the mirror of the other.
    pub open spec fn wf(&self) -> bool {
        &&& self.by_owner.wf()
        &&& self.by_spender.wf()
        &&& forall|o: Seq<char>, s: Seq<char>|
            #[trigger] self.by_owner.get_spec(o, s) == self.by_spender.get_spec(s, o)
    }

    /// The allowance that `owner` gave `spender`, if there is one.
    pub open spec fn entry(&self, owner: Seq<char>, spender: Seq<char>) -> Option<
        AllowanceResponse,
    > {
        self.by_owner.get_spec(owner, spender)
    }

    /// The allowance as a query reads it: absent reads as zero, never expiring.
    pub open spec fn current(&self, owner: Seq<char>, spender: Seq<char>) -> AllowanceResponse {
        match self.entry(owner, spender) {
            Some(a) => a,
            None => no_allowance(),
        }
    }

    /// Every pair but `(owner, spender)` keeps its allowance.
    pub open spec fn others_unchanged(&self, prev: &Allowances, owner: Seq<char>, spender: Seq<char>) -> bool {
        forall|o: Seq<char>, s: Seq<char>|
            !(o == owner && s == spender) ==> #[trigger] self.entry(o, s) == prev.entry(o, s)
    }

    pub fn new() -> (r: Allowances)
        ensures
            r.wf(),
            forall|o: Seq<char>, s: Seq<char>| r.entry(o, s) is None,
    {
        let r = Allowances { by_owner: AllowanceIndex::new(), by_spender: AllowanceIndex::new() };
        assert forall|o: Seq<char>, s: Seq<char>|
            #[trigger] r.by_owner.get_spec(o, s) == r.by_spender.get_spec(s, o) by {}
        r
    }

    /// Writes `v` under `(owner, spender)` in both indices.
    fn store(&mut self, owner: &String, spender: &String, v: Option<AllowanceResponse>)
        requires
            old(self).wf(),
        ensures
            final(self).wf(),
            final(self).entry(owner@, spender@) == v,
            final(self).others_unchanged(old(self), owner@, spender@),
    {
        self.by_owner.put(owner, spender, v);
        self.by_spender.put(spender, owner, v);
        assert forall|o: Seq<char>, s: Seq<char>|
            #[trigger] self.by_owner.get_spec(o, s) == self.by_spender.get_spec(s, o) by {
            assert(old(self).by_owner.get_spec(o, s) == old(self).by_spender.get_spec(s, o));
        }
    }

    /// The allowance `owner` gave `spender`; zero and never expiring when
    /// there is none.
    pub fn query(&self, owner: &String, spender: &String) -> (r: AllowanceResponse)
        requires
            self.wf(),
        ensures
            r == self.current(owner@, spender@),
    {
        match self.by_owner.get(owner, spender) {
            Some(a) => a,
            None => AllowanceResponse::default(),
        }
    }

    /// Raises the allowance `owner` gives `spender` by `amount`, and replaces
    /// its expiration when one is given.
    pub fn increase(
        &mut self,
        owner: &String,
        spender: &String,
        amount: u128,
        expires: Option<Expiration>,
        block: &BlockInfo,
    ) -> (r: Result<(), ContractError>)
        requires
            old(self).wf(),
        ensures
            final(self).wf(),
            r == increase_outcome(old(self).current(owner@, spender@), owner@, spender@, amount, expires, *block),
            r is Ok ==> final(self).entry(owner@, spender@) == Some(AllowanceResponse {
                allowance: (old(self).current(owner@, spender@).allowance + amount) as u128,
                expires: match expires {
                    Some(e) => e,
                    None => old(self).current(owner@, spender@).expires,
                },
            }) && final(self).others_unchanged(old(self), owner@, spender@),
            r is Err ==> *final(self) == *old(self),
    {
        if *spender == *owner {
            return Err(ContractError::CannotSetOwnAccount);
        }
        let mut val = self.query(owner, spender);
        if let Some(exp) = expires {
            if exp.is_expired(block) {
                return Err(ContractError::InvalidExpiration);
            }
            val.expires = exp;
        }
        val.allowance = match val.allowance.checked_add(amount) {
            Some(v) => v,
            None => return Err(ContractError::Overflow),
        };
        self.store(owner, spender, Some(val));
        Ok(())
    }

    /// Lowers the allowance `owner` gives `spender` by `amount`. When `amount`
    /// is at least the allowance, the allowance is removed.
    pub fn decrease(
        &mut self,
        owner: &String,
        spender: &String,
        amount: u128,
        expires: Option<Expiration>,
        block: &BlockInfo,
    ) -> (r: Result<(), ContractError>)
        requires
            old(self).wf(),
        ensures
            final(self).wf(),
            r == decrease_outcome(old(self).current(owner@, spender@), owner@, spender@, amount, expires, *block),
            r is Ok && amount >= old(self).current(owner@, spender@).allowance ==>
                final(self).entry(owner@, spender@) is None
                && final(self).others_unchanged(old(self), owner@, spender@),
            r is Ok && amount < old(self).current(owner@, spender@).allowance ==>
                final(self).entry(owner@, spender@) == Some(AllowanceResponse {
                    allowance: (old(self).current(owner@, spender@).allowance - amount) as u128,
                    expires: match expires {
                        Some(e) => e,
                        None => old(self).current(owner@, spender@).expires,
                    },
                }) && final(self).others_unchanged(old(self), owner@, spender@),
            r is Err ==> *final(self) == *old(self),
    {
        if *spender == *owner {
            return Err(ContractError::CannotSetOwnAccount);
        }
        let mut allowance = self.query(owner, spender);
        if amount < allowance.allowance {
            allowance.allowance = allowance.allowance - amount;
            if let Some(exp) = expires {
                if exp.is_expired(block) {
                    return Err(ContractError::InvalidExpiration);
                }
                allowance.expires = exp;
            }
            self.store(owner, spender, Some(allowance));
        } else {
            self.store(owner, spender, None);
        }
        Ok(())
    }

    /// Takes `amount` from the allowance `owner` gives `spender`. Fails when
    /// there is no allowance, when it has expired, or when it is smaller than
    /// `amount`. An allowance spent down to zero stays in place.
    pub fn deduct(&mut self, owner: &String, spender: &String, block: &BlockInfo, amount: u128) -> (r:
        Result<AllowanceResponse, ContractError>)
        requires
            old(self).wf(),
        ensures
            final(self).wf(),
            r == deduct_outcome(old(self).entry(owner@, spender@), amount, *block),
            r is Ok ==> final(self).entry(owner@, spender@) == Some(r->Ok_0)
                && final(self).others_unchanged(old(self), owner@, spender@),
            r is Err ==> *final(self) == *old(self),
    {
        let a = self.check_deduct(owner, spender, block, amount)?;
        self.store(owner, spender, Some(a));
        Ok(a)
    }

    /// What deducting `amount` would leave, without changing anything.
    pub fn check_deduct(&self, owner: &String, spender: &String, block: &BlockInfo, amount: u128) -> (r:
        Result<AllowanceResponse, ContractError>)
        requires
            self.wf(),
        ensures
            r == deduct_outcome(self.entry(owner@, spender@), amount, *block),
    {
        match self.by_owner.get(owner, spender) {
            None => Err(ContractError::NoAllowance),
            Some(mut a) => {
                if a.expires.is_expired(block) {
                    return Err(ContractError::Expired);
                }
                a.allowance = match a.allowance.checked_sub(amount) {
                    Some(v) => v,
                    None => return Err(ContractError::Overflow),
                };
                Ok(a)
            },
        }
    }
}

/// The result of raising `cur` by `amount`.
pub open spec fn increase_outcome(
    cur: AllowanceResponse,
    owner: Seq<char>,
    spender: Seq<char>,
    amount: u128,
    expires: Option<Expiration>,
    block: BlockInfo,
) -> Result<(), ContractError> {
    if spender == owner {
        Err(ContractError::CannotSetOwnAccount)
    } else if expires is Some && expires->0.expired_at(block) {
        Err(ContractError::InvalidExpiration)
    } else if cur.allowance + amount > u128::MAX {
        Err(ContractError::Overflow)
    } else {
        Ok(())
    }
}

/// The result of lowering `cur` by `amount`.
pub open spec fn decrease_outcome(
    cur: AllowanceResponse,
    owner: Seq<char>,
    spender: Seq<char>,
    amount: u128,
    expires: Option<Expiration>,
    block: BlockInfo,
) -> Result<(), ContractError> {
    if spender == owner {
        Err(ContractError::CannotSetOwnAccount)
    } else if amount < cur.allowance && expires is Some && expires->0.expired_at(block) {
        Err(ContractError::InvalidExpiration)
    } else {
        Ok(())
    }
}

/// The result of spending `amount` from the entry `cur`.
pub open spec fn deduct_outcome(cur: Option<AllowanceResponse>, amount: u128, block: BlockInfo) -> Result<
    AllowanceResponse,
    ContractError,
> {
    match cur {
        None => Err(ContractError::NoAllowance),
        Some(a) => if a.expires.expired_at(block) {
            Err(ContractError::Expired)
        } else if amount > a.allowance {
            Err(ContractError::Overflow)
        } else {
            Ok(AllowanceResponse { allowance: (a.allowance - amount) as u128, expires: a.expires })
        },
    }
}

} // verus!
