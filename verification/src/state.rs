use vstd::prelude::*;

use crate::error::ContractError;

verus! {

/// The value stored for key `k` among `es`, scanning from position `i`:
/// the value of the first entry whose key reads as `k`.
pub open spec fn assoc_get<V>(es: Seq<(String, V)>, k: Seq<char>, i: int) -> Option<V>
    decreases es.len() - i,
{
    if i < 0 || i >= es.len() {
        None
    } else if es[i].0@ == k {
        Some(es[i].1)
    } else {
        assoc_get(es, k, i + 1)
    }
}

proof fn lemma_assoc_get_skip<V>(es: Seq<(String, V)>, k: Seq<char>, j: int, i: int)
    requires
        0 <= j <= i <= es.len(),
        forall|m: int| j <= m < i ==> (#[trigger] es[m].0)@ != k,
    ensures
        assoc_get(es, k, j) == assoc_get(es, k, i),
    decreases i - j,
{
    if j < i {
        lemma_assoc_get_skip(es, k, j + 1, i);
    }
}

proof fn lemma_assoc_get_update_other<V>(
    es: Seq<(String, V)>,
    i: int,
    e: (String, V),
    p: Seq<char>,
    j: int,
)
    requires
        0 <= i < es.len(),
        0 <= j <= es.len(),
        es[i].0@ != p,
        e.0@ != p,
    ensures
        assoc_get(es.update(i, e), p, j) == assoc_get(es, p, j),
    decreases es.len() - j,
{
    if j < es.len() {
        lemma_assoc_get_update_other(es, i, e, p, j + 1);
    }
}

proof fn lemma_assoc_get_push_other<V>(es: Seq<(String, V)>, e: (String, V), p: Seq<char>, j: int)
    requires
        0 <= j <= es.len(),
        e.0@ != p,
    ensures
        assoc_get(es.push(e), p, j) == assoc_get(es, p, j),
    decreases es.len() - j,
{
    if j < es.len() {
        lemma_assoc_get_push_other(es, e, p, j + 1);
    } else {
        assert(assoc_get(es.push(e), p, j) == assoc_get(es.push(e), p, j + 1));
        assert(assoc_get(es.push(e), p, j + 1) == None::<V>);
        assert(assoc_get(es, p, j) == None::<V>);
    }
}

/// An associative container keyed by principal, with a "default value on
/// absent key" read wrapper. Backs each of the role-keyed mappings.
pub struct KvMap<V> {
    pub entries: Vec<(String, V)>,
}

impl<V: Copy> KvMap<V> {
    /// The value stored under key `k`, if any entry exists.
    pub open spec fn lookup(&self, k: Seq<char>) -> Option<V> {
        assoc_get(self.entries@, k, 0)
    }

    /// The value stored under `k`, or `d` where no entry exists.
    pub open spec fn lookup_or(&self, k: Seq<char>, d: V) -> V {
        match self.lookup(k) {
            Some(v) => v,
            None => d,
        }
    }

    pub fn new() -> (r: Self)
        ensures
            forall|k: Seq<char>| #[trigger] r.lookup(k) == None::<V>,
    {
        KvMap { entries: Vec::new() }
    }

    pub fn get(&self, k: &String) -> (r: Option<V>)
        ensures
            r == self.lookup(k@),
    {
        let n = self.entries.len();
        let mut i: usize = 0;
        while i < n
            invariant
                n == self.entries@.len(),
                0 <= i <= n,
                assoc_get(self.entries@, k@, 0) == assoc_get(self.entries@, k@, i as int),
            decreases n - i,
    {
            let e = &self.entries[i];
            if e.0 == *k {
                return Some(e.1);
            }
            i = i + 1;
        }
        None
    }

    /// Read with an explicit default for an absent key.
    pub fn get_or(&self, k: &String, d: V) -> (r: V)
        ensures
            r == self.lookup_or(k@, d),
    {
        match self.get(k) {
            Some(v) => v,
            None => d,
        }
    }

    /// Overwrite (not add) the value stored under `k`.
    pub fn set(&mut self, k: String, v: V)
        ensures
            final(self).lookup(k@) == Some(v),
            forall|p: Seq<char>| p != k@ ==> #[trigger] final(self).lookup(p) == old(self).lookup(p),
    {
        let ghost es0 = self.entries@;
        let n = self.entries.len();
        let mut i: usize = 0;
        while i < n
            invariant
                n == self.entries@.len(),
                0 <= i <= n,
                self.entries@ == es0,
                es0 == old(self).entries@,
                forall|j: int| 0 <= j < i ==> (#[trigger] es0[j].0)@ != k@,
            decreases n - i,
        {
            let e = &self.entries[i];
            if e.0 == k {
                self.entries.remove(i);
                self.entries.insert(i, (k, v));
                proof {
                    let es1 = self.entries@;
                    assert(es1 =~= es0.update(i as int, es1[i as int]));
                    lemma_assoc_get_skip(es1, k@, 0, i as int);
                    assert(assoc_get(es1, k@, i as int) == Some(es1[i as int].1));
                    assert(old(self).entries@ == es0);
                    assert forall|p: Seq<char>| p != k@ implies #[trigger] self.lookup(p)
                        == old(self).lookup(p) by {
                        lemma_assoc_get_update_other(es0, i as int, es1[i as int], p, 0);
                        assert(es0.update(i as int, es1[i as int]) == es1);
                        assert(self.lookup(p) == assoc_get(es1, p, 0));
                        assert(old(self).lookup(p) == assoc_get(es0, p, 0));
                    }
                }
                return;
            }
            i = i + 1;
        }
        self.entries.push((k, v));
        proof {
            let es1 = self.entries@;
            lemma_assoc_get_skip(es1, k@, 0, n as int);
            assert(assoc_get(es1, k@, n as int) == Some(es1[n as int].1));
            assert forall|p: Seq<char>| p != k@ implies #[trigger] assoc_get(es1, p, 0)
                == assoc_get(es0, p, 0) by {
                lemma_assoc_get_push_other(es0, es1[n as int], p, 0);
            }
        }
    }
}

impl KvMap<u128> {
    /// Atomic check-and-decrement: reads the current allowance (default 0),
    /// fails with `InsufficientAllowance` and writes nothing when the
    /// decrement would go negative, and otherwise stores and returns the
    /// decremented allowance. This is the only path that decreases an
    /// allowance.
    pub fn consume(&mut self, actor: &String, amount: u128) -> (r: Result<u128, ContractError>)
        ensures
            match r {
                Ok(n) => {
                    &&& old(self).lookup_or(actor@, 0) >= amount
                    &&& n == old(self).lookup_or(actor@, 0) - amount
                    &&& final(self).lookup(actor@) == Some(n)
                    &&& forall|p: Seq<char>| p != actor@ ==> #[trigger] final(self).lookup(p)
                        == old(self).lookup(p)
                },
                Err(e) => {
                    &&& *final(self) == *old(self)
                    &&& e == ContractError::InsufficientAllowance
                    &&& old(self).lookup_or(actor@, 0) < amount
                },
            },
    {
        let cur = self.get_or(actor, 0);
        if cur < amount {
            return Err(ContractError::InsufficientAllowance);
        }
        let n = cur - amount;
        self.set(actor.clone(), n);
        Ok(n)
    }
}

/// The singleton configuration record: owner identity, global freeze flag,
/// and the denomination of the managed asset.
#[derive(Clone, Debug, PartialEq, Eq)]
pub struct Config {
    pub owner: String,
    pub is_frozen: bool,
    pub denom: String,
}

/// The whole persisted state of the core: the configuration singleton and
/// the five independent principal-keyed mappings. Absent keys read as 0 for
/// allowances and `false` for flags.
pub struct State {
    pub config: Config,
    pub minter_allowances: KvMap<u128>,
    pub burner_allowances: KvMap<u128>,
    pub freezer_allowances: KvMap<bool>,
    pub blacklister_allowances: KvMap<bool>,
    pub blacklisted_addresses: KvMap<bool>,
}

impl State {
    /// How much principal `p` may still mint.
    pub open spec fn minter_allowance(&self, p: Seq<char>) -> u128 {
        self.minter_allowances.lookup_or(p, 0)
    }

    /// How much principal `p` may still burn.
    pub open spec fn burner_allowance(&self, p: Seq<char>) -> u128 {
        self.burner_allowances.lookup_or(p, 0)
    }

    /// Whether principal `p` may toggle the global freeze flag.
    pub open spec fn freezer_permission(&self, p: Seq<char>) -> bool {
        self.freezer_allowances.lookup_or(p, false)
    }

    /// Whether principal `p` may change blacklist entries.
    pub open spec fn blacklister_permission(&self, p: Seq<char>) -> bool {
        self.blacklister_allowances.lookup_or(p, false)
    }

    /// Whether principal `p` is currently restricted.
    pub open spec fn blacklisted(&self, p: Seq<char>) -> bool {
        self.blacklisted_addresses.lookup_or(p, false)
    }
}

} // verus!
