use vstd::prelude::*;
use vstd::utf8::encode_utf8;

use crate::error::ContractError;
use crate::msg::{is_valid_name, is_valid_symbol, spec_valid_name, spec_valid_symbol};

verus! {

/// The singleton token description, created once at initialization and
/// immutable thereafter.
#[derive(Clone, Debug, PartialEq, Eq)]
pub struct TokenInfo {
    pub name: String,
    pub symbol: String,
    pub decimals: u8,
    pub total_supply: u128,
}

impl TokenInfo {
    pub open spec fn valid(&self) -> bool {
        &&& spec_valid_name(encode_utf8(self.name@))
        &&& spec_valid_symbol(encode_utf8(self.symbol@))
        &&& self.decimals <= 18
    }

    /// Run-time form of `valid`, for callers that hold a description of
    /// unknown provenance.
    pub fn check_valid(&self) -> (r: bool)
        ensures
            r == self.valid(),
    {
        is_valid_name(self.name.as_str()) && is_valid_symbol(self.symbol.as_str())
            && self.decimals <= 18
    }
}

/// Write-once versioning metadata, recorded at construction and never
/// mutated.
#[derive(Clone, Debug, PartialEq, Eq)]
pub struct ContractVersion {
    pub contract: String,
    pub version: String,
}

// ---------------------------------------------------------------------------
// Balances: an association list from account identifier to amount, with
// unique keys. An absent key reads as zero.
// ---------------------------------------------------------------------------

pub open spec fn bal_keys_unique(s: Seq<(String, u128)>) -> bool {
    forall|i: int, j: int| 0 <= i < j < s.len() ==> s[i].0@ != s[j].0@
}

pub open spec fn bal_has(s: Seq<(String, u128)>, k: Seq<char>) -> bool {
    exists|i: int| 0 <= i < s.len() && s[i].0@ == k
}

pub open spec fn bal_idx(s: Seq<(String, u128)>, k: Seq<char>) -> int {
    choose|i: int| 0 <= i < s.len() && s[i].0@ == k
}

pub open spec fn bal_lookup(s: Seq<(String, u128)>, k: Seq<char>) -> Option<u128> {
    if bal_has(s, k) {
        Some(s[bal_idx(s, k)].1)
    } else {
        None
    }
}

/// The balance an account reads: its stored amount, or zero when absent.
pub open spec fn bal_of(s: Seq<(String, u128)>, k: Seq<char>) -> u128 {
    match bal_lookup(s, k) {
        Some(v) => v,
        None => 0,
    }
}

/// Every account's balance but `k0` reads the same in `t` as in `s`.
pub open spec fn bal_unchanged_except(
    s: Seq<(String, u128)>,
    t: Seq<(String, u128)>,
    k0: Seq<char>,
) -> bool {
    forall|k: Seq<char>| k != k0 ==> bal_of(t, k) == bal_of(s, k)
}

/// The total amount stored across all accounts.
pub open spec fn sum_balances(s: Seq<(String, u128)>) -> int
    decreases s.len(),
{
    if s.len() == 0 {
        0
    } else {
        sum_balances(s.drop_last()) + s.last().1
    }
}

pub proof fn lemma_bal_lookup_at(s: Seq<(String, u128)>, i: int)
    requires
        bal_keys_unique(s),
        0 <= i < s.len(),
    ensures
        bal_lookup(s, s[i].0@) == Some(s[i].1),
{
    assert(bal_has(s, s[i].0@));
    let j = bal_idx(s, s[i].0@);
    assert(0 <= j < s.len() && s[j].0@ == s[i].0@);
    assert(i == j);
}

pub proof fn lemma_sum_nonneg(s: Seq<(String, u128)>)
    ensures
        sum_balances(s) >= 0,
    decreases s.len(),
{
    if s.len() != 0 {
        lemma_sum_nonneg(s.drop_last());
    }
}

pub proof fn lemma_sum_update(s: Seq<(String, u128)>, i: int, x: (String, u128))
    requires
        0 <= i < s.len(),
    ensures
        sum_balances(s.update(i, x)) == sum_balances(s) - s[i].1 + x.1,
    decreases s.len(),
{
    let t = s.update(i, x);
    if i == s.len() - 1 {
        assert(t.drop_last() =~= s.drop_last());
    } else {
        assert(t.drop_last() =~= s.drop_last().update(i, x));
        lemma_sum_update(s.drop_last(), i, x);
        assert(t.last() == s.last());
    }
}

pub proof fn lemma_sum_push(s: Seq<(String, u128)>, x: (String, u128))
    ensures
        sum_balances(s.push(x)) == sum_balances(s) + x.1,
{
    assert(s.push(x).drop_last() =~= s);
}

pub proof fn lemma_sum_entry_bound(s: Seq<(String, u128)>, i: int)
    requires
        0 <= i < s.len(),
    ensures
        s[i].1 <= sum_balances(s),
    decreases s.len(),
{
    if i == s.len() - 1 {
        lemma_sum_nonneg(s.drop_last());
    } else {
        lemma_sum_entry_bound(s.drop_last(), i);
        assert(s.drop_last()[i] == s[i]);
    }
}

pub proof fn lemma_sum_two_entries_bound(s: Seq<(String, u128)>, i: int, j: int)
    requires
        0 <= i < s.len(),
        0 <= j < s.len(),
        i != j,
    ensures
        s[i].1 + s[j].1 <= sum_balances(s),
    decreases s.len(),
{
    if j == s.len() - 1 {
        lemma_sum_entry_bound(s.drop_last(), i);
        assert(s.drop_last()[i] == s[i]);
    } else if i == s.len() - 1 {
        lemma_sum_entry_bound(s.drop_last(), j);
        assert(s.drop_last()[j] == s[j]);
    } else {
        lemma_sum_two_entries_bound(s.drop_last(), i, j);
        assert(s.drop_last()[i] == s[i]);
        assert(s.drop_last()[j] == s[j]);
    }
}

/// A stored balance never exceeds the stored total.
pub proof fn lemma_bal_of_le_sum(s: Seq<(String, u128)>, k: Seq<char>)
    ensures
        bal_of(s, k) <= sum_balances(s),
{
    if bal_has(s, k) {
        lemma_sum_entry_bound(s, bal_idx(s, k));
    } else {
        lemma_sum_nonneg(s);
    }
}

/// Two distinct accounts' balances never exceed the stored total together.
pub proof fn lemma_bal_of_two_le_sum(s: Seq<(String, u128)>, k1: Seq<char>, k2: Seq<char>)
    requires
        k1 != k2,
    ensures
        bal_of(s, k1) + bal_of(s, k2) <= sum_balances(s),
{
    if bal_has(s, k1) && bal_has(s, k2) {
        let i = bal_idx(s, k1);
        let j = bal_idx(s, k2);
        assert(s[i].0@ == k1 && s[j].0@ == k2);
        lemma_sum_two_entries_bound(s, i, j);
    } else if bal_has(s, k1) {
        lemma_bal_of_le_sum(s, k1);
    } else {
        lemma_bal_of_le_sum(s, k2);
    }
}

/// Replacing entry `i` with an entry for the same account changes only that
/// account's reading and shifts the total by the difference.
pub proof fn lemma_bal_update_pointwise(s: Seq<(String, u128)>, i: int, x: (String, u128))
    requires
        bal_keys_unique(s),
        0 <= i < s.len(),
        x.0@ == s[i].0@,
    ensures
        bal_keys_unique(s.update(i, x)),
        bal_of(s.update(i, x), x.0@) == x.1,
        bal_unchanged_except(s, s.update(i, x), x.0@),
        sum_balances(s.update(i, x)) == sum_balances(s) - s[i].1 + x.1,
{
    let t = s.update(i, x);
    lemma_sum_update(s, i, x);
    assert(bal_keys_unique(t));
    lemma_bal_lookup_at(t, i);
    assert forall|k: Seq<char>| k != x.0@ implies bal_of(t, k) == bal_of(s, k) by {
        if bal_has(s, k) {
            let j = bal_idx(s, k);
            assert(s[j].0@ == k);
            assert(j != i);
            lemma_bal_lookup_at(s, j);
            lemma_bal_lookup_at(t, j);
        } else if bal_has(t, k) {
            let j = bal_idx(t, k);
            assert(t[j].0@ == k);
            assert(j != i);
            assert(s[j].0@ == k);
        }
    }
}

/// Appending an entry for a fresh account changes only that account's
/// reading and adds its amount to the total.
pub proof fn lemma_bal_push_pointwise(s: Seq<(String, u128)>, x: (String, u128))
    requires
        bal_keys_unique(s),
        !bal_has(s, x.0@),
    ensures
        bal_keys_unique(s.push(x)),
        bal_of(s.push(x), x.0@) == x.1,
        bal_unchanged_except(s, s.push(x), x.0@),
        sum_balances(s.push(x)) == sum_balances(s) + x.1,
{
    let t = s.push(x);
    lemma_sum_push(s, x);
    assert forall|i: int, j: int| 0 <= i < j < t.len() implies t[i].0@ != t[j].0@ by {
        if j == s.len() {
            assert(t[i] == s[i]);
        }
    }
    lemma_bal_lookup_at(t, s.len() as int);
    assert forall|k: Seq<char>| k != x.0@ implies bal_of(t, k) == bal_of(s, k) by {
        if bal_has(s, k) {
            let j = bal_idx(s, k);
            assert(t[j] == s[j]);
            lemma_bal_lookup_at(s, j);
            lemma_bal_lookup_at(t, j);
        } else if bal_has(t, k) {
            let j = bal_idx(t, k);
            assert(t[j].0@ == k);
            assert(j < s.len());
            assert(s[j].0@ == k);
        }
    }
}

// ---------------------------------------------------------------------------
// Allowances: an association list from an ordered (owner, spender) pair to
// an amount, with unique key pairs. Here absence is meaningful: a delegated
// transfer without an entry is refused outright.
// ---------------------------------------------------------------------------

pub open spec fn alw_keys_unique(s: Seq<(String, String, u128)>) -> bool {
    forall|i: int, j: int|
        0 <= i < j < s.len() ==> !(s[i].0@ == s[j].0@ && s[i].1@ == s[j].1@)
}

pub open spec fn alw_has(s: Seq<(String, String, u128)>, o: Seq<char>, p: Seq<char>) -> bool {
    exists|i: int| 0 <= i < s.len() && s[i].0@ == o && s[i].1@ == p
}

pub open spec fn alw_idx(s: Seq<(String, String, u128)>, o: Seq<char>, p: Seq<char>) -> int {
    choose|i: int| 0 <= i < s.len() && s[i].0@ == o && s[i].1@ == p
}

pub open spec fn alw_lookup(
    s: Seq<(String, String, u128)>,
    o: Seq<char>,
    p: Seq<char>,
) -> Option<u128> {
    if alw_has(s, o, p) {
        Some(s[alw_idx(s, o, p)].2)
    } else {
        None
    }
}

/// The allowance a pair reads: its stored amount, or zero when absent.
pub open spec fn alw_of(s: Seq<(String, String, u128)>, o: Seq<char>, p: Seq<char>) -> u128 {
    match alw_lookup(s, o, p) {
        Some(v) => v,
        None => 0,
    }
}

/// Every pair's entry but `(o0, p0)` reads the same in `t` as in `s`.
pub open spec fn alw_unchanged_except(
    s: Seq<(String, String, u128)>,
    t: Seq<(String, String, u128)>,
    o0: Seq<char>,
    p0: Seq<char>,
) -> bool {
    forall|o: Seq<char>, p: Seq<char>|
        !(o == o0 && p == p0) ==> alw_lookup(t, o, p) == alw_lookup(s, o, p)
}

pub proof fn lemma_alw_lookup_at(s: Seq<(String, String, u128)>, i: int)
    requires
        alw_keys_unique(s),
        0 <= i < s.len(),
    ensures
        alw_lookup(s, s[i].0@, s[i].1@) == Some(s[i].2),
{
    assert(alw_has(s, s[i].0@, s[i].1@));
    let j = alw_idx(s, s[i].0@, s[i].1@);
    assert(0 <= j < s.len() && s[j].0@ == s[i].0@ && s[j].1@ == s[i].1@);
    assert(i == j);
}

/// Replacing entry `i` with an entry for the same pair changes only that
/// pair's reading.
pub proof fn lemma_alw_update_pointwise(
    s: Seq<(String, String, u128)>,
    i: int,
    x: (String, String, u128),
)
    requires
        alw_keys_unique(s),
        0 <= i < s.len(),
        x.0@ == s[i].0@,
        x.1@ == s[i].1@,
    ensures
        alw_keys_unique(s.update(i, x)),
        alw_lookup(s.update(i, x), x.0@, x.1@) == Some(x.2),
        alw_unchanged_except(s, s.update(i, x), x.0@, x.1@),
{
    let t = s.update(i, x);
    assert(alw_keys_unique(t));
    lemma_alw_lookup_at(t, i);
    assert forall|o: Seq<char>, p: Seq<char>|
        !(o == x.0@ && p == x.1@) implies alw_lookup(t, o, p) == alw_lookup(s, o, p) by {
        if alw_has(s, o, p) {
            let j = alw_idx(s, o, p);
            assert(s[j].0@ == o && s[j].1@ == p);
            assert(j != i);
            lemma_alw_lookup_at(s, j);
            lemma_alw_lookup_at(t, j);
        } else if alw_has(t, o, p) {
            let j = alw_idx(t, o, p);
            assert(t[j].0@ == o && t[j].1@ == p);
            assert(j != i);
            assert(s[j].0@ == o && s[j].1@ == p);
        }
    }
}

/// Appending an entry for a fresh pair changes only that pair's reading.
pub proof fn lemma_alw_push_pointwise(s: Seq<(String, String, u128)>, x: (String, String, u128))
    requires
        alw_keys_unique(s),
        !alw_has(s, x.0@, x.1@),
    ensures
        alw_keys_unique(s.push(x)),
        alw_lookup(s.push(x), x.0@, x.1@) == Some(x.2),
        alw_unchanged_except(s, s.push(x), x.0@, x.1@),
{
    let t = s.push(x);
    assert forall|i: int, j: int|
        0 <= i < j < t.len() implies !(t[i].0@ == t[j].0@ && t[i].1@ == t[j].1@) by {
        if j == s.len() {
            assert(t[i] == s[i]);
        }
    }
    lemma_alw_lookup_at(t, s.len() as int);
    assert forall|o: Seq<char>, p: Seq<char>|
        !(o == x.0@ && p == x.1@) implies alw_lookup(t, o, p) == alw_lookup(s, o, p) by {
        if alw_has(s, o, p) {
            let j = alw_idx(s, o, p);
            assert(t[j] == s[j]);
            lemma_alw_lookup_at(s, j);
            lemma_alw_lookup_at(t, j);
        } else if alw_has(t, o, p) {
            let j = alw_idx(t, o, p);
            assert(t[j].0@ == o && t[j].1@ == p);
            assert(j < s.len());
            assert(s[j].0@ == o && s[j].1@ == p);
        }
    }
}

/// The reverse index reads exactly what the forward index reads, pair by
/// pair: both indexes always hold the same entries, keyed in opposite order.
pub open spec fn allowances_mirrored(
    fwd: Seq<(String, String, u128)>,
    rev: Seq<(String, String, u128)>,
) -> bool {
    forall|o: Seq<char>, p: Seq<char>| #[trigger] alw_lookup(fwd, o, p) == alw_lookup(rev, p, o)
}

/// Deleting entry `i` removes its pair's reading and leaves every other
/// pair's reading unchanged.
pub proof fn lemma_alw_remove_pointwise(s: Seq<(String, String, u128)>, i: int)
    requires
        alw_keys_unique(s),
        0 <= i < s.len(),
    ensures
        alw_keys_unique(s.remove(i)),
        alw_lookup(s.remove(i), s[i].0@, s[i].1@) == None::<u128>,
        alw_unchanged_except(s, s.remove(i), s[i].0@, s[i].1@),
{
    let t = s.remove(i);
    assert(forall|n: int| 0 <= n < i ==> t[n] == s[n]);
    assert(forall|n: int| i <= n < t.len() ==> t[n] == s[n + 1]);
    assert forall|m: int, n: int|
        0 <= m < n < t.len() implies !(t[m].0@ == t[n].0@ && t[m].1@ == t[n].1@) by {
        let m0 = if m < i { m } else { m + 1 };
        let n0 = if n < i { n } else { n + 1 };
        assert(t[m] == s[m0] && t[n] == s[n0]);
    }
    assert forall|n: int|
        0 <= n < t.len() implies !(t[n].0@ == s[i].0@ && t[n].1@ == s[i].1@) by {
        let n0 = if n < i { n } else { n + 1 };
        assert(t[n] == s[n0] && n0 != i);
    }
    assert forall|o: Seq<char>, p: Seq<char>|
        !(o == s[i].0@ && p == s[i].1@) implies alw_lookup(t, o, p) == alw_lookup(s, o, p) by {
        if alw_has(s, o, p) {
            let j = alw_idx(s, o, p);
            assert(s[j].0@ == o && s[j].1@ == p);
            assert(j != i);
            let j2 = if j < i { j } else { j - 1 };
            assert(t[j2] == s[j]);
            lemma_alw_lookup_at(s, j);
            lemma_alw_lookup_at(t, j2);
        } else if alw_has(t, o, p) {
            let j = alw_idx(t, o, p);
            assert(t[j].0@ == o && t[j].1@ == p);
            let j0 = if j < i { j } else { j + 1 };
            assert(t[j] == s[j0]);
            assert(s[j0].0@ == o && s[j0].1@ == p);
        }
    }
}

// ---------------------------------------------------------------------------
// The ledger.
// ---------------------------------------------------------------------------

/// The whole persistent state of one token instance: the immutable token
/// description, the write-once version record, the balance store, and the
/// allowance store kept in two mirrored indexes - forward by
/// (owner, spender) and reverse by (spender, owner) - so a spender's
/// obligations can be listed by key without a full scan.
#[derive(Clone, Debug, PartialEq, Eq)]
pub struct Ledger {
    pub token: TokenInfo,
    pub version: ContractVersion,
    pub balances: Vec<(String, u128)>,
    pub allowances: Vec<(String, String, u128)>,
    pub allowances_spender: Vec<(String, String, u128)>,
}

impl Ledger {
    /// Structural well-formedness: unique keys in every store, a valid token
    /// description, and the two allowance indexes mirroring each other
    /// exactly.
    pub open spec fn wf(&self) -> bool {
        &&& self.token.valid()
        &&& bal_keys_unique(self.balances@)
        &&& alw_keys_unique(self.allowances@)
        &&& alw_keys_unique(self.allowances_spender@)
        &&& allowances_mirrored(self.allowances@, self.allowances_spender@)
    }

    /// Conservation of supply: the balances sum exactly to the recorded
    /// total supply.
    pub open spec fn conserves(&self) -> bool {
        sum_balances(self.balances@) == self.token.total_supply as int
    }

    pub open spec fn spec_balance_of(&self, k: Seq<char>) -> u128 {
        bal_of(self.balances@, k)
    }

    pub open spec fn spec_allowance(&self, o: Seq<char>, p: Seq<char>) -> u128 {
        alw_of(self.allowances@, o, p)
    }

    /// Everything but the balance store is the same in both states.
    pub open spec fn same_except_balances(&self, other: &Ledger) -> bool {
        &&& self.token == other.token
        &&& self.version == other.version
        &&& self.allowances == other.allowances
        &&& self.allowances_spender == other.allowances_spender
    }

    /// Everything but the two allowance indexes is the same in both states.
    pub open spec fn same_except_allowances(&self, other: &Ledger) -> bool {
        &&& self.token == other.token
        &&& self.version == other.version
        &&& self.balances == other.balances
    }

    /// The stored balance of `account`, zero when the account is unknown.
    pub fn balance_of(&self, account: &String) -> (r: u128)
        requires
            self.wf(),
        ensures
            r == self.spec_balance_of(account@),
    {
        match find_balance(&self.balances, account) {
            Some(i) => {
                proof {
                    lemma_bal_lookup_at(self.balances@, i as int);
                }
                self.balances[i].1
            },
            None => 0,
        }
    }

    /// The stored allowance entry for (owner, spender), `None` when absent.
    /// Absence matters: a delegated transfer without an entry is refused,
    /// while a zero entry merely fails the subtraction.
    pub fn allowance_lookup(&self, owner: &String, spender: &String) -> (r: Option<u128>)
        requires
            self.wf(),
        ensures
            r == alw_lookup(self.allowances@, owner@, spender@),
    {
        match find_allowance(&self.allowances, owner, spender) {
            Some(i) => {
                proof {
                    lemma_alw_lookup_at(self.allowances@, i as int);
                }
                Some(self.allowances[i].2)
            },
            None => None,
        }
    }

    /// The stored allowance for (owner, spender), zero when absent.
    pub fn allowance_of(&self, owner: &String, spender: &String) -> (r: u128)
        requires
            self.wf(),
        ensures
            r == self.spec_allowance(owner@, spender@),
    {
        match find_allowance(&self.allowances, owner, spender) {
            Some(i) => {
                proof {
                    lemma_alw_lookup_at(self.allowances@, i as int);
                }
                self.allowances[i].2
            },
            None => 0,
        }
    }

    /// The reverse-index entry for (spender, owner), `None` when absent.
    pub fn allowance_lookup_spender(&self, spender: &String, owner: &String) -> (r: Option<u128>)
        requires
            self.wf(),
        ensures
            r == alw_lookup(self.allowances_spender@, spender@, owner@),
    {
        match find_allowance(&self.allowances_spender, spender, owner) {
            Some(i) => {
                proof {
                    lemma_alw_lookup_at(self.allowances_spender@, i as int);
                }
                Some(self.allowances_spender[i].2)
            },
            None => None,
        }
    }

    /// The reverse-index reading for (spender, owner), zero when absent.
    pub fn allowance_of_spender(&self, spender: &String, owner: &String) -> (r: u128)
        requires
            self.wf(),
        ensures
            r == alw_of(self.allowances_spender@, spender@, owner@),
    {
        match find_allowance(&self.allowances_spender, spender, owner) {
            Some(i) => {
                proof {
                    lemma_alw_lookup_at(self.allowances_spender@, i as int);
                }
                self.allowances_spender[i].2
            },
            None => 0,
        }
    }

    /// Adds `amount` to `account`'s balance. The only failure is overflow of
    /// the 128-bit range; the state is then unchanged.
    pub fn credit(&mut self, account: &String, amount: u128) -> (r: Result<(), ContractError>)
        requires
            old(self).wf(),
        ensures
            final(self).wf(),
            final(self).same_except_balances(old(self)),
            match r {
                Ok(_) => {
                    &&& bal_of(old(self).balances@, account@) + amount <= u128::MAX
                    &&& bal_of(final(self).balances@, account@) == bal_of(
                        old(self).balances@,
                        account@,
                    ) + amount
                    &&& bal_unchanged_except(old(self).balances@, final(self).balances@, account@)
                    &&& sum_balances(final(self).balances@) == sum_balances(old(self).balances@)
                        + amount
                },
                Err(e) => {
                    &&& e == ContractError::Overflow
                    &&& bal_of(old(self).balances@, account@) + amount > u128::MAX
                    &&& *final(self) == *old(self)
                },
            },
    {
        match find_balance(&self.balances, account) {
            Some(i) => {
                proof {
                    lemma_bal_lookup_at(self.balances@, i as int);
                }
                let current: u128 = self.balances[i].1;
                if amount > u128::MAX - current {
                    return Err(ContractError::Overflow);
                }
                let key = self.balances[i].0.clone();
                let ghost pre = self.balances@;
                self.balances[i] = (key, current + amount);
                proof {
                    lemma_bal_update_pointwise(pre, i as int, self.balances@[i as int]);
                }
                Ok(())
            },
            None => {
                let ghost pre = self.balances@;
                self.balances.push((account.clone(), amount));
                proof {
                    lemma_bal_push_pointwise(pre, self.balances@.last());
                }
                Ok(())
            },
        }
    }

    /// Removes `amount` from `account`'s balance. Fails with
    /// `InsufficientFunds` when the balance is smaller than `amount`
    /// (unsigned subtraction is checked, never wrapping); the state is then
    /// unchanged.
    pub fn debit(&mut self, account: &String, amount: u128) -> (r: Result<(), ContractError>)
        requires
            old(self).wf(),
        ensures
            final(self).wf(),
            final(self).same_except_balances(old(self)),
            match r {
                Ok(_) => {
                    &&& amount <= bal_of(old(self).balances@, account@)
                    &&& bal_of(final(self).balances@, account@) == bal_of(
                        old(self).balances@,
                        account@,
                    ) - amount
                    &&& bal_unchanged_except(old(self).balances@, final(self).balances@, account@)
                    &&& sum_balances(final(self).balances@) == sum_balances(old(self).balances@)
                        - amount
                },
                Err(e) => {
                    &&& e == ContractError::InsufficientFunds
                    &&& amount > bal_of(old(self).balances@, account@)
                    &&& *final(self) == *old(self)
                },
            },
    {
        match find_balance(&self.balances, account) {
            Some(i) => {
                proof {
                    lemma_bal_lookup_at(self.balances@, i as int);
                }
                let current: u128 = self.balances[i].1;
                if amount > current {
                    return Err(ContractError::InsufficientFunds);
                }
                let key = self.balances[i].0.clone();
                let ghost pre = self.balances@;
                self.balances[i] = (key, current - amount);
                proof {
                    lemma_bal_update_pointwise(pre, i as int, self.balances@[i as int]);
                }
                Ok(())
            },
            None => {
                if amount > 0 {
                    return Err(ContractError::InsufficientFunds);
                }
                Ok(())
            },
        }
    }

    /// Writes `value` for (owner, spender) into both the forward and the
    /// reverse index; the two are never written separately.
    pub fn set_allowance(&mut self, owner: &String, spender: &String, value: u128)
        requires
            old(self).wf(),
        ensures
            final(self).wf(),
            final(self).same_except_allowances(old(self)),
            alw_lookup(final(self).allowances@, owner@, spender@) == Some(value),
            alw_unchanged_except(old(self).allowances@, final(self).allowances@, owner@, spender@),
    {
        set_allowance_entry(&mut self.allowances, owner, spender, value);
        set_allowance_entry(&mut self.allowances_spender, spender, owner, value);
    }

    /// Run-time form of `wf`, so a caller that got this ledger from an
    /// untrusted place (say, the host's storage) can test the invariant
    /// before relying on it.
    pub fn well_formed(&self) -> (r: bool)
        ensures
            r == self.wf(),
    {
        if !self.token.check_valid() {
            return false;
        }
        if !bal_keys_unique_exec(&self.balances) {
            return false;
        }
        if !alw_keys_unique_exec(&self.allowances) {
            return false;
        }
        if !alw_keys_unique_exec(&self.allowances_spender) {
            return false;
        }
        mirrored_exec(&self.allowances, &self.allowances_spender)
    }

    /// Deletes the (owner, spender) entry from both indexes (rather than
    /// storing zero), so storage only holds active allowances.
    pub fn remove_allowance(&mut self, owner: &String, spender: &String)
        requires
            old(self).wf(),
        ensures
            final(self).wf(),
            final(self).same_except_allowances(old(self)),
            alw_lookup(final(self).allowances@, owner@, spender@) == None::<u128>,
            alw_unchanged_except(old(self).allowances@, final(self).allowances@, owner@, spender@),
    {
        remove_allowance_entry(&mut self.allowances, owner, spender);
        remove_allowance_entry(&mut self.allowances_spender, spender, owner);
    }
}

// ---------------------------------------------------------------------------
// Store helpers on the underlying association lists.
// ---------------------------------------------------------------------------

fn find_balance(v: &Vec<(String, u128)>, account: &String) -> (r: Option<usize>)
    ensures
        match r {
            Some(i) => i < v@.len() && v@[i as int].0@ == account@,
            None => !bal_has(v@, account@),
        },
{
    let mut i: usize = 0;
    while i < v.len()
        invariant
            i <= v@.len(),
            forall|j: int| 0 <= j < i ==> v@[j].0@ != account@,
        decreases v@.len() - i,
    {
        if v[i].0.eq(account) {
            return Some(i);
        }
        i = i + 1;
    }
    None
}

fn find_allowance(
    v: &Vec<(String, String, u128)>,
    owner: &String,
    spender: &String,
) -> (r: Option<usize>)
    ensures
        match r {
            Some(i) => i < v@.len() && v@[i as int].0@ == owner@ && v@[i as int].1@ == spender@,
            None => !alw_has(v@, owner@, spender@),
        },
{
    let mut i: usize = 0;
    while i < v.len()
        invariant
            i <= v@.len(),
            forall|j: int| 0 <= j < i ==> !(v@[j].0@ == owner@ && v@[j].1@ == spender@),
        decreases v@.len() - i,
    {
        if v[i].0.eq(owner) && v[i].1.eq(spender) {
            return Some(i);
        }
        i = i + 1;
    }
    None
}

fn set_allowance_entry(
    v: &mut Vec<(String, String, u128)>,
    owner: &String,
    spender: &String,
    value: u128,
)
    requires
        alw_keys_unique(old(v)@),
    ensures
        alw_keys_unique(final(v)@),
        alw_lookup(final(v)@, owner@, spender@) == Some(value),
        alw_unchanged_except(old(v)@, final(v)@, owner@, spender@),
{
    match find_allowance(v, owner, spender) {
        Some(i) => {
            let o = v[i].0.clone();
            let p = v[i].1.clone();
            let ghost pre = v@;
            v[i] = (o, p, value);
            proof {
                lemma_alw_update_pointwise(pre, i as int, v@[i as int]);
            }
        },
        None => {
            let ghost pre = v@;
            v.push((owner.clone(), spender.clone(), value));
            proof {
                lemma_alw_push_pointwise(pre, v@.last());
            }
        },
    }
}

fn bal_keys_unique_exec(v: &Vec<(String, u128)>) -> (r: bool)
    ensures
        r == bal_keys_unique(v@),
{
    let mut i: usize = 0;
    while i < v.len()
        invariant
            i <= v@.len(),
            forall|a: int, b: int| 0 <= a < b < v@.len() && a < i ==> v@[a].0@ != v@[b].0@,
        decreases v@.len() - i,
    {
        let mut j: usize = i + 1;
        while j < v.len()
            invariant
                i < j <= v@.len(),
                forall|b: int| i < b < j ==> v@[i as int].0@ != v@[b].0@,
            decreases v@.len() - j,
        {
            if v[i].0.eq(&v[j].0) {
                return false;
            }
            j = j + 1;
        }
        i = i + 1;
    }
    true
}

fn alw_keys_unique_exec(v: &Vec<(String, String, u128)>) -> (r: bool)
    ensures
        r == alw_keys_unique(v@),
{
    let mut i: usize = 0;
    while i < v.len()
        invariant
            i <= v@.len(),
            forall|a: int, b: int|
                0 <= a < b < v@.len() && a < i ==> !(v@[a].0@ == v@[b].0@ && v@[a].1@ == v@[b].1@),
        decreases v@.len() - i,
    {
        let mut j: usize = i + 1;
        while j < v.len()
            invariant
                i < j <= v@.len(),
                forall|b: int|
                    i < b < j ==> !(v@[i as int].0@ == v@[b].0@ && v@[i as int].1@ == v@[b].1@),
            decreases v@.len() - j,
        {
            if v[i].0.eq(&v[j].0) && v[i].1.eq(&v[j].1) {
                return false;
            }
            j = j + 1;
        }
        i = i + 1;
    }
    true
}

fn mirrored_exec(
    fwd: &Vec<(String, String, u128)>,
    rev: &Vec<(String, String, u128)>,
) -> (r: bool)
    requires
        alw_keys_unique(fwd@),
        alw_keys_unique(rev@),
    ensures
        r == allowances_mirrored(fwd@, rev@),
{
    // every forward entry must read back, with the same value, through the
    // reverse index
    let mut i: usize = 0;
    while i < fwd.len()
        invariant
            alw_keys_unique(fwd@),
            alw_keys_unique(rev@),
            i <= fwd@.len(),
            forall|n: int|
                0 <= n < i ==> alw_lookup(rev@, fwd@[n].1@, fwd@[n].0@) == Some(fwd@[n].2),
        decreases fwd@.len() - i,
    {
        match find_allowance(rev, &fwd[i].1, &fwd[i].0) {
            Some(j) => {
                proof {
                    lemma_alw_lookup_at(rev@, j as int);
                }
                if fwd[i].2 != rev[j].2 {
                    proof {
                        lemma_alw_lookup_at(fwd@, i as int);
                    }
                    return false;
                }
            },
            None => {
                proof {
                    lemma_alw_lookup_at(fwd@, i as int);
                }
                return false;
            },
        }
        i = i + 1;
    }
    // and every reverse entry must exist in the forward index, so the
    // reverse index holds nothing of its own
    let mut n: usize = 0;
    while n < rev.len()
        invariant
            alw_keys_unique(fwd@),
            alw_keys_unique(rev@),
            n <= rev@.len(),
            forall|m: int|
                0 <= m < fwd@.len() ==> alw_lookup(rev@, fwd@[m].1@, fwd@[m].0@) == Some(
                    fwd@[m].2,
                ),
            forall|m: int| 0 <= m < n ==> alw_has(fwd@, rev@[m].1@, rev@[m].0@),
        decreases rev@.len() - n,
    {
        match find_allowance(fwd, &rev[n].1, &rev[n].0) {
            Some(_) => {},
            None => {
                proof {
                    lemma_alw_lookup_at(rev@, n as int);
                    assert(alw_lookup(fwd@, rev@[n as int].1@, rev@[n as int].0@)
                        != alw_lookup(rev@, rev@[n as int].0@, rev@[n as int].1@));
                }
                return false;
            },
        }
        n = n + 1;
    }
    proof {
        assert forall|o: Seq<char>, p: Seq<char>|
            #[trigger] alw_lookup(fwd@, o, p) == alw_lookup(rev@, p, o) by {
            if alw_has(fwd@, o, p) {
                let m = alw_idx(fwd@, o, p);
                lemma_alw_lookup_at(fwd@, m);
            } else if alw_has(rev@, p, o) {
                let m = alw_idx(rev@, p, o);
                assert(alw_has(fwd@, rev@[m].1@, rev@[m].0@));
            }
        }
    }
    true
}

fn remove_allowance_entry(v: &mut Vec<(String, String, u128)>, owner: &String, spender: &String)
    requires
        alw_keys_unique(old(v)@),
    ensures
        alw_keys_unique(final(v)@),
        alw_lookup(final(v)@, owner@, spender@) == None::<u128>,
        alw_unchanged_except(old(v)@, final(v)@, owner@, spender@),
{
    match find_allowance(v, owner, spender) {
        Some(i) => {
            let ghost pre = v@;
            let _ = v.remove(i);
            proof {
                lemma_alw_remove_pointwise(pre, i as int);
            }
        },
        None => {
            proof {
                assert(!alw_has(v@, owner@, spender@));
            }
        },
    }
}

} // verus!
