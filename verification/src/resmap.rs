//! The suite's result map: one test result per signature, kept strictly
//! ordered by signature so reports list tests deterministically.

use vstd::prelude::*;
use vstd::pervasive::VecAdditionalExecFns;
use vstd::string::*;

use crate::strutil::{
    lemma_lex_lt_irrefl,
    lemma_lex_lt_trans,
    lex_lt,
    str_compare,
    str_eq,
    StrOrder,
};
use crate::types::TestResult;

verus! {

/// Strictly increasing signature views: sortedness and key uniqueness in
/// one statement.
pub open spec fn map_wf(entries: Seq<(String, TestResult)>) -> bool {
    forall|i: int, j: int|
        0 <= i < j < entries.len() ==> lex_lt(entries[i].0@, entries[j].0@)
}

/// The value stored under `key`, the latest insertion winning.
pub open spec fn map_lookup(entries: Seq<(String, TestResult)>, key: Seq<char>) -> Option<
    TestResult,
>
    decreases entries.len(),
{
    if entries.len() == 0 {
        None
    } else if entries.last().0@ == key {
        Some(entries.last().1)
    } else {
        map_lookup(entries.drop_last(), key)
    }
}

pub proof fn lemma_lookup_absent(entries: Seq<(String, TestResult)>, key: Seq<char>)
    requires
        forall|j: int| 0 <= j < entries.len() ==> entries[j].0@ != key,
    ensures
        map_lookup(entries, key) is None,
    decreases entries.len(),
{
    if entries.len() > 0 {
        lemma_lookup_absent(entries.drop_last(), key);
    }
}

pub proof fn lemma_lookup_found(entries: Seq<(String, TestResult)>, k: int, key: Seq<char>)
    requires
        0 <= k < entries.len(),
        entries[k].0@ == key,
        forall|j: int| k < j < entries.len() ==> entries[j].0@ != key,
    ensures
        map_lookup(entries, key) == Some(entries[k].1),
    decreases entries.len(),
{
    if k + 1 < entries.len() {
        lemma_lookup_found(entries.drop_last(), k, key);
    }
}

pub proof fn lemma_lookup_insert_same(
    entries: Seq<(String, TestResult)>,
    k: int,
    e: (String, TestResult),
)
    requires
        0 <= k <= entries.len(),
        forall|j: int| k <= j < entries.len() ==> entries[j].0@ != e.0@,
    ensures
        map_lookup(entries.insert(k, e), e.0@) == Some(e.1),
    decreases entries.len() - k,
{
    let s = entries.insert(k, e);
    if k == entries.len() {
        assert(s.last() == e);
    } else {
        assert(s.last() == entries.last());
        assert(s.drop_last() =~= entries.drop_last().insert(k, e));
        lemma_lookup_insert_same(entries.drop_last(), k, e);
    }
}

pub proof fn lemma_lookup_insert_other(
    entries: Seq<(String, TestResult)>,
    k: int,
    e: (String, TestResult),
    key: Seq<char>,
)
    requires
        0 <= k <= entries.len(),
        key != e.0@,
    ensures
        map_lookup(entries.insert(k, e), key) == map_lookup(entries, key),
    decreases entries.len(),
{
    let s = entries.insert(k, e);
    if k == entries.len() {
        assert(s.last() == e);
        assert(s.drop_last() =~= entries);
    } else {
        assert(s.last() == entries.last());
        assert(s.drop_last() =~= entries.drop_last().insert(k, e));
        lemma_lookup_insert_other(entries.drop_last(), k, e, key);
    }
}

pub proof fn lemma_lookup_update_same(
    entries: Seq<(String, TestResult)>,
    k: int,
    e: (String, TestResult),
)
    requires
        0 <= k < entries.len(),
        e.0@ == entries[k].0@,
        forall|j: int| k < j < entries.len() ==> entries[j].0@ != e.0@,
    ensures
        map_lookup(entries.update(k, e), e.0@) == Some(e.1),
    decreases entries.len(),
{
    let s = entries.update(k, e);
    if k == entries.len() - 1 {
        assert(s.last() == e);
    } else {
        assert(s.last() == entries.last());
        assert(s.drop_last() =~= entries.drop_last().update(k, e));
        lemma_lookup_update_same(entries.drop_last(), k, e);
    }
}

pub proof fn lemma_lookup_update_other(
    entries: Seq<(String, TestResult)>,
    k: int,
    e: (String, TestResult),
    key: Seq<char>,
)
    requires
        0 <= k < entries.len(),
        e.0@ == entries[k].0@,
        key != e.0@,
    ensures
        map_lookup(entries.update(k, e), key) == map_lookup(entries, key),
    decreases entries.len(),
{
    let s = entries.update(k, e);
    if k == entries.len() - 1 {
        assert(s.last() == e);
        assert(s.drop_last() =~= entries.drop_last());
    } else {
        assert(s.last() == entries.last());
        assert(s.drop_last() =~= entries.drop_last().update(k, e));
        lemma_lookup_update_other(entries.drop_last(), k, e, key);
    }
}

/// One test result per signature, ordered by signature.
#[derive(Debug)]
pub struct ResultMap {
    pub entries: Vec<(String, TestResult)>,
}

/// The position of the first stored signature not strictly below `key`,
/// or the length when every signature is below it.
#[verifier::loop_isolation(false)]
fn find_slot(entries: &Vec<(String, TestResult)>, key: &str) -> (k: usize)
    ensures
        k <= entries@.len(),
        forall|j: int| 0 <= j < k ==> lex_lt(entries@[j].0@, key@),
        k < entries@.len() ==> (entries@[k as int].0@ == key@ || lex_lt(
            key@,
            entries@[k as int].0@,
        )),
{
    let n: usize = entries.len();
    let mut k: usize = 0;
    loop
        invariant
            k <= n,
            forall|j: int| 0 <= j < k ==> lex_lt(entries@[j].0@, key@),
        decreases n - k,
    {
        if k == n {
            return k;
        }
        match str_compare(entries[k].0.as_str(), key) {
            StrOrder::Lt => {
                k += 1;
            },
            StrOrder::Eq => {
                return k;
            },
            StrOrder::Gt => {
                return k;
            },
        }
    }
}

impl ResultMap {
    /// Sortedness of the stored signatures.
    pub open spec fn wf(&self) -> bool {
        map_wf(self.entries@)
    }

    /// The result stored under a signature.
    pub open spec fn spec_get(&self, key: Seq<char>) -> Option<TestResult> {
        map_lookup(self.entries@, key)
    }

    /// An empty map.
    pub fn new() -> (r: ResultMap)
        ensures
            r.wf(),
            r.entries@.len() == 0,
            forall|k: Seq<char>| r.spec_get(k) is None,
    {
        ResultMap { entries: Vec::new() }
    }

    /// The number of stored results.
    pub fn len(&self) -> (n: usize)
        ensures
            n == self.entries@.len(),
    {
        self.entries.len()
    }

    /// Stores `value` under `key`, replacing any earlier result with that
    /// signature and keeping the map ordered.
    #[verifier::loop_isolation(false)]
    pub fn insert(&mut self, key: String, value: TestResult)
        requires
            old(self).wf(),
        ensures
            final(self).wf(),
            final(self).spec_get(key@) == Some(value),
            forall|k: Seq<char>|
                k != key@ ==> final(self).spec_get(k) == old(self).spec_get(k),
            old(self).spec_get(key@) is None ==> final(self).entries@.len() == old(
                self,
            ).entries@.len() + 1,
            old(self).spec_get(key@) is Some ==> final(self).entries@.len() == old(
                self,
            ).entries@.len(),
    {
        let ghost s0 = self.entries@;
        let n: usize = self.entries.len();
        let k: usize = find_slot(&self.entries, key.as_str());
        if k < n && str_eq(self.entries[k].0.as_str(), key.as_str()) {
            proof {
                assert forall|j: int| k < j < s0.len() implies s0[j].0@ != key@ by {
                    assert(lex_lt(s0[k as int].0@, s0[j].0@));
                    lemma_lex_lt_irrefl(s0[j].0@);
                }
                lemma_lookup_update_same(s0, k as int, (key, value));
                lemma_lookup_found(s0, k as int, key@);
            }
            assert forall|k2: Seq<char>| k2 != key@ implies map_lookup(
                s0.update(k as int, (key, value)),
                k2,
            ) == map_lookup(s0, k2) by {
                lemma_lookup_update_other(s0, k as int, (key, value), k2);
            }
            proof {
                let s1 = s0.update(k as int, (key, value));
                assert forall|i: int, j: int| 0 <= i < j < s1.len() implies lex_lt(
                    s1[i].0@,
                    s1[j].0@,
                ) by {
                    assert(s1[i].0@ == s0[i].0@);
                    assert(s1[j].0@ == s0[j].0@);
                    assert(lex_lt(s0[i].0@, s0[j].0@));
                }
            }
            self.entries.set(k, (key, value));
        } else {
            proof {
                if k < s0.len() {
                    assert(lex_lt(key@, s0[k as int].0@));
                }
                assert forall|j: int| k <= j < s0.len() implies lex_lt(key@, s0[j].0@) by {
                    if j > k {
                        assert(lex_lt(s0[k as int].0@, s0[j].0@));
                        lemma_lex_lt_trans(key@, s0[k as int].0@, s0[j].0@);
                    }
                }
                assert forall|j: int| k <= j < s0.len() implies s0[j].0@ != key@ by {
                    assert(lex_lt(key@, s0[j].0@));
                    lemma_lex_lt_irrefl(s0[j].0@);
                }
                assert forall|j: int| 0 <= j < k implies s0[j].0@ != key@ by {
                    assert(lex_lt(s0[j].0@, key@));
                    lemma_lex_lt_irrefl(s0[j].0@);
                }
                lemma_lookup_insert_same(s0, k as int, (key, value));
                lemma_lookup_absent(s0, key@);
            }
            assert forall|k2: Seq<char>| k2 != key@ implies map_lookup(
                s0.insert(k as int, (key, value)),
                k2,
            ) == map_lookup(s0, k2) by {
                lemma_lookup_insert_other(s0, k as int, (key, value), k2);
            }
            proof {
                let s1 = s0.insert(k as int, (key, value));
                assert forall|i: int, j: int| 0 <= i < j < s1.len() implies lex_lt(
                    s1[i].0@,
                    s1[j].0@,
                ) by {
                    if i < k {
                        assert(s1[i] == s0[i]);
                    } else if i == k {
                        assert(s1[i] == (key, value));
                    } else {
                        assert(s1[i] == s0[i - 1]);
                    }
                    if j < k {
                        assert(s1[j] == s0[j]);
                    } else if j == k {
                        assert(s1[j] == (key, value));
                    } else {
                        assert(s1[j] == s0[j - 1]);
                    }
                }
            }
            self.entries.insert(k, (key, value));
        }
    }
}

} // verus!
