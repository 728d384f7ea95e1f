//! Test discovery and filtering: a pure pass over the ABI that finds unit,
//! fuzz and invariant test candidates by naming convention, resolves the
//! setup hook by case-insensitive name, and collects warnings for mis-cased
//! hook names.

use vstd::prelude::*;
use vstd::string::*;

use crate::strutil::{ci_eq, is_prefix_of, str_eq, str_eq_ignore_ascii_case, str_starts_with};
use crate::types::{Abi, FunctionDef, TestOptions};

verus! {

/// A unit/fuzz test candidate's name starts with `test`, case-sensitively.
pub open spec fn is_test_name(name: Seq<char>) -> bool {
    is_prefix_of("test"@, name)
}

/// A test expected to revert is named with the `testFail` convention.
pub open spec fn is_test_fail_name(name: Seq<char>) -> bool {
    is_prefix_of("testFail"@, name)
}

/// An invariant test candidate's name starts with `invariant`.
pub open spec fn is_invariant_name(name: Seq<char>) -> bool {
    is_prefix_of("invariant"@, name)
}

/// A function whose name is `setup` up to ASCII case.
pub open spec fn is_setup_like(f: FunctionDef) -> bool {
    ci_eq(f.name@, "setup"@)
}

/// A function whose name is exactly the canonical `setUp`.
pub open spec fn is_canonical_setup(f: FunctionDef) -> bool {
    f.name@ == "setUp"@
}

/// The user-supplied match predicate over test signatures.
#[derive(Clone, PartialEq, Eq, Debug)]
pub enum TestFilter {
    /// Every signature matches.
    All,
    /// Exactly the listed signatures match.
    AnyOf(Vec<String>),
}

/// What the filter accepts.
pub open spec fn filter_matches(filter: TestFilter, sig: Seq<char>) -> bool {
    match filter {
        TestFilter::All => true,
        TestFilter::AnyOf(sigs) => exists|i: int| 0 <= i < sigs@.len() && sigs@[i]@ == sig,
    }
}

impl TestFilter {
    /// True when the filter accepts the signature.
    #[verifier::loop_isolation(false)]
    pub fn matches_test(&self, sig: &str) -> (r: bool)
        ensures
            r == filter_matches(*self, sig@),
    {
        match self {
            TestFilter::All => true,
            TestFilter::AnyOf(sigs) => {
                let mut i: usize = 0;
                while i < sigs.len()
                    invariant
                        i <= sigs.len(),
                        forall|j: int| 0 <= j < i ==> sigs@[j]@ != sig@,
                    decreases sigs.len() - i,
                {
                    if str_eq(sigs[i].as_str(), sig) {
                        return true;
                    }
                    i += 1;
                }
                false
            },
        }
    }
}

/// A unit/fuzz test candidate: named `test…`, accepted by the filter, and,
/// when fuzz tests are excluded, taking no inputs.
pub open spec fn is_unit_fuzz_candidate(
    f: FunctionDef,
    filter: TestFilter,
    opts: TestOptions,
) -> bool {
    &&& is_test_name(f.name@)
    &&& filter_matches(filter, f.signature@)
    &&& (opts.include_fuzz_tests || f.n_inputs == 0)
}

/// A candidate is fuzzed rather than run once when it takes at least one
/// input and fuzz testing is enabled.
pub open spec fn is_fuzzed(f: FunctionDef, opts: TestOptions) -> bool {
    f.n_inputs >= 1 && opts.include_fuzz_tests
}

/// An invariant test candidate: named `invariant…` and accepted by the
/// filter.
pub open spec fn is_invariant_test_candidate(f: FunctionDef, filter: TestFilter) -> bool {
    is_invariant_name(f.name@) && filter_matches(filter, f.signature@)
}

/// The unit/fuzz test candidates of an ABI, in ABI order.
pub open spec fn unit_fuzz_candidates(
    fs: Seq<FunctionDef>,
    filter: TestFilter,
    opts: TestOptions,
) -> Seq<FunctionDef>
    decreases fs.len(),
{
    if fs.len() == 0 {
        Seq::empty()
    } else {
        let rest = unit_fuzz_candidates(fs.drop_last(), filter, opts);
        if is_unit_fuzz_candidate(fs.last(), filter, opts) {
            rest.push(fs.last())
        } else {
            rest
        }
    }
}

/// The invariant test candidates of an ABI, in ABI order.
pub open spec fn invariant_test_candidates(fs: Seq<FunctionDef>, filter: TestFilter) -> Seq<
    FunctionDef,
>
    decreases fs.len(),
{
    if fs.len() == 0 {
        Seq::empty()
    } else {
        let rest = invariant_test_candidates(fs.drop_last(), filter);
        if is_invariant_test_candidate(fs.last(), filter) {
            rest.push(fs.last())
        } else {
            rest
        }
    }
}

/// The functions named `setup` up to ASCII case.
pub open spec fn setup_like_fns(fs: Seq<FunctionDef>) -> Seq<FunctionDef>
    decreases fs.len(),
{
    if fs.len() == 0 {
        Seq::empty()
    } else {
        let rest = setup_like_fns(fs.drop_last());
        if is_setup_like(fs.last()) {
            rest.push(fs.last())
        } else {
            rest
        }
    }
}

/// The functions named exactly `setUp`.
pub open spec fn canonical_setup_fns(fs: Seq<FunctionDef>) -> Seq<FunctionDef>
    decreases fs.len(),
{
    if fs.len() == 0 {
        Seq::empty()
    } else {
        let rest = canonical_setup_fns(fs.drop_last());
        if is_canonical_setup(fs.last()) {
            rest.push(fs.last())
        } else {
            rest
        }
    }
}

/// The mis-cased setup hooks: named `setup` up to case but not canonically.
pub open spec fn miscased_setup_fns(fs: Seq<FunctionDef>) -> Seq<FunctionDef>
    decreases fs.len(),
{
    if fs.len() == 0 {
        Seq::empty()
    } else {
        let rest = miscased_setup_fns(fs.drop_last());
        if is_setup_like(fs.last()) && !is_canonical_setup(fs.last()) {
            rest.push(fs.last())
        } else {
            rest
        }
    }
}

/// Ambiguous setup: two or more functions are case-insensitively named
/// `setup` and no single one of them is exactly the canonical `setUp`, so
/// no hook can be preferred and the whole suite short-circuits.
pub open spec fn ambiguous_setup(fs: Seq<FunctionDef>) -> bool {
    setup_like_fns(fs).len() >= 2 && canonical_setup_fns(fs).len() != 1
}

/// The warning text for one mis-cased setup hook.
pub open spec fn setup_warning_of(sig: Seq<char>) -> Seq<char> {
    "Found invalid setup function \""@ + sig + "\" did you mean \"setUp()\"?"@
}

/// Builds the warning text for one mis-cased setup hook.
pub fn build_setup_warning(sig: &str) -> (r: String)
    ensures
        r@ == setup_warning_of(sig@),
{
    let mut out = String::from_str("Found invalid setup function \"");
    out.append(sig);
    out.append("\" did you mean \"setUp()\"?");
    out
}

/// What one pass over the ABI finds out about the setup hook.
pub struct SetupAnalysis {
    /// How many functions are named `setup` up to ASCII case.
    pub setup_like_count: usize,
    /// How many functions are named exactly `setUp`.
    pub canonical_count: usize,
    /// Whether the setup hook should be invoked: exactly one canonical
    /// `setUp` exists.
    pub needs_setup: bool,
    /// Whether setup is ambiguous: several case-insensitive candidates
    /// with no unique canonical `setUp`, which short-circuits the whole
    /// suite.
    pub multiple_setup: bool,
    /// One warning per mis-cased setup hook.
    pub warnings: Vec<String>,
}

/// Resolves the setup hook: counts the canonical `setUp` functions and
/// collects one warning per mis-cased variant.
#[verifier::loop_isolation(false)]
pub fn analyze_setup_fns(abi: &Abi) -> (r: SetupAnalysis)
    ensures
        r.setup_like_count == setup_like_fns(abi.functions@).len(),
        r.canonical_count == canonical_setup_fns(abi.functions@).len(),
        r.needs_setup == (canonical_setup_fns(abi.functions@).len() == 1),
        r.multiple_setup == ambiguous_setup(abi.functions@),
        r.warnings@.len() == miscased_setup_fns(abi.functions@).len(),
        forall|i: int|
            0 <= i < r.warnings@.len() ==> r.warnings@[i]@ == setup_warning_of(
                miscased_setup_fns(abi.functions@)[i].signature@,
            ),
{
    let fs = &abi.functions;
    let mut setup_like_count: usize = 0;
    let mut canonical_count: usize = 0;
    let mut warnings: Vec<String> = Vec::new();
    let mut i: usize = 0;
    while i < fs.len()
        invariant
            i <= fs.len(),
            setup_like_count == setup_like_fns(fs@.subrange(0, i as int)).len(),
            setup_like_count <= i,
            canonical_count == canonical_setup_fns(fs@.subrange(0, i as int)).len(),
            canonical_count <= i,
            warnings@.len() == miscased_setup_fns(fs@.subrange(0, i as int)).len(),
            forall|j: int|
                0 <= j < warnings@.len() ==> warnings@[j]@ == setup_warning_of(
                    miscased_setup_fns(fs@.subrange(0, i as int))[j].signature@,
                ),
        decreases fs.len() - i,
    {
        let f = &fs[i];
        let setup_like = str_eq_ignore_ascii_case(f.name.as_str(), "setup");
        let canonical = str_eq(f.name.as_str(), "setUp");
        if setup_like {
            setup_like_count += 1;
        }
        if canonical {
            canonical_count += 1;
        } else if setup_like {
            warnings.push(build_setup_warning(f.signature.as_str()));
        }
        proof {
            assert(fs@.subrange(0, i as int + 1).drop_last() =~= fs@.subrange(0, i as int));
            assert(fs@.subrange(0, i as int + 1).last() == fs@[i as int]);
        }
        i += 1;
    }
    proof {
        assert(fs@.subrange(0, fs@.len() as int) =~= fs@);
    }
    SetupAnalysis {
        setup_like_count,
        canonical_count,
        needs_setup: canonical_count == 1,
        multiple_setup: setup_like_count >= 2 && canonical_count != 1,
        warnings,
    }
}

/// True when some function of the ABI is named `invariant…`.
#[verifier::loop_isolation(false)]
pub fn has_invariant_fns(abi: &Abi) -> (r: bool)
    ensures
        r == exists|i: int|
            0 <= i < abi.functions@.len() && is_invariant_name(abi.functions@[i].name@),
{
    let fs = &abi.functions;
    let mut i: usize = 0;
    while i < fs.len()
        invariant
            i <= fs.len(),
            forall|j: int| 0 <= j < i ==> !is_invariant_name(fs@[j].name@),
        decreases fs.len() - i,
    {
        if str_starts_with(fs[i].name.as_str(), "invariant") {
            proof {
                assert(is_invariant_name(fs@[i as int].name@));
            }
            return true;
        }
        i += 1;
    }
    false
}

/// Collects the unit/fuzz test candidates of the ABI, in ABI order.
#[verifier::loop_isolation(false)]
pub fn collect_unit_fuzz_candidates(abi: &Abi, filter: &TestFilter, opts: &TestOptions) -> (r: Vec<
    FunctionDef,
>)
    ensures
        r@ == unit_fuzz_candidates(abi.functions@, *filter, *opts),
{
    let fs = &abi.functions;
    let mut out: Vec<FunctionDef> = Vec::new();
    let mut i: usize = 0;
    while i < fs.len()
        invariant
            i <= fs.len(),
            out@ == unit_fuzz_candidates(fs@.subrange(0, i as int), *filter, *opts),
        decreases fs.len() - i,
    {
        let f = &fs[i];
        let take = str_starts_with(f.name.as_str(), "test") && filter.matches_test(
            f.signature.as_str(),
        ) && (opts.include_fuzz_tests || f.n_inputs == 0);
        proof {
            assert(take == is_unit_fuzz_candidate(fs@[i as int], *filter, *opts));
        }
        if take {
            out.push(f.duplicate());
        }
        proof {
            assert(fs@.subrange(0, i as int + 1).drop_last() =~= fs@.subrange(0, i as int));
            assert(fs@.subrange(0, i as int + 1).last() == fs@[i as int]);
        }
        i += 1;
    }
    proof {
        assert(fs@.subrange(0, fs@.len() as int) =~= fs@);
    }
    out
}

/// Collects the invariant test candidates of the ABI, in ABI order.
#[verifier::loop_isolation(false)]
pub fn collect_invariant_candidates(abi: &Abi, filter: &TestFilter) -> (r: Vec<FunctionDef>)
    ensures
        r@ == invariant_test_candidates(abi.functions@, *filter),
{
    let fs = &abi.functions;
    let mut out: Vec<FunctionDef> = Vec::new();
    let mut i: usize = 0;
    while i < fs.len()
        invariant
            i <= fs.len(),
            out@ == invariant_test_candidates(fs@.subrange(0, i as int), *filter),
        decreases fs.len() - i,
    {
        let f = &fs[i];
        let take = str_starts_with(f.name.as_str(), "invariant") && filter.matches_test(
            f.signature.as_str(),
        );
        proof {
            assert(take == is_invariant_test_candidate(fs@[i as int], *filter));
        }
        if take {
            out.push(f.duplicate());
        }
        proof {
            assert(fs@.subrange(0, i as int + 1).drop_last() =~= fs@.subrange(0, i as int));
            assert(fs@.subrange(0, i as int + 1).last() == fs@[i as int]);
        }
        i += 1;
    }
    proof {
        assert(fs@.subrange(0, fs@.len() as int) =~= fs@);
    }
    out
}

/// True when the function is named with the `testFail` convention, so that
/// it is expected to revert.
pub fn is_should_fail(f: &FunctionDef) -> (r: bool)
    ensures
        r == is_test_fail_name(f.name@),
{
    str_starts_with(f.name.as_str(), "testFail")
}


/// Distinct signatures across the ABI, as a real contract ABI has.
pub open spec fn abi_sigs_distinct(fs: Seq<FunctionDef>) -> bool {
    forall|i: int, j: int| 0 <= i < j < fs.len() ==> fs[i].signature@ != fs[j].signature@
}

/// Membership of a function in an ABI.
pub open spec fn fn_in(fs: Seq<FunctionDef>, f: FunctionDef) -> bool {
    exists|p: int| 0 <= p < fs.len() && fs[p] == f
}

/// The unit/fuzz candidates of an ABI with distinct signatures are
/// themselves pairwise distinct, and all drawn from the ABI.
pub proof fn lemma_unit_fuzz_cands_wf(fs: Seq<FunctionDef>, filter: TestFilter, opts: TestOptions)
    requires
        abi_sigs_distinct(fs),
    ensures
        ({
            let c = unit_fuzz_candidates(fs, filter, opts);
            &&& forall|i: int|
                0 <= i < c.len() ==> fn_in(fs, #[trigger] c[i]) && is_unit_fuzz_candidate(
                    c[i],
                    filter,
                    opts,
                )
            &&& forall|i: int, j: int|
                0 <= i < j < c.len() ==> c[i].signature@ != c[j].signature@
        }),
    decreases fs.len(),
{
    if fs.len() > 0 {
        let head = fs.drop_last();
        let c = unit_fuzz_candidates(fs, filter, opts);
        let ch = unit_fuzz_candidates(head, filter, opts);
        lemma_unit_fuzz_cands_wf(head, filter, opts);
        assert forall|i: int| 0 <= i < c.len() implies fn_in(fs, #[trigger] c[i])
            && is_unit_fuzz_candidate(c[i], filter, opts) by {
            if i < ch.len() {
                assert(c[i] == ch[i]);
                let p = choose|p: int| 0 <= p < head.len() && head[p] == ch[i];
                assert(fs[p] == ch[i]);
            } else {
                assert(c[i] == fs.last());
                assert(fs[fs.len() - 1] == fs.last());
            }
        }
        assert forall|i: int, j: int| 0 <= i < j < c.len() implies c[i].signature@ != c[
            j
        ].signature@ by {
            if j < ch.len() {
                assert(c[i] == ch[i] && c[j] == ch[j]);
            } else if is_unit_fuzz_candidate(fs.last(), filter, opts) && j == ch.len() {
                assert(c[i] == ch[i]);
                assert(c[j] == fs.last());
                let p = choose|p: int| 0 <= p < head.len() && head[p] == ch[i];
                assert(fs[p] == ch[i]);
                assert(fs[p].signature@ != fs[fs.len() - 1].signature@);
            }
        }
    }
}

/// The invariant candidates of an ABI with distinct signatures are
/// pairwise distinct, and all drawn from the ABI.
pub proof fn lemma_invariant_cands_wf(fs: Seq<FunctionDef>, filter: TestFilter)
    requires
        abi_sigs_distinct(fs),
    ensures
        ({
            let c = invariant_test_candidates(fs, filter);
            &&& forall|i: int|
                0 <= i < c.len() ==> fn_in(fs, #[trigger] c[i]) && is_invariant_test_candidate(
                    c[i],
                    filter,
                )
            &&& forall|i: int, j: int|
                0 <= i < j < c.len() ==> c[i].signature@ != c[j].signature@
        }),
    decreases fs.len(),
{
    if fs.len() > 0 {
        let head = fs.drop_last();
        let c = invariant_test_candidates(fs, filter);
        let ch = invariant_test_candidates(head, filter);
        lemma_invariant_cands_wf(head, filter);
        assert forall|i: int| 0 <= i < c.len() implies fn_in(fs, #[trigger] c[i])
            && is_invariant_test_candidate(c[i], filter) by {
            if i < ch.len() {
                assert(c[i] == ch[i]);
                let p = choose|p: int| 0 <= p < head.len() && head[p] == ch[i];
                assert(fs[p] == ch[i]);
            } else {
                assert(c[i] == fs.last());
                assert(fs[fs.len() - 1] == fs.last());
            }
        }
        assert forall|i: int, j: int| 0 <= i < j < c.len() implies c[i].signature@ != c[
            j
        ].signature@ by {
            if j < ch.len() {
                assert(c[i] == ch[i] && c[j] == ch[j]);
            } else if is_invariant_test_candidate(fs.last(), filter) && j == ch.len() {
                assert(c[i] == ch[i]);
                assert(c[j] == fs.last());
                let p = choose|p: int| 0 <= p < head.len() && head[p] == ch[i];
                assert(fs[p] == ch[i]);
                assert(fs[p].signature@ != fs[fs.len() - 1].signature@);
            }
        }
    }
}

/// No function is both a unit/fuzz and an invariant candidate, so their
/// signatures never collide in the result map.
pub proof fn lemma_unit_inv_sigs_disjoint(fs: Seq<FunctionDef>, filter: TestFilter, opts: TestOptions)
    requires
        abi_sigs_distinct(fs),
    ensures
        ({
            let c = unit_fuzz_candidates(fs, filter, opts);
            let v = invariant_test_candidates(fs, filter);
            forall|i: int, k: int|
                0 <= i < c.len() && 0 <= k < v.len() ==> (#[trigger] c[i]).signature@ != (
                #[trigger] v[k]).signature@
        }),
{
    let c = unit_fuzz_candidates(fs, filter, opts);
    let v = invariant_test_candidates(fs, filter);
    lemma_unit_fuzz_cands_wf(fs, filter, opts);
    lemma_invariant_cands_wf(fs, filter);
    assert forall|i: int, k: int| 0 <= i < c.len() && 0 <= k < v.len() implies (
    #[trigger] c[i]).signature@ != (#[trigger] v[k]).signature@ by {
        let p = choose|p: int| 0 <= p < fs.len() && fs[p] == c[i];
        let q = choose|q: int| 0 <= q < fs.len() && fs[q] == v[k];
        if p == q {
            reveal_strlit("test");
            reveal_strlit("invariant");
            assert(c[i].name@ == v[k].name@);
            assert(c[i].name@.subrange(0, 4)[0] == c[i].name@[0]);
            assert(v[k].name@.subrange(0, 9)[0] == v[k].name@[0]);
            assert(c[i].name@[0] == 't');
            assert(v[k].name@[0] == 'i');
            assert(false);
        } else if p < q {
            assert(fs[p].signature@ != fs[q].signature@);
        } else {
            assert(fs[q].signature@ != fs[p].signature@);
        }
    }
}

} // verus!
