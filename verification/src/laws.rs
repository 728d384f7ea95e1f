//! The engine's laws, stated and proved over the same spec functions its
//! contracts use: determinism and minimality of failure replay, isolation
//! between tests, the success-classification policy, and the precedence
//! rules for the setup hook.

use vstd::prelude::*;

use crate::discovery::{
    ambiguous_setup,
    canonical_setup_fns,
    is_canonical_setup,
    is_setup_like,
    miscased_setup_fns,
    setup_like_fns,
};
use crate::fuzz::{fuzz_decide, fuzz_result_matches, FuzzDecision};
use crate::invariant_test::{
    replay_len,
    replay_stop,
    ReplayStep,
    ReplayStopKind,
};
use crate::strutil::folded_code;
use crate::resmap::map_lookup;
use crate::runner::{
    entry_ok,
    first_unit_fault,
    suite_post,
    suite_post_with_setup,
    ContractRunner,
    SuiteResult,
    SuiteScript,
    TestScript,
};
use crate::setup::{setup_faults, setup_matches, SetupScript};
use crate::types::{
    trace_entries_eq,
    BaseCall,
    CallRecord,
    CounterExample,
    EnvFault,
    FunctionDef,
    KnownContract,
    TestOptions,
    TestResult,
    TestSetup,
};
use crate::discovery::{unit_fuzz_candidates, TestFilter};
use crate::unit::{spec_is_success, unit_result_matches};

verus! {

/// Equality of optional reason strings, up to the view.
pub open spec fn opt_str_eq(a: Option<String>, b: Option<String>) -> bool {
    match (a, b) {
        (Some(x), Some(y)) => x@ == y@,
        (None, None) => true,
        _ => false,
    }
}

/// Equality of counterexample calls, up to views.
pub open spec fn base_call_eq(a: BaseCall, b: BaseCall) -> bool {
    &&& a.sender == b.sender
    &&& a.target == b.target
    &&& a.calldata@ == b.calldata@
    &&& opt_str_eq(a.contract_name, b.contract_name)
}

/// Equality of counterexamples, up to views.
pub open spec fn counterexample_eq(a: CounterExample, b: CounterExample) -> bool {
    match (a, b) {
        (CounterExample::Single(x), CounterExample::Single(y)) => base_call_eq(x, y),
        (CounterExample::Sequence(xs), CounterExample::Sequence(ys)) => xs@.len() == ys@.len()
            && (forall|i: int| 0 <= i < xs@.len() ==> base_call_eq(#[trigger] xs@[i], ys@[i])),
        _ => false,
    }
}

pub open spec fn opt_counterexample_eq(a: Option<CounterExample>, b: Option<CounterExample>) -> bool {
    match (a, b) {
        (Some(x), Some(y)) => counterexample_eq(x, y),
        (None, None) => true,
        _ => false,
    }
}

/// Equality of address labels, up to views.
pub open spec fn labels_eq(a: Seq<(u64, String)>, b: Seq<(u64, String)>) -> bool {
    a.len() == b.len() && (forall|i: int|
        0 <= i < a.len() ==> (#[trigger] a[i]).0 == b[i].0 && a[i].1@ == b[i].1@)
}

/// Equality of test results, up to views: everything a report reads.
pub open spec fn result_eq(a: TestResult, b: TestResult) -> bool {
    &&& a.success == b.success
    &&& opt_str_eq(a.reason, b.reason)
    &&& opt_counterexample_eq(a.counterexample, b.counterexample)
    &&& a.logs@ == b.logs@
    &&& a.kind == b.kind
    &&& trace_entries_eq(a.traces@, b.traces@)
    &&& a.coverage == b.coverage
    &&& a.labeled_addresses@ == b.labeled_addresses@
}

/// Isolation of unit tests: a unit test's result is fully determined by
/// the shared post-setup state and its own call record.  Two runs of the
/// same test from the same setup agree, whatever other tests ran between
/// them and in whatever order.
pub proof fn lemma_unit_isolation(
    t1: TestResult,
    t2: TestResult,
    setup: TestSetup,
    should_fail: bool,
    rec: CallRecord,
)
    requires
        unit_result_matches(t1, setup, should_fail, rec),
        unit_result_matches(t2, setup, should_fail, rec),
    ensures
        result_eq(t1, t2),
{
}

/// Isolation of fuzz tests: a fuzz test's result is fully determined by
/// the shared post-setup state, the limits and its own case script.
pub proof fn lemma_fuzz_isolation(
    t1: TestResult,
    t2: TestResult,
    setup: TestSetup,
    should_fail: bool,
    budget: u32,
    max_local: u32,
    max_global: u32,
    sender: u64,
    address: u64,
    cases: Seq<crate::fuzz::FuzzCase>,
)
    requires
        fuzz_result_matches(
            t1,
            setup,
            should_fail,
            budget,
            max_local,
            max_global,
            sender,
            address,
            cases,
        ),
        fuzz_result_matches(
            t2,
            setup,
            should_fail,
            budget,
            max_local,
            max_global,
            sender,
            address,
            cases,
        ),
    ensures
        result_eq(t1, t2),
{
}

/// The classification law: a test expected to revert succeeds exactly
/// when its call reverted, and an ordinary test succeeds exactly when its
/// call did not, absent assumption aborts.
pub proof fn lemma_classification(reverted: bool)
    ensures
        spec_is_success(true, reverted, false) == reverted,
        spec_is_success(false, reverted, false) == !reverted,
{
}

pub proof fn lemma_replay_stop_advance(script: Seq<ReplayStep>, k: int, i: int)
    requires
        0 <= k <= i <= script.len(),
        forall|j: int|
            k <= j < i ==> (#[trigger] script[j]).outcome is Completed && (script[j].check is Some
                ==> !script[j].check->0.reverted),
    ensures
        replay_stop(script, k) == replay_stop(script, i),
    decreases i - k,
{
    if k < i {
        lemma_replay_stop_advance(script, k + 1, i);
    }
}

/// Determinism of failure replay: a replay whose invariant checks first
/// revert at the captured breaking step reproduces the break at exactly
/// that step, and the replayed sequence is exactly the prefix through it.
pub proof fn lemma_replay_deterministic(script: Seq<ReplayStep>, break_at: int)
    requires
        0 <= break_at < script.len(),
        forall|j: int|
            0 <= j < break_at ==> (#[trigger] script[j]).outcome is Completed && (script[j].check
                is Some ==> !script[j].check->0.reverted),
        script[break_at].outcome is Completed,
        script[break_at].check is Some,
        script[break_at].check->0.reverted,
    ensures
        replay_stop(script, 0) == (ReplayStopKind::CheckBreak { at: break_at }),
        replay_len(script) == break_at + 1,
{
    lemma_replay_stop_advance(script, 0, break_at);
}

/// Minimality of the replayed counterexample: the replayed sequence never
/// exceeds the captured one, and when the replay stopped on a reverting
/// invariant check, that check reverted exactly after the last replayed
/// call and after none before it.
pub proof fn lemma_replay_minimality(script: Seq<ReplayStep>)
    ensures
        0 <= replay_len(script) <= script.len(),
        replay_stop(script, 0) matches ReplayStopKind::CheckBreak { at } ==> {
            &&& replay_len(script) == at + 1
            &&& script[at].check is Some
            &&& script[at].check->0.reverted
            &&& forall|i: int|
                0 <= i < at ==> !((#[trigger] script[i]).check is Some
                    && script[i].check->0.reverted)
        },
{
    crate::invariant_test::lemma_replay_len_bounds(script);
    lemma_replay_stop_first(script, 0);
}

pub proof fn lemma_replay_stop_first(script: Seq<ReplayStep>, i: int)
    requires
        0 <= i <= script.len(),
    ensures
        match replay_stop(script, i) {
            ReplayStopKind::Fault { at } => i <= at < script.len() && script[at].outcome is Fault
                && (forall|j: int|
                i <= j < at ==> !((#[trigger] script[j]).check is Some
                    && script[j].check->0.reverted)),
            ReplayStopKind::CheckBreak { at } => i <= at < script.len() && script[at].check is Some
                && script[at].check->0.reverted && (forall|j: int|
                i <= j < at ==> !((#[trigger] script[j]).check is Some
                    && script[j].check->0.reverted)),
            ReplayStopKind::Finished => true,
        },
    decreases script.len() - i,
{
    if 0 <= i < script.len() {
        match script[i].outcome {
            crate::types::CallOutcome::Fault(_) => {},
            crate::types::CallOutcome::Completed(_) => match script[i].check {
                Some(c) => {
                    if !c.reverted {
                        lemma_replay_stop_first(script, i + 1);
                    }
                },
                None => {
                    lemma_replay_stop_first(script, i + 1);
                },
            },
        }
    }
}

/// Every canonically-named hook is also a case-insensitive `setup` match.
pub proof fn lemma_canonical_is_setup_like(f: FunctionDef)
    requires
        is_canonical_setup(f),
    ensures
        is_setup_like(f),
{
    reveal_strlit("setUp");
    reveal_strlit("setup");
    assert forall|i: int| 0 <= i < 5 implies folded_code("setUp"@[i]) == folded_code(
        "setup"@[i],
    ) by {
    }
}

/// The case-insensitive `setup` candidates split exactly into the
/// canonical hooks and the mis-cased ones.
pub proof fn lemma_setup_partition(fs: Seq<FunctionDef>)
    ensures
        setup_like_fns(fs).len() == canonical_setup_fns(fs).len() + miscased_setup_fns(fs).len(),
    decreases fs.len(),
{
    if fs.len() > 0 {
        lemma_setup_partition(fs.drop_last());
        if is_canonical_setup(fs.last()) {
            lemma_canonical_is_setup_like(fs.last());
        }
    }
}

/// Setup precedence: among several functions case-insensitively named
/// `setup`, a unique canonical `setUp` keeps the suite running with one
/// warning per mis-cased variant -- with two such functions and one exact
/// `setUp`, exactly one warning; without a unique canonical hook the
/// setup is ambiguous and the suite short-circuits into the single
/// synthetic failing result.
pub proof fn lemma_setup_precedence(fs: Seq<FunctionDef>)
    ensures
        setup_like_fns(fs).len() == 2 && canonical_setup_fns(fs).len() == 1 ==> !ambiguous_setup(
            fs,
        ) && miscased_setup_fns(fs).len() == 1,
        setup_like_fns(fs).len() >= 2 && canonical_setup_fns(fs).len() != 1 ==> ambiguous_setup(
            fs,
        ),
{
    lemma_setup_partition(fs);
}


proof fn lemma_trace_entries_eq_refl(a: Seq<(crate::types::TraceKind, crate::types::Trace)>)
    ensures
        trace_entries_eq(a, a),
{
}

/// Two successful setups from the same recorded script agree on
/// everything a test reads.
pub proof fn lemma_setup_functional(
    s1: TestSetup,
    s2: TestSetup,
    sc: SetupScript,
    run_hook: bool,
)
    requires
        setup_matches(Ok(s1), sc, run_hook),
        setup_matches(Ok(s2), sc, run_hook),
    ensures
        s1.address == s2.address,
        s1.logs@ == s2.logs@,
        s1.traces@ == s2.traces@,
        s1.labeled_addresses@ == s2.labeled_addresses@,
        s1.setup_failed == s2.setup_failed,
        opt_str_eq(s1.reason, s2.reason),
{
}

/// Two results of the same candidate, from setups that agree on
/// everything a test reads and from the same recorded script, agree.
pub proof fn lemma_entry_functional(
    t1: TestResult,
    t2: TestResult,
    cand: FunctionDef,
    stp1: TestSetup,
    stp2: TestSetup,
    opts: TestOptions,
    sender: u64,
    ts: TestScript,
)
    requires
        entry_ok(t1, cand, stp1, opts, sender, ts),
        entry_ok(t2, cand, stp2, opts, sender, ts),
        stp1.address == stp2.address,
        stp1.logs@ == stp2.logs@,
        stp1.traces@ == stp2.traces@,
        stp1.labeled_addresses@ == stp2.labeled_addresses@,
    ensures
        result_eq(t1, t2),
{
    match ts {
        TestScript::Unit(_) => {
        },
        TestScript::Fuzz(cases) => {
            let sf = crate::discovery::is_test_fail_name(cand.name@);
            let d = fuzz_decide(
                cases@,
                sf,
                opts.fuzz_runs,
                opts.fuzz_max_local_rejects,
                opts.fuzz_max_global_rejects,
                0,
                0,
                0,
                0,
            );
            match d {
                FuzzDecision::Failed { .. } => {
                },
                _ => {
                },
            }
        },
    }
}

proof fn lemma_lookup_some_key_present(
    entries: Seq<(String, TestResult)>,
    key: Seq<char>,
)
    requires
        map_lookup(entries, key) is Some,
    ensures
        exists|j: int| 0 <= j < entries.len() && (#[trigger] entries[j].0)@ == key,
    decreases entries.len(),
{
    if entries.len() > 0 && entries.last().0@ != key {
        lemma_lookup_some_key_present(entries.drop_last(), key);
    }
}

/// Suite-level isolation: the result a suite reports for one candidate is
/// fully determined by the shared setup script and that candidate's own
/// recorded script.  Two suite runs that agree on those -- whatever their
/// other tests recorded, whichever artifact tables and durations they
/// used -- report the same result for that candidate.
pub proof fn lemma_suite_isolation(
    runner: ContractRunner,
    filter: TestFilter,
    opts: TestOptions,
    known1: Seq<KnownContract>,
    known2: Seq<KnownContract>,
    s1: SuiteScript,
    s2: SuiteScript,
    d1: u64,
    d2: u64,
    r1: Result<SuiteResult, EnvFault>,
    r2: Result<SuiteResult, EnvFault>,
    i: int,
)
    requires
        suite_post(runner, filter, opts, known1, s1, d1, r1),
        suite_post(runner, filter, opts, known2, s2, d2, r2),
        !ambiguous_setup(runner.contract.functions@),
        !setup_faults(s1.setup),
        s1.setup == s2.setup,
        first_unit_fault(s1.tests@, 0) == s1.tests@.len(),
        first_unit_fault(s2.tests@, 0) == s2.tests@.len(),
        s1.tests@.len() == unit_fuzz_candidates(runner.contract.functions@, filter, opts).len(),
        s2.tests@.len() == unit_fuzz_candidates(runner.contract.functions@, filter, opts).len(),
        0 <= i < unit_fuzz_candidates(runner.contract.functions@, filter, opts).len(),
        s1.tests@[i] == s2.tests@[i],
    ensures
        ({
            let key = unit_fuzz_candidates(runner.contract.functions@, filter, opts)[i].signature@;
            match (r1, r2) {
                (Ok(a), Ok(b)) => match (
                    a.test_results.spec_get(key),
                    b.test_results.spec_get(key),
                ) {
                    (Some(t1), Some(t2)) => result_eq(t1, t2),
                    _ => true,
                },
                _ => true,
            }
        }),
{
    let fs = runner.contract.functions@;
    let cands = unit_fuzz_candidates(fs, filter, opts);
    let needs = canonical_setup_fns(fs).len() == 1;
    let key = cands[i].signature@;
    if r1 is Ok && r2 is Ok {
        let a = r1->Ok_0;
        let b = r2->Ok_0;
        if a.test_results.spec_get(key) is Some && b.test_results.spec_get(key) is Some {
            let t1 = a.test_results.spec_get(key)->0;
            let t2 = b.test_results.spec_get(key)->0;
            let stp1 = choose|stp: TestSetup| #[trigger] setup_matches(Ok(stp), s1.setup, needs)
                && suite_post_with_setup(runner, filter, opts, known1, s1, d1, r1, stp);
            let stp2 = choose|stp: TestSetup| #[trigger] setup_matches(Ok(stp), s2.setup, needs)
                && suite_post_with_setup(runner, filter, opts, known2, s2, d2, r2, stp);
            lemma_setup_functional(stp1, stp2, s1.setup, needs);
            if stp1.setup_failed {
                let ea = a.test_results.entries@;
                let eb = b.test_results.entries@;
                assert(ea.len() == 1);
                assert(map_lookup(ea.drop_last(), key) is None);
                assert(ea[0].0@ == key && t1 == ea[0].1);
                assert(map_lookup(ea.drop_last(), "setUp()"@) is None);
                assert(ea[0].0@ == "setUp()"@);
                assert(map_lookup(eb.drop_last(), key) is None);
                assert(eb[0].0@ == key && t2 == eb[0].1);
                assert(map_lookup(eb.drop_last(), "setUp()"@) is None);
                assert(eb[0].0@ == "setUp()"@);
                lemma_trace_entries_eq_refl(t1.traces@);
            } else {
                assert(entry_ok(t1, cands[i], stp1, opts, runner.sender, s1.tests@[i]));
                assert(entry_ok(t2, cands[i], stp2, opts, runner.sender, s2.tests@[i]));
                lemma_entry_functional(
                    t1,
                    t2,
                    cands[i],
                    stp1,
                    stp2,
                    opts,
                    runner.sender,
                    s1.tests@[i],
                );
            }
        }
    }
}

} // verus!
