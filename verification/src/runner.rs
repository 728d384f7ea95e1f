//! The contract runner: owns one contract's bytecode, ABI and pre-deploy
//! libraries, and turns the environment's recorded answers into test
//! results.

use vstd::prelude::*;
use vstd::string::*;

use crate::discovery::{
    abi_sigs_distinct,
    ambiguous_setup,
    analyze_setup_fns,
    canonical_setup_fns,
    collect_invariant_candidates,
    collect_unit_fuzz_candidates,
    has_invariant_fns,
    invariant_test_candidates,
    is_fuzzed,
    is_invariant_name,
    is_should_fail,
    is_test_fail_name,
    lemma_invariant_cands_wf,
    lemma_unit_fuzz_cands_wf,
    lemma_unit_inv_sigs_disjoint,
    miscased_setup_fns,
    setup_warning_of,
    unit_fuzz_candidates,
    TestFilter,
};
use crate::fuzz::{
    decision_consumed,
    fuzz_call_cmds,
    fuzz_decide,
    fuzz_result_matches,
    fuzz_script_adequate,
    run_fuzz,
    FuzzCase,
};
use crate::identify::{creations_of, identify, load_contracts};
use crate::invariant_test::{
    explore_plan_wf,
    invariant_results_match,
    scan_campaign,
    CampaignOutcome,
    ExploreRun,
    ReplayStep,
};
use crate::resmap::ResultMap;
use crate::setup::{lemma_setup_matches_fault, setup_faults, setup_matches, SetupScript};
use crate::types::{
    lemma_trace_entries_eq_concat,
    lemma_trace_entries_eq_trans,
    setup_eq,
    Abi,
    CallOutcome,
    CallRecord,
    EnvCommand,
    EnvFault,
    KnownContract,
    TestKind,
    TestOptions,
    TestResult,
    TestSetup,
};
use crate::unit::{build_unit_result, unit_result_matches};

verus! {

/// A type that executes all tests of a contract.
///
/// The execution environment itself is an outside collaborator owned by the
/// driver; the runner holds everything else the setup and test
/// calls need, and consumes the environment's recorded answers.
pub struct ContractRunner {
    /// The test contract's ABI.
    pub contract: Abi,
    /// The test contract's deployable code.
    pub code: Vec<u8>,
    /// All known errors, used by the environment to decode reverts.
    pub errors: Option<Abi>,
    /// Library contracts to be deployed before the test contract.
    pub predeploy_libs: Vec<Vec<u8>>,
    /// The initial balance of the test contract.
    pub initial_balance: u64,
    /// The address used as the `from` field of every call.
    pub sender: u64,
}

impl ContractRunner {
    /// Builds a runner; an absent sender defaults to the zero address.
    pub fn new(
        contract: Abi,
        code: Vec<u8>,
        initial_balance: u64,
        sender: Option<u64>,
        errors: Option<Abi>,
        predeploy_libs: Vec<Vec<u8>>,
    ) -> (r: ContractRunner)
        ensures
            r.contract == contract,
            r.code == code,
            r.initial_balance == initial_balance,
            r.sender == (match sender {
                Some(s) => s,
                None => 0u64,
            }),
            r.errors == errors,
            r.predeploy_libs == predeploy_libs,
    {
        let sender = match sender {
            Some(s) => s,
            None => 0,
        };
        ContractRunner { contract, code, errors, predeploy_libs, initial_balance, sender }
    }

    /// Runs a single unit test.
    ///
    /// The one call the driver was to make -- the test function, called
    /// non-committing by the configured sender against the deployed
    /// contract, so state modifications never persist past it -- is
    /// appended to `commands`; `outcome` is the environment's record of
    /// that call.  An environment fault is propagated as a hard error,
    /// never wrapped into a test result.
    pub fn run_test(
        &self,
        should_fail: bool,
        setup: TestSetup,
        outcome: CallOutcome,
        commands: &mut Vec<EnvCommand>,
    ) -> (r: Result<TestResult, EnvFault>)
        ensures
            match outcome {
                CallOutcome::Completed(rec) => r matches Ok(t) && unit_result_matches(
                    t,
                    setup,
                    should_fail,
                    rec,
                ),
                CallOutcome::Fault(m) => r matches Err(e) && e.message == m,
            },
            final(commands)@ == old(commands)@ + seq![
                EnvCommand::CallTestFunction { sender: self.sender, target: setup.address },
            ],
    {
        commands.push(
            EnvCommand::CallTestFunction { sender: self.sender, target: setup.address },
        );
        match outcome {
            CallOutcome::Completed(rec) => Ok(build_unit_result(setup, should_fail, rec)),
            CallOutcome::Fault(m) => Err(EnvFault { message: m }),
        }
    }
}


/// The recorded answers for one unit/fuzz test candidate: the single
/// non-committing call's outcome for a unit test, or the script of
/// generated cases for a fuzz test.
pub enum TestScript {
    Unit(CallOutcome),
    Fuzz(Vec<FuzzCase>),
}

/// Everything the driver recorded for one whole suite run: the setup
/// stage's answers, one script per unit/fuzz candidate in discovery
/// order, the invariant campaign's exploration plan, and one replay
/// script per invariant function (read only for the invariants whose
/// checks reverted at the breaking step).
pub struct SuiteScript {
    pub setup: SetupScript,
    pub tests: Vec<TestScript>,
    pub plan: Vec<ExploreRun>,
    pub replays: Vec<Vec<ReplayStep>>,
}

/// The terminal artifact of one contract's suite: its duration, one
/// result per discovered test keyed and ordered by signature, and the
/// configuration warnings.
#[derive(Debug)]
pub struct SuiteResult {
    pub duration_ms: u64,
    pub test_results: ResultMap,
    pub warnings: Vec<String>,
}

impl SuiteResult {
    pub fn new(duration_ms: u64, test_results: ResultMap, warnings: Vec<String>) -> (r:
        SuiteResult)
        ensures
            r.duration_ms == duration_ms,
            r.test_results == test_results,
            r.warnings == warnings,
    {
        SuiteResult { duration_ms, test_results, warnings }
    }
}

/// A well-formed suite script: one answer per setup-stage call, one test
/// script of the right shape per candidate, an adequate case script for
/// every fuzz candidate, and an exploration plan of the configured size
/// with a replay script matching the captured failure, if any.
pub open spec fn suite_script_wf(
    script: SuiteScript,
    runner: ContractRunner,
    filter: TestFilter,
    opts: TestOptions,
) -> bool {
    let fs = runner.contract.functions@;
    let cands = unit_fuzz_candidates(fs, filter, opts);
    let n_inv = invariant_test_candidates(fs, filter).len() as int;
    &&& script.setup.lib_results@.len() == runner.predeploy_libs@.len()
    &&& script.tests@.len() == cands.len()
    &&& forall|i: int|
        0 <= i < cands.len() ==> match #[trigger] script.tests@[i] {
            TestScript::Unit(_) => !is_fuzzed(cands[i], opts),
            TestScript::Fuzz(cases) => is_fuzzed(cands[i], opts) && fuzz_script_adequate(
                cases@,
                opts.fuzz_runs,
                opts.fuzz_max_global_rejects,
            ),
        }
    &&& explore_plan_wf(script.plan@, opts.invariant_runs, opts.invariant_depth, n_inv)
    &&& (scan_campaign(script.plan@, opts.invariant_fail_on_revert, 0, 0)
        matches CampaignOutcome::Broken { run, step, .. } ==> script.replays@.len() == n_inv && (
    forall|k: int|
        0 <= k < n_inv && script.plan@[run].steps@[step].checks@[k].reverted ==> (
        #[trigger] script.replays@[k])@.len() == step + 1))
}

/// The position of the first unit-test script entry holding an
/// environment fault, or the script's length.
pub open spec fn first_unit_fault(tests: Seq<TestScript>, i: int) -> int
    decreases tests.len() - i,
{
    if i < 0 || i >= tests.len() {
        tests.len() as int
    } else if tests[i] matches TestScript::Unit(CallOutcome::Fault(_)) {
        i
    } else {
        first_unit_fault(tests, i + 1)
    }
}

pub proof fn lemma_first_unit_fault_advance(tests: Seq<TestScript>, k: int, i: int)
    requires
        0 <= k <= i <= tests.len(),
        forall|j: int|
            k <= j < i ==> !((#[trigger] tests[j]) matches TestScript::Unit(CallOutcome::Fault(_))),
    ensures
        first_unit_fault(tests, k) == first_unit_fault(tests, i),
    decreases i - k,
{
    if k < i {
        lemma_first_unit_fault_advance(tests, k + 1, i);
    }
}

/// The synthetic result reported when the setup hook is ambiguous --
/// several case-insensitive `setup` candidates without a unique canonical
/// `setUp`: a single failing entry, and nothing was run.
pub open spec fn multiple_setup_result(t: TestResult) -> bool {
    &&& !t.success
    &&& t.reason matches Some(rs) && rs@ == "Multiple setUp functions"@
    &&& t.counterexample is None
    &&& t.logs@.len() == 0
    &&& t.kind == TestKind::Standard(0)
    &&& t.traces@.len() == 0
    &&& t.coverage is None
    &&& t.labeled_addresses@.len() == 0
}

/// The synthetic result reported when the setup stage failed: everything
/// collected while setting up, under the setup hook's key.
pub open spec fn failed_setup_result(t: TestResult, stp: TestSetup) -> bool {
    &&& !t.success
    &&& t.reason == stp.reason
    &&& t.counterexample is None
    &&& t.logs@ == stp.logs@
    &&& t.kind == TestKind::Standard(0)
    &&& t.traces@ == stp.traces@
    &&& t.coverage is None
    &&& t.labeled_addresses@ == stp.labeled_addresses@
}

/// The warnings a suite reports: one per mis-cased setup hook.
pub open spec fn warnings_ok(ws: Seq<String>, fs: Seq<crate::types::FunctionDef>) -> bool {
    &&& ws.len() == miscased_setup_fns(fs).len()
    &&& forall|i: int|
        0 <= i < ws.len() ==> ws[i]@ == setup_warning_of(miscased_setup_fns(fs)[i].signature@)
}

/// How one unit/fuzz entry of the result map relates to its candidate,
/// the post-setup state and its recorded script.
pub open spec fn entry_ok(
    t: TestResult,
    cand: crate::types::FunctionDef,
    stp: TestSetup,
    opts: TestOptions,
    sender: u64,
    ts: TestScript,
) -> bool {
    let should_fail = is_test_fail_name(cand.name@);
    match ts {
        TestScript::Unit(o) => o matches CallOutcome::Completed(rec) && unit_result_matches(
            t,
            stp,
            should_fail,
            rec,
        ),
        TestScript::Fuzz(cases) => fuzz_result_matches(
            t,
            stp,
            should_fail,
            opts.fuzz_runs,
            opts.fuzz_max_local_rejects,
            opts.fuzz_max_global_rejects,
            sender,
            stp.address,
            cases@,
        ),
    }
}

/// The known-contracts table as a sequence; absent means empty.
pub open spec fn spec_known(known: Option<&Vec<KnownContract>>) -> Seq<KnownContract> {
    match known {
        Some(v) => v@,
        None => Seq::empty(),
    }
}

/// What `run_tests` guarantees: ambiguous setup yields exactly the one
/// synthetic result; a faulting environment is a hard error; a failed
/// setup yields exactly the one synthetic setup result; otherwise every
/// discovered candidate has exactly one result of the shape its script
/// dictates, and the invariant campaign's per-function results are merged
/// in under their signatures.
pub open spec fn suite_post(
    runner: ContractRunner,
    filter: TestFilter,
    opts: TestOptions,
    known: Seq<KnownContract>,
    script: SuiteScript,
    duration_ms: u64,
    r: Result<SuiteResult, EnvFault>,
) -> bool {
    let fs = runner.contract.functions@;
    let cands = unit_fuzz_candidates(fs, filter, opts);
    let inv_cands = invariant_test_candidates(fs, filter);
    let multiple = ambiguous_setup(fs);
    let needs = canonical_setup_fns(fs).len() == 1;
    let has_inv = exists|i: int| 0 <= i < fs.len() && is_invariant_name(fs[i].name@);
    if multiple {
        r matches Ok(s) && {
            &&& s.duration_ms == duration_ms
            &&& warnings_ok(s.warnings@, fs)
            &&& s.test_results.wf()
            &&& s.test_results.entries@.len() == 1
            &&& s.test_results.spec_get("setUp()"@) matches Some(t) && multiple_setup_result(t)
        }
    } else if setup_faults(script.setup) {
        r matches Err(e) && setup_matches(Err(e), script.setup, needs)
    } else {
        exists|stp: TestSetup|
            #[trigger] setup_matches(Ok(stp), script.setup, needs) && suite_post_with_setup(
                runner,
                filter,
                opts,
                known,
                script,
                duration_ms,
                r,
                stp,
            )
    }
}

/// What the suite guarantees once the setup stage produced `stp`: the
/// short-circuit on a failed setup, the hard error on a faulting unit
/// call, and otherwise one result per candidate plus the merged
/// invariant results.
pub open spec fn suite_post_with_setup(
    runner: ContractRunner,
    filter: TestFilter,
    opts: TestOptions,
    known: Seq<KnownContract>,
    script: SuiteScript,
    duration_ms: u64,
    r: Result<SuiteResult, EnvFault>,
    stp: TestSetup,
) -> bool {
    let fs = runner.contract.functions@;
    let cands = unit_fuzz_candidates(fs, filter, opts);
    let inv_cands = invariant_test_candidates(fs, filter);
    let has_inv = exists|i: int| 0 <= i < fs.len() && is_invariant_name(fs[i].name@);
    if stp.setup_failed {
        r matches Ok(s) && {
            &&& s.duration_ms == duration_ms
            &&& warnings_ok(s.warnings@, fs)
            &&& s.test_results.wf()
            &&& s.test_results.entries@.len() == 1
            &&& s.test_results.spec_get("setUp()"@) matches Some(t)
                && failed_setup_result(t, stp)
        }
    } else if first_unit_fault(script.tests@, 0) < script.tests@.len() {
        r matches Err(e) && e.message@ == script.tests@[
            first_unit_fault(script.tests@, 0)
        ]->Unit_0->Fault_0@
    } else {
        r matches Ok(s) && {
            &&& s.duration_ms == duration_ms
            &&& warnings_ok(s.warnings@, fs)
            &&& s.test_results.wf()
            &&& forall|i: int|
                0 <= i < cands.len() ==> (s.test_results.spec_get(
                    (#[trigger] cands[i]).signature@,
                ) matches Some(t) && entry_ok(
                    t,
                    cands[i],
                    stp,
                    opts,
                    runner.sender,
                    script.tests@[i],
                ))
            &&& if has_inv && opts.include_fuzz_tests {
                &&& s.test_results.entries@.len() == cands.len() + inv_cands.len()
                &&& exists|ress: Seq<TestResult>|
                    #[trigger] invariant_results_match(
                        ress,
                        inv_cands.len() as int,
                        stp,
                        script.plan@,
                        opts.invariant_fail_on_revert,
                        script.replays@,
                        identify(known, creations_of(stp.traces@)),
                        known,
                    ) && forall|k: int|
                        0 <= k < inv_cands.len() ==> s.test_results.spec_get(
                            (#[trigger] inv_cands[k]).signature@,
                        ) == Some(ress[k])
            } else {
                s.test_results.entries@.len() == cands.len()
            }
        }
    }
}

pub proof fn lemma_unit_result_setup_eq(
    t: TestResult,
    a: TestSetup,
    b: TestSetup,
    should_fail: bool,
    rec: CallRecord,
)
    requires
        unit_result_matches(t, a, should_fail, rec),
        setup_eq(a, b),
    ensures
        unit_result_matches(t, b, should_fail, rec),
{
    let x = crate::unit::exec_trace_entries(rec.traces, crate::types::TraceKind::Execution);
    lemma_trace_entries_eq_concat(a.traces@, b.traces@, x);
    lemma_trace_entries_eq_trans(t.traces@, a.traces@ + x, b.traces@ + x);
}

pub proof fn lemma_fuzz_result_setup_eq(
    t: TestResult,
    a: TestSetup,
    b: TestSetup,
    should_fail: bool,
    budget: u32,
    max_local: u32,
    max_global: u32,
    sender: u64,
    address: u64,
    cases: Seq<FuzzCase>,
)
    requires
        fuzz_result_matches(t, a, should_fail, budget, max_local, max_global, sender, address, cases),
        setup_eq(a, b),
    ensures
        fuzz_result_matches(t, b, should_fail, budget, max_local, max_global, sender, address, cases),
{
    let d = crate::fuzz::fuzz_decide(cases, should_fail, budget, max_local, max_global, 0, 0, 0, 0);
    let x = crate::fuzz::cases_traces(cases, crate::fuzz::decision_consumed(d));
    lemma_trace_entries_eq_concat(a.traces@, b.traces@, x);
    lemma_trace_entries_eq_trans(t.traces@, a.traces@ + x, b.traces@ + x);
}


impl ContractRunner {
    /// Runs one fuzz test from the post-setup state over the recorded case
    /// script; the non-committing calls the driver was to make, one per
    /// case whose generated input was not rejected, are appended to
    /// `commands`.
    pub fn run_fuzz_test(
        &self,
        should_fail: bool,
        opts: &TestOptions,
        setup: TestSetup,
        cases: Vec<FuzzCase>,
        commands: &mut Vec<EnvCommand>,
    ) -> (r: TestResult)
        requires
            fuzz_script_adequate(cases@, opts.fuzz_runs, opts.fuzz_max_global_rejects),
        ensures
            fuzz_result_matches(
                r,
                setup,
                should_fail,
                opts.fuzz_runs,
                opts.fuzz_max_local_rejects,
                opts.fuzz_max_global_rejects,
                self.sender,
                setup.address,
                cases@,
            ),
            final(commands)@ == old(commands)@ + fuzz_call_cmds(
                cases@,
                self.sender,
                setup.address,
                decision_consumed(
                    fuzz_decide(
                        cases@,
                        should_fail,
                        opts.fuzz_runs,
                        opts.fuzz_max_local_rejects,
                        opts.fuzz_max_global_rejects,
                        0,
                        0,
                        0,
                        0,
                    ),
                ),
            ),
    {
        let address = setup.address;
        run_fuzz(
            setup,
            should_fail,
            opts.fuzz_runs,
            opts.fuzz_max_local_rejects,
            opts.fuzz_max_global_rejects,
            self.sender,
            address,
            cases,
            commands,
        )
    }

    /// Runs all tests of the contract whose signatures the filter accepts:
    /// resolves the setup hook, short-circuits on ambiguous or failed
    /// setup, runs every unit and fuzz candidate from its own copy of the
    /// post-setup state, runs the invariant campaign when invariant
    /// functions exist, and aggregates one result per test, ordered by
    /// signature.
    #[verifier::loop_isolation(false)]
    #[verifier::rlimit(50)]
    pub fn run_tests(
        &self,
        filter: &TestFilter,
        options: &TestOptions,
        known_contracts: Option<&Vec<KnownContract>>,
        script: SuiteScript,
        duration_ms: u64,
    ) -> (r: Result<SuiteResult, EnvFault>)
        requires
            abi_sigs_distinct(self.contract.functions@),
            suite_script_wf(script, *self, *filter, *options),
        ensures
            suite_post(
                *self,
                *filter,
                *options,
                spec_known(known_contracts),
                script,
                duration_ms,
                r,
            ),
    {
        let ghost fs = self.contract.functions@;
        let ghost script0 = script;
        let ghost known0 = spec_known(known_contracts);
        let analysis = analyze_setup_fns(&self.contract);
        let warnings = analysis.warnings;
        proof {
            assert(analysis.multiple_setup == ambiguous_setup(fs));
        }

        if analysis.multiple_setup {
            let mut map = ResultMap::new();
            map.insert(
                String::from_str("setUp()"),
                TestResult {
                    success: false,
                    reason: Some(String::from_str("Multiple setUp functions")),
                    counterexample: None,
                    logs: Vec::new(),
                    kind: TestKind::Standard(0),
                    traces: Vec::new(),
                    coverage: None,
                    labeled_addresses: Vec::new(),
                },
            );
            return Ok(SuiteResult::new(duration_ms, map, warnings));
        }

        let has_inv = has_invariant_fns(&self.contract);
        let needs_setup = analysis.needs_setup;

        let SuiteScript { setup: setup_script, tests, plan, replays } = script;
        let mut commands: Vec<EnvCommand> = Vec::new();
        let stp = match self.setup(needs_setup, setup_script, &mut commands) {
            Ok(s) => s,
            Err(e) => {
                proof {
                    lemma_setup_matches_fault(Err(e), script0.setup, needs_setup);
                }
                return Err(e);
            },
        };
        proof {
            lemma_setup_matches_fault(Ok(stp), script0.setup, needs_setup);
        }

        if stp.setup_failed {
            let ghost stp0 = stp;
            let TestSetup {
                address: _,
                logs,
                traces,
                labeled_addresses,
                setup_failed: _,
                reason,
            } = stp;
            let mut map = ResultMap::new();
            map.insert(
                String::from_str("setUp()"),
                TestResult {
                    success: false,
                    reason,
                    counterexample: None,
                    logs,
                    kind: TestKind::Standard(0),
                    traces,
                    coverage: None,
                    labeled_addresses,
                },
            );
            let out = SuiteResult::new(duration_ms, map, warnings);
            proof {
                assert(setup_matches(Ok(stp0), script0.setup, canonical_setup_fns(fs).len() == 1));
                assert(suite_post_with_setup(
                    *self,
                    *filter,
                    *options,
                    known0,
                    script0,
                    duration_ms,
                    Ok(out),
                    stp0,
                ));
                assert(suite_post(*self, *filter, *options, known0, script0, duration_ms, Ok(out)));
            }
            return Ok(out);
        }

        let cands = collect_unit_fuzz_candidates(&self.contract, filter, options);
        let ghost cands0 = cands@;
        let ghost tests0 = tests@;
        proof {
            lemma_unit_fuzz_cands_wf(fs, *filter, *options);
        }
        let mut tests = tests;
        let mut map = ResultMap::new();
        let n_c: usize = cands.len();
        let mut i: usize = 0;
        while i < n_c
            invariant
                i <= n_c,
                tests@ == tests0.skip(i as int),
                map.wf(),
                map.entries@.len() == i,
                forall|j: int|
                    0 <= j < i ==> !((#[trigger] tests0[j]) matches TestScript::Unit(
                        CallOutcome::Fault(_),
                    )),
                forall|j: int|
                    0 <= j < i ==> (map.spec_get((#[trigger] cands0[j]).signature@)
                        matches Some(t) && entry_ok(
                        t,
                        cands0[j],
                        stp,
                        *options,
                        self.sender,
                        tests0[j],
                    )),
                forall|k: Seq<char>|
                    (forall|j: int| 0 <= j < i ==> k != (#[trigger] cands0[j]).signature@)
                        ==> #[trigger] map.spec_get(k) is None,
            decreases n_c - i,
        {
            let cand = &cands[i];
            let should_fail = is_should_fail(cand);
            proof {
                assert(tests0.skip(i as int)[0] == tests0[i as int]);
                assert(tests0.skip(i as int).remove(0) =~= tests0.skip(i as int + 1));
            }
            let ts = tests.remove(0);
            let setup_i = stp.duplicate();
            let result = match ts {
                TestScript::Unit(outcome) => {
                    match self.run_test(should_fail, setup_i, outcome, &mut commands) {
                        Ok(t) => t,
                        Err(e) => {
                            proof {
                                lemma_first_unit_fault_advance(tests0, 0, i as int);
                            }
                            return Err(e);
                        },
                    }
                },
                TestScript::Fuzz(cases) => {
                    self.run_fuzz_test(should_fail, options, setup_i, cases, &mut commands)
                },
            };
            proof {
                match tests0[i as int] {
                    TestScript::Unit(o) => {
                        lemma_unit_result_setup_eq(
                            result,
                            setup_i,
                            stp,
                            is_test_fail_name(cands0[i as int].name@),
                            o->Completed_0,
                        );
                    },
                    TestScript::Fuzz(cases) => {
                        lemma_fuzz_result_setup_eq(
                            result,
                            setup_i,
                            stp,
                            is_test_fail_name(cands0[i as int].name@),
                            options.fuzz_runs,
                            options.fuzz_max_local_rejects,
                            options.fuzz_max_global_rejects,
                            self.sender,
                            setup_i.address,
                            cases@,
                        );
                    },
                }
                assert(entry_ok(
                    result,
                    cands0[i as int],
                    stp,
                    *options,
                    self.sender,
                    tests0[i as int],
                ));
            }
            map.insert(cand.signature.clone(), result);
            i += 1;
        }
        proof {
            lemma_first_unit_fault_advance(tests0, 0, tests0.len() as int);
        }

        if has_inv && options.include_fuzz_tests {
            let inv_cands = collect_invariant_candidates(&self.contract, filter);
            let ghost inv0 = inv_cands@;
            proof {
                lemma_invariant_cands_wf(fs, *filter);
                lemma_unit_inv_sigs_disjoint(fs, *filter, *options);
            }
            let empty_known: Vec<KnownContract> = Vec::new();
            let known_ref = match known_contracts {
                Some(v) => v,
                None => &empty_known,
            };
            let identified = load_contracts(&stp.traces, known_ref);
            let mut inv_results = self.run_invariant_test(
                inv_cands.len(),
                &stp,
                options.invariant_runs,
                options.invariant_depth,
                options.invariant_fail_on_revert,
                &plan,
                replays,
                &identified,
                known_ref,
                &mut commands,
            );
            let ghost inv_results0 = inv_results@;
            let n_inv: usize = inv_cands.len();
            let mut k: usize = 0;
            while k < n_inv
                invariant
                    k <= n_inv,
                    inv_results@ == inv_results0.skip(k as int),
                    inv_results0.len() == n_inv,
                    map.wf(),
                    map.entries@.len() == n_c + k,
                    forall|j: int|
                        0 <= j < n_c ==> (map.spec_get((#[trigger] cands0[j]).signature@)
                            matches Some(t) && entry_ok(
                            t,
                            cands0[j],
                            stp,
                            *options,
                            self.sender,
                            tests0[j],
                        )),
                    forall|j: int|
                        0 <= j < k ==> map.spec_get((#[trigger] inv0[j]).signature@) == Some(
                            inv_results0[j],
                        ),
                    forall|kk: Seq<char>|
                        ((forall|j: int| 0 <= j < n_c ==> kk != (#[trigger] cands0[j]).signature@)
                            && (forall|j: int|
                            0 <= j < k ==> kk != (#[trigger] inv0[j]).signature@))
                            ==> #[trigger] map.spec_get(kk) is None,
                decreases n_inv - k,
            {
                proof {
                    assert(inv_results0.skip(k as int)[0] == inv_results0[k as int]);
                    assert(inv_results0.skip(k as int).remove(0) =~= inv_results0.skip(
                        k as int + 1,
                    ));
                }
                let res = inv_results.remove(0);
                map.insert(inv_cands[k].signature.clone(), res);
                k += 1;
            }
            return Ok(SuiteResult::new(duration_ms, map, warnings));
        }

        Ok(SuiteResult::new(duration_ms, map, warnings))
    }
}

} // verus!
