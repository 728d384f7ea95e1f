use forge::discovery::{analyze_setup_fns, TestFilter};
use forge::fuzz::{CaseOutcome, FuzzCase};
use forge::resmap::ResultMap;
use forge::runner::{ContractRunner, SuiteScript, TestScript};
use forge::setup::SetupScript;
use forge::types::{
    Abi, CallOutcome, CallRecord, CreatedContract, DeployOutcome, EnvCommand, FunctionDef, Log,
    TestKind, TestOptions, TestResult, Trace, TraceKind,
};

fn func(name: &str, sig: &str, n_inputs: usize) -> FunctionDef {
    FunctionDef { name: String::from(name), signature: String::from(sig), n_inputs }
}

fn hook_record(reverted: bool) -> CallRecord {
    CallRecord {
        reverted,
        reason: if reverted { Some(String::from("hook broke")) } else { None },
        gas: 21_000,
        stipend: 0,
        logs: vec![Log { record: 5 }],
        traces: Some(Trace { id: 3, created: Vec::new() }),
        labels: vec![(77, String::from("Helper"))],
        coverage: None,
        assume_aborted: false,
    }
}

fn deployed(address: u64) -> DeployOutcome {
    DeployOutcome::Deployed {
        address,
        logs: vec![Log { record: 2 }],
        traces: Some(Trace { id: 1, created: vec![CreatedContract { address, code_id: 50 }] }),
    }
}

fn plain_setup_script(hook_reverted: bool) -> SetupScript {
    SetupScript {
        lib_results: Vec::new(),
        contract_result: deployed(42),
        deployer_fault: None,
        hook_result: CallOutcome::Completed(hook_record(hook_reverted)),
    }
}

fn runner_for(functions: Vec<FunctionDef>) -> ContractRunner {
    ContractRunner::new(
        Abi { functions },
        vec![0x60],
        1_000_000,
        Some(9),
        None,
        Vec::new(),
    )
}

fn options() -> TestOptions {
    TestOptions {
        include_fuzz_tests: true,
        fuzz_runs: 3,
        fuzz_max_local_rejects: 2,
        fuzz_max_global_rejects: 4,
        invariant_runs: 0,
        invariant_depth: 0,
        invariant_fail_on_revert: false,
        invariant_call_override: false,
    }
}

#[test]
fn setup_issues_preamble_then_deploys() {
    let r = runner_for(vec![func("setUp", "setUp()", 0)]);
    let mut commands: Vec<EnvCommand> = Vec::new();
    let setup = r.setup(true, plain_setup_script(false), &mut commands).unwrap();
    assert!(!setup.setup_failed);
    assert_eq!(setup.address, 42);
    assert_eq!(
        &commands[..3],
        &[
            EnvCommand::SetBalance { address: 9, amount: u64::MAX },
            EnvCommand::SetBalance { address: forge::CALLER, amount: u64::MAX },
            EnvCommand::SetNonce { address: 9, nonce: 1 },
        ]
    );
    assert_eq!(commands[3], EnvCommand::DeployContract);
    assert_eq!(commands[4], EnvCommand::SetBalance { address: 42, amount: 1_000_000 });
    assert_eq!(commands[5], EnvCommand::SetBalance { address: 9, amount: 1_000_000 });
    assert_eq!(commands[6], EnvCommand::InstallDeterministicDeployer);
    assert_eq!(commands[7], EnvCommand::CallSetupHook { address: 42 });
    assert_eq!(commands.len(), 8);
}

#[test]
fn setup_library_revert_short_circuits() {
    let r = ContractRunner::new(
        Abi { functions: Vec::new() },
        vec![0x60],
        1_000_000,
        Some(9),
        None,
        vec![vec![0x11], vec![0x22]],
    );
    let script = SetupScript {
        lib_results: vec![
            deployed(100),
            DeployOutcome::Reverted {
                reason: String::from("lib constructor reverted"),
                logs: vec![Log { record: 9 }],
                traces: Some(Trace { id: 8, created: Vec::new() }),
                labels: Vec::new(),
            },
        ],
        contract_result: deployed(42),
        deployer_fault: None,
        hook_result: CallOutcome::Completed(hook_record(false)),
    };
    let mut commands: Vec<EnvCommand> = Vec::new();
    let setup = r.setup(true, script, &mut commands).unwrap();
    assert!(setup.setup_failed);
    assert_eq!(setup.address, 0);
    assert_eq!(setup.reason, Some(String::from("lib constructor reverted")));
    // The failing deployment's trace is re-tagged as a setup trace.
    assert_eq!(setup.traces.len(), 1);
    assert_eq!(setup.traces[0].0, TraceKind::Setup);
    assert_eq!(setup.traces[0].1.id, 8);
}

#[test]
fn setup_hook_revert_is_collected_not_fatal() {
    let r = runner_for(vec![func("setUp", "setUp()", 0)]);
    let mut commands: Vec<EnvCommand> = Vec::new();
    let setup = r.setup(true, plain_setup_script(true), &mut commands).unwrap();
    assert!(setup.setup_failed);
    assert_eq!(setup.reason, Some(String::from("Setup failed: hook broke")));
    assert_eq!(setup.address, 42);
}

#[test]
fn setup_deployer_fault_is_hard_error() {
    let r = runner_for(Vec::new());
    let script = SetupScript {
        lib_results: Vec::new(),
        contract_result: deployed(42),
        deployer_fault: Some(String::from("deployer misconfigured")),
        hook_result: CallOutcome::Completed(hook_record(false)),
    };
    let mut commands: Vec<EnvCommand> = Vec::new();
    let err = r.setup(false, script, &mut commands).unwrap_err();
    assert_eq!(err.message, String::from("deployer misconfigured"));
}

#[test]
fn miscased_setup_warns_and_proceeds() {
    let abi = vec![
        func("setUp", "setUp()", 0),
        func("setup", "setup()", 0),
        func("testPing", "testPing()", 0),
    ];
    let analysis = analyze_setup_fns(&Abi { functions: abi.clone() });
    assert!(analysis.needs_setup);
    assert!(!analysis.multiple_setup);
    assert_eq!(analysis.warnings.len(), 1);
    assert_eq!(
        analysis.warnings[0],
        String::from("Found invalid setup function \"setup()\" did you mean \"setUp()\"?")
    );

    let r = runner_for(abi);
    let script = SuiteScript {
        setup: plain_setup_script(false),
        tests: vec![TestScript::Unit(CallOutcome::Completed(unit_record(false)))],
        plan: Vec::new(),
        replays: Vec::new(),
    };
    let suite = r.run_tests(&TestFilter::All, &options(), None, script, 12).unwrap();
    assert_eq!(suite.warnings.len(), 1);
    assert_eq!(suite.test_results.entries.len(), 1);
    assert_eq!(suite.test_results.entries[0].0, String::from("testPing()"));
    assert!(suite.test_results.entries[0].1.success);
}

fn unit_record(reverted: bool) -> CallRecord {
    CallRecord {
        reverted,
        reason: if reverted { Some(String::from("assertion failed")) } else { None },
        gas: 30_000,
        stipend: 2_100,
        logs: Vec::new(),
        traces: None,
        labels: Vec::new(),
        coverage: None,
        assume_aborted: false,
    }
}

#[test]
fn multiple_canonical_setups_short_circuit() {
    let abi = vec![
        func("setUp", "setUp()", 0),
        func("setUp", "setUp(uint256)", 1),
        func("testPing", "testPing()", 0),
    ];
    let r = runner_for(abi);
    let script = SuiteScript {
        setup: plain_setup_script(false),
        tests: vec![TestScript::Unit(CallOutcome::Completed(unit_record(false)))],
        plan: Vec::new(),
        replays: Vec::new(),
    };
    let suite = r.run_tests(&TestFilter::All, &options(), None, script, 3).unwrap();
    assert_eq!(suite.test_results.entries.len(), 1);
    let (sig, result) = &suite.test_results.entries[0];
    assert_eq!(sig, &String::from("setUp()"));
    assert!(!result.success);
    assert_eq!(result.reason, Some(String::from("Multiple setUp functions")));
    assert_eq!(result.kind, TestKind::Standard(0));
}

#[test]
fn failed_setup_yields_single_synthetic_result() {
    let abi = vec![func("setUp", "setUp()", 0), func("testPing", "testPing()", 0)];
    let r = runner_for(abi);
    let script = SuiteScript {
        setup: plain_setup_script(true),
        tests: vec![TestScript::Unit(CallOutcome::Completed(unit_record(false)))],
        plan: Vec::new(),
        replays: Vec::new(),
    };
    let suite = r.run_tests(&TestFilter::All, &options(), None, script, 3).unwrap();
    assert_eq!(suite.test_results.entries.len(), 1);
    let (sig, result) = &suite.test_results.entries[0];
    assert_eq!(sig, &String::from("setUp()"));
    assert!(!result.success);
    assert_eq!(result.reason, Some(String::from("Setup failed: hook broke")));
}

#[test]
fn filter_limits_discovery() {
    let abi = vec![
        func("testA", "testA()", 0),
        func("testB", "testB()", 0),
    ];
    let r = runner_for(abi);
    let filter = TestFilter::AnyOf(vec![String::from("testB()")]);
    let script = SuiteScript {
        setup: plain_setup_script(false),
        tests: vec![TestScript::Unit(CallOutcome::Completed(unit_record(false)))],
        plan: Vec::new(),
        replays: Vec::new(),
    };
    let suite = r.run_tests(&filter, &options(), None, script, 1).unwrap();
    assert_eq!(suite.test_results.entries.len(), 1);
    assert_eq!(suite.test_results.entries[0].0, String::from("testB()"));
}

#[test]
fn results_are_ordered_by_signature() {
    let mut map = ResultMap::new();
    let blank = TestResult {
        success: true,
        reason: None,
        counterexample: None,
        logs: Vec::new(),
        kind: TestKind::Standard(0),
        traces: Vec::new(),
        coverage: None,
        labeled_addresses: Vec::new(),
    };
    map.insert(String::from("testZ()"), blank.clone());
    map.insert(String::from("testA()"), blank.clone());
    map.insert(String::from("invariantM()"), blank.clone());
    assert_eq!(map.entries.len(), 3);
    assert_eq!(map.entries[0].0, String::from("invariantM()"));
    assert_eq!(map.entries[1].0, String::from("testA()"));
    assert_eq!(map.entries[2].0, String::from("testZ()"));
    // Inserting under an existing signature replaces, never duplicates.
    let mut replaced = blank.clone();
    replaced.success = false;
    map.insert(String::from("testA()"), replaced);
    assert_eq!(map.entries.len(), 3);
    assert!(!map.entries[1].1.success);
}

#[test]
fn zero_matched_tests_is_empty_map_not_error() {
    let abi = vec![func("setUp", "setUp()", 0), func("helper", "helper()", 0)];
    let r = runner_for(abi);
    let script = SuiteScript {
        setup: plain_setup_script(false),
        tests: Vec::new(),
        plan: Vec::new(),
        replays: Vec::new(),
    };
    let suite = r.run_tests(&TestFilter::All, &options(), None, script, 2).unwrap();
    assert_eq!(suite.test_results.entries.len(), 0);
    assert_eq!(suite.warnings.len(), 0);
}

#[test]
fn unit_fault_aborts_whole_run() {
    let abi = vec![func("setUp", "setUp()", 0), func("testA", "testA()", 0)];
    let r = runner_for(abi);
    let script = SuiteScript {
        setup: plain_setup_script(false),
        tests: vec![TestScript::Unit(CallOutcome::Fault(String::from("backend lost")))],
        plan: Vec::new(),
        replays: Vec::new(),
    };
    match r.run_tests(&TestFilter::All, &options(), None, script, 2) {
        Err(err) => assert_eq!(err.message, String::from("backend lost")),
        Ok(_) => panic!("expected a hard error"),
    }
}

#[test]
fn library_deployments_keep_their_traces() {
    let r = ContractRunner::new(
        Abi { functions: Vec::new() },
        vec![0x60],
        1_000_000,
        Some(9),
        None,
        vec![vec![0x11]],
    );
    let script = SetupScript {
        lib_results: vec![deployed(100)],
        contract_result: deployed(42),
        deployer_fault: None,
        hook_result: CallOutcome::Completed(hook_record(false)),
    };
    let mut commands: Vec<EnvCommand> = Vec::new();
    let setup = r.setup(false, script, &mut commands).unwrap();
    assert!(!setup.setup_failed);
    // One deployment trace per library, then the contract's own.
    assert_eq!(setup.traces.len(), 2);
    assert_eq!(setup.traces[0].0, TraceKind::Deployment);
    assert_eq!(setup.traces[1].0, TraceKind::Deployment);
    assert_eq!(commands[3], EnvCommand::DeployLibrary { index: 0 });
}

#[test]
fn suite_runs_fuzz_candidates() {
    let abi = vec![func("setUp", "setUp()", 0), func("testAdd", "testAdd(uint8)", 1)];
    let r = runner_for(abi);
    let opts = options();
    let n_cases = (opts.fuzz_runs + opts.fuzz_max_global_rejects) as usize;
    let cases: Vec<FuzzCase> = (0..n_cases)
        .map(|i| FuzzCase {
            calldata: vec![i as u8],
            outcome: CaseOutcome::Ran(unit_record(false)),
        })
        .collect();
    let script = SuiteScript {
        setup: plain_setup_script(false),
        tests: vec![TestScript::Fuzz(cases)],
        plan: Vec::new(),
        replays: Vec::new(),
    };
    let suite = r.run_tests(&TestFilter::All, &opts, None, script, 2).unwrap();
    assert_eq!(suite.test_results.entries.len(), 1);
    let (sig, result) = &suite.test_results.entries[0];
    assert_eq!(sig, &String::from("testAdd(uint8)"));
    assert!(result.success);
    assert_eq!(result.kind, TestKind::Fuzz(opts.fuzz_runs as u64));
}

#[test]
fn two_miscased_setups_short_circuit() {
    // Two case-insensitive setup candidates, neither exactly canonical:
    // no hook can be preferred, so the suite short-circuits into the one
    // synthetic failing result.
    let abi = vec![
        func("setup", "setup()", 0),
        func("SetUp", "SetUp()", 0),
        func("testPing", "testPing()", 0),
    ];
    let analysis = analyze_setup_fns(&Abi { functions: abi.clone() });
    assert!(analysis.multiple_setup);
    assert!(!analysis.needs_setup);
    assert_eq!(analysis.warnings.len(), 2);

    let r = runner_for(abi);
    let script = SuiteScript {
        setup: plain_setup_script(false),
        tests: vec![TestScript::Unit(CallOutcome::Completed(unit_record(false)))],
        plan: Vec::new(),
        replays: Vec::new(),
    };
    let suite = r.run_tests(&TestFilter::All, &options(), None, script, 4).unwrap();
    assert_eq!(suite.test_results.entries.len(), 1);
    let (sig, result) = &suite.test_results.entries[0];
    assert_eq!(sig, &String::from("setUp()"));
    assert!(!result.success);
    assert_eq!(result.reason, Some(String::from("Multiple setUp functions")));
    assert_eq!(suite.warnings.len(), 2);
}
