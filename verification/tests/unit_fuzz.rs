use forge::fuzz::{run_fuzz, CaseOutcome, FuzzCase};
use forge::runner::ContractRunner;
use forge::types::{Abi, CallOutcome, CallRecord, CounterExample, EnvCommand, Log, TestKind, TestSetup};
use forge::unit::{classify_success, net_gas};

fn record(reverted: bool) -> CallRecord {
    CallRecord {
        reverted,
        reason: if reverted { Some(String::from("revert: boom")) } else { None },
        gas: 40_000,
        stipend: 2_100,
        logs: vec![Log { record: 7 }],
        traces: None,
        labels: Vec::new(),
        coverage: None,
        assume_aborted: false,
    }
}

fn empty_setup() -> TestSetup {
    TestSetup {
        address: 42,
        logs: vec![Log { record: 1 }],
        traces: Vec::new(),
        labeled_addresses: Vec::new(),
        setup_failed: false,
        reason: None,
    }
}

fn runner() -> ContractRunner {
    ContractRunner::new(
        Abi { functions: Vec::new() },
        vec![0x60, 0x80],
        1_000_000,
        Some(9),
        None,
        Vec::new(),
    )
}

#[test]
fn classification_policy() {
    // test* succeeds iff the call does not revert.
    assert!(classify_success(false, false, false));
    assert!(!classify_success(false, true, false));
    // testFail* succeeds iff the call reverts.
    assert!(classify_success(true, true, false));
    assert!(!classify_success(true, false, false));
    // An assumption abort is not counted a failure.
    assert!(classify_success(false, true, true));
    assert!(classify_success(true, false, true));
}

#[test]
fn unit_test_passes_and_collects_logs() {
    let r = runner();
    let mut commands: Vec<EnvCommand> = Vec::new();
    let result = r
        .run_test(false, empty_setup(), CallOutcome::Completed(record(false)), &mut commands)
        .unwrap();
    assert_eq!(commands, vec![EnvCommand::CallTestFunction { sender: 9, target: 42 }]);
    assert!(result.success);
    assert_eq!(result.reason, None);
    assert_eq!(result.kind, TestKind::Standard(40_000 - 2_100));
    assert_eq!(result.logs, vec![Log { record: 1 }, Log { record: 7 }]);
    assert_eq!(result.counterexample, None);
}

#[test]
fn unit_test_fail_convention() {
    let r = runner();
    let reverted = r
        .run_test(true, empty_setup(), CallOutcome::Completed(record(true)), &mut Vec::new())
        .unwrap();
    assert!(reverted.success);
    assert_eq!(reverted.reason, Some(String::from("revert: boom")));

    let passed = r
        .run_test(true, empty_setup(), CallOutcome::Completed(record(false)), &mut Vec::new())
        .unwrap();
    assert!(!passed.success);
}

#[test]
fn unit_test_env_fault_is_hard_error() {
    let r = runner();
    let err = r
        .run_test(
            false,
            empty_setup(),
            CallOutcome::Fault(String::from("backend gone")),
            &mut Vec::new(),
        )
        .unwrap_err();
    assert_eq!(err.message, String::from("backend gone"));
}

#[test]
fn gas_is_net_of_stipend_and_saturates() {
    assert_eq!(net_gas(40_000, 2_100), 37_900);
    assert_eq!(net_gas(100, 2_100), 0);
}

fn passing_case(data: u8) -> FuzzCase {
    FuzzCase {
        calldata: vec![data],
        outcome: CaseOutcome::Ran(record(false)),
    }
}

fn failing_case(data: u8) -> FuzzCase {
    FuzzCase {
        calldata: vec![data],
        outcome: CaseOutcome::Ran(record(true)),
    }
}

fn rejected_case() -> FuzzCase {
    FuzzCase {
        calldata: vec![0xee],
        outcome: CaseOutcome::Rejected,
    }
}

#[test]
fn fuzz_success_reports_full_budget() {
    let cases: Vec<FuzzCase> = (0..8).map(|i| passing_case(i)).collect();
    let mut commands: Vec<EnvCommand> = Vec::new();
    let result = run_fuzz(empty_setup(), false, 5, 2, 3, 9, 42, cases, &mut commands);
    // One non-committing call per executed case.
    assert_eq!(commands.len(), 5);
    assert_eq!(commands[0], EnvCommand::CallFuzzCase { sender: 9, target: 42 });
    assert!(result.success);
    assert_eq!(result.kind, TestKind::Fuzz(5));
    assert_eq!(result.counterexample, None);
}

#[test]
fn fuzz_failure_stops_at_first_failing_case() {
    let cases = vec![
        passing_case(0),
        passing_case(1),
        failing_case(0xab),
        passing_case(3),
        passing_case(4),
        passing_case(5),
        passing_case(6),
        passing_case(7),
    ];
    let result = run_fuzz(empty_setup(), false, 5, 2, 3, 9, 42, cases, &mut Vec::new());
    assert!(!result.success);
    assert_eq!(result.kind, TestKind::Fuzz(3));
    assert_eq!(result.reason, Some(String::from("revert: boom")));
    match result.counterexample {
        Some(CounterExample::Single(bc)) => {
            assert_eq!(bc.sender, 9);
            assert_eq!(bc.target, 42);
            assert_eq!(bc.calldata, vec![0xab]);
            assert_eq!(bc.contract_name, None);
        }
        other => panic!("expected a single-call counterexample, got {:?}", other),
    }
}

#[test]
fn fuzz_local_reject_limit() {
    let cases = vec![
        rejected_case(),
        rejected_case(),
        rejected_case(),
        passing_case(1),
        passing_case(2),
    ];
    // Two consecutive rejects are allowed; the third trips the limit.
    let result = run_fuzz(empty_setup(), false, 2, 2, 3, 9, 42, cases, &mut Vec::new());
    assert!(!result.success);
    assert_eq!(result.reason, Some(String::from("Too many local rejects")));
    assert_eq!(result.kind, TestKind::Fuzz(0));
}

#[test]
fn fuzz_global_reject_limit() {
    let cases = vec![
        rejected_case(),
        passing_case(1),
        rejected_case(),
        passing_case(2),
        rejected_case(),
        passing_case(3),
        passing_case(4),
        passing_case(5),
    ];
    // Rejects never run consecutively, but the third rejected case in the
    // whole run exceeds the global allowance of two.
    let result = run_fuzz(empty_setup(), false, 5, 5, 2, 9, 42, cases, &mut Vec::new());
    assert!(!result.success);
    assert_eq!(result.reason, Some(String::from("Too many global rejects")));
}

#[test]
fn fuzz_assume_abort_counts_as_rejection() {
    let mut aborted = record(false);
    aborted.assume_aborted = true;
    let cases = vec![
        FuzzCase { calldata: vec![1], outcome: CaseOutcome::Ran(aborted) },
        passing_case(2),
        passing_case(3),
        passing_case(4),
        passing_case(5),
    ];
    let result = run_fuzz(empty_setup(), false, 3, 2, 2, 9, 42, cases, &mut Vec::new());
    assert!(result.success);
    assert_eq!(result.kind, TestKind::Fuzz(3));
}

#[test]
fn fuzz_logs_accumulate_across_cases() {
    let cases = vec![
        passing_case(0),
        passing_case(1),
        failing_case(2),
        passing_case(3),
        passing_case(4),
        passing_case(5),
    ];
    let result = run_fuzz(empty_setup(), false, 4, 2, 2, 9, 42, cases, &mut Vec::new());
    // Setup log plus one log per consumed case (three cases consumed).
    assert_eq!(result.logs.len(), 4);
    assert_eq!(result.logs[0], Log { record: 1 });
}

#[test]
fn isolation_same_inputs_same_outcome() {
    let r = runner();
    // Running A then B or B then A from the same setup: each result
    // depends only on its own recorded call.
    let a1 = r.run_test(false, empty_setup(), CallOutcome::Completed(record(false)), &mut Vec::new()).unwrap();
    let b1 = r.run_test(false, empty_setup(), CallOutcome::Completed(record(true)), &mut Vec::new()).unwrap();
    let b2 = r.run_test(false, empty_setup(), CallOutcome::Completed(record(true)), &mut Vec::new()).unwrap();
    let a2 = r.run_test(false, empty_setup(), CallOutcome::Completed(record(false)), &mut Vec::new()).unwrap();
    assert_eq!(a1, a2);
    assert_eq!(b1, b2);
}
