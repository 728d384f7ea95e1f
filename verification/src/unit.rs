//! Unit test execution: success classification and result construction for
//! a single no-argument test call.

use vstd::prelude::*;

use crate::types::{trace_entries_eq, CallRecord, TestKind, TestResult, TestSetup, Trace, TraceKind};

verus! {

/// The success policy: a test named with the `testFail` convention succeeds
/// exactly when its call reverted, an ordinary test succeeds exactly when
/// its call did not revert, and a call that aborted through the
/// environment's assumption signal is not counted a failure.
pub open spec fn spec_is_success(should_fail: bool, reverted: bool, assume_aborted: bool) -> bool {
    if assume_aborted {
        true
    } else {
        should_fail == reverted
    }
}

/// Classifies one call under the success policy.
pub fn classify_success(should_fail: bool, reverted: bool, assume_aborted: bool) -> (r: bool)
    ensures
        r == spec_is_success(should_fail, reverted, assume_aborted),
{
    if assume_aborted {
        true
    } else {
        should_fail == reverted
    }
}

/// Gas used net of the call stipend, saturating at zero.
pub open spec fn spec_net_gas(gas: u64, stipend: u64) -> u64 {
    if gas >= stipend {
        (gas - stipend) as u64
    } else {
        0
    }
}

/// Subtracts the call stipend from the gas used, saturating at zero.
pub fn net_gas(gas: u64, stipend: u64) -> (r: u64)
    ensures
        r == spec_net_gas(gas, stipend),
{
    if gas >= stipend {
        gas - stipend
    } else {
        0
    }
}

/// The tagged trace entries contributed by one optional execution trace.
pub open spec fn exec_trace_entries(t: Option<Trace>, kind: TraceKind) -> Seq<(TraceKind, Trace)> {
    match t {
        Some(tr) => seq![(kind, tr)],
        None => Seq::empty(),
    }
}

/// How a unit test's result relates to the post-setup state and the
/// environment's record of the one test call.
pub open spec fn unit_result_matches(
    r: TestResult,
    setup: TestSetup,
    should_fail: bool,
    rec: CallRecord,
) -> bool {
    &&& r.success == spec_is_success(should_fail, rec.reverted, rec.assume_aborted)
    &&& r.reason == rec.reason
    &&& r.counterexample is None
    &&& r.logs@ == setup.logs@ + rec.logs@
    &&& r.kind == TestKind::Standard(spec_net_gas(rec.gas, rec.stipend))
    &&& trace_entries_eq(
        r.traces@,
        setup.traces@ + exec_trace_entries(rec.traces, TraceKind::Execution),
    )
    &&& r.coverage == rec.coverage
    &&& r.labeled_addresses@ == setup.labeled_addresses@ + rec.labels@
}

/// Builds the result of one unit test call from the post-setup state and
/// the environment's record of that call.
pub fn build_unit_result(setup: TestSetup, should_fail: bool, rec: CallRecord) -> (r: TestResult)
    ensures
        unit_result_matches(r, setup, should_fail, rec),
{
    let ghost setup0 = setup;
    let ghost rec0 = rec;
    let CallRecord {
        reverted,
        reason,
        gas,
        stipend,
        logs: mut exec_logs,
        traces: exec_traces,
        labels: mut exec_labels,
        coverage,
        assume_aborted,
    } = rec;
    let mut logs = setup.logs;
    logs.append(&mut exec_logs);
    let mut labeled_addresses = setup.labeled_addresses;
    labeled_addresses.append(&mut exec_labels);
    let mut traces = setup.traces;
    match exec_traces {
        Some(t) => {
            traces.push((TraceKind::Execution, t));
            proof {
                assert(traces@ =~= setup0.traces@ + exec_trace_entries(
                    rec0.traces,
                    TraceKind::Execution,
                ));
            }
        },
        None => {
            proof {
                assert(traces@ =~= setup0.traces@ + exec_trace_entries(
                    rec0.traces,
                    TraceKind::Execution,
                ));
            }
        },
    }
    let success = classify_success(should_fail, reverted, assume_aborted);
    TestResult {
        success,
        reason,
        counterexample: None,
        logs,
        kind: TestKind::Standard(net_gas(gas, stipend)),
        traces,
        coverage,
        labeled_addresses,
    }
}

} // verus!
