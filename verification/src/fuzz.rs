//! Fuzz test execution: drives a test function through a script of
//! generated cases until a configured case budget is exhausted, a failing
//! case is found, or too many cases were rejected by in-test assumptions.
//!
//! The random generator and the execution environment are outside
//! collaborators: the driver generates each input, makes the one
//! non-committing call, and records the outcome; the script of these
//! recorded cases is what the executor consumes.  The first failing case
//! wins and is reported as the counterexample.

use vstd::prelude::*;
use vstd::string::*;

use crate::types::{
    trace_entries_eq,
    BaseCall,
    EnvCommand,
    CallRecord,
    CounterExample,
    Log,
    TestKind,
    TestResult,
    TestSetup,
    Trace,
    TraceKind,
};
use crate::unit::{exec_trace_entries, spec_is_success};

verus! {

/// One generated fuzz case: the generated calldata and the environment's
/// record of what running it did.  A `Rejected` outcome is an input the
/// generator itself threw away, so no call was made.
#[derive(Clone, PartialEq, Eq, Debug)]
pub struct FuzzCase {
    pub calldata: Vec<u8>,
    pub outcome: CaseOutcome,
}

/// How one fuzz case ended: the call ran and left a record, or the input
/// was rejected before any call.
#[derive(Clone, PartialEq, Eq, Debug)]
pub enum CaseOutcome {
    Ran(CallRecord),
    Rejected,
}

/// A case counts as rejected when the generator threw the input away or
/// the call aborted through the environment's assumption signal; such a
/// case is excluded from the pass/fail tally entirely.
pub open spec fn case_rejected(c: FuzzCase) -> bool {
    match c.outcome {
        CaseOutcome::Rejected => true,
        CaseOutcome::Ran(rec) => rec.assume_aborted,
    }
}

/// A case fails when its call ran to a verdict and that verdict breaks the
/// success policy for this test.
pub open spec fn case_failed(c: FuzzCase, should_fail: bool) -> bool {
    match c.outcome {
        CaseOutcome::Ran(rec) => !rec.assume_aborted && !spec_is_success(
            should_fail,
            rec.reverted,
            false,
        ),
        CaseOutcome::Rejected => false,
    }
}

/// How one fuzz run ends.  `executed` counts the cases that ran to a
/// verdict; `consumed` is how many script entries were used.
pub enum FuzzDecision {
    /// The case budget was spent without a failure.
    Passed { executed: u32, consumed: int },
    /// The case at index `consumed - 1` failed.
    Failed { executed: u32, consumed: int },
    /// Too many rejected cases: consecutively when `global` is false,
    /// across the whole run when it is true.
    RejectLimit { executed: u32, consumed: int, global: bool },
    /// The script ended before any decision was reached.
    Exhausted { executed: u32, consumed: int },
}

pub open spec fn decision_executed(d: FuzzDecision) -> u32 {
    match d {
        FuzzDecision::Passed { executed, .. } => executed,
        FuzzDecision::Failed { executed, .. } => executed,
        FuzzDecision::RejectLimit { executed, .. } => executed,
        FuzzDecision::Exhausted { executed, .. } => executed,
    }
}

pub open spec fn decision_consumed(d: FuzzDecision) -> int {
    match d {
        FuzzDecision::Passed { consumed, .. } => consumed,
        FuzzDecision::Failed { consumed, .. } => consumed,
        FuzzDecision::RejectLimit { consumed, .. } => consumed,
        FuzzDecision::Exhausted { consumed, .. } => consumed,
    }
}

/// The fuzz run's decision, reading the script from position `i` with the
/// given counters: `executed` cases ran so far, `local` consecutive and
/// `global` total cases were rejected so far.
pub open spec fn fuzz_decide(
    cases: Seq<FuzzCase>,
    should_fail: bool,
    budget: u32,
    max_local: u32,
    max_global: u32,
    i: int,
    executed: u32,
    local: u32,
    global: u32,
) -> FuzzDecision
    decreases cases.len() - i,
{
    if executed >= budget {
        FuzzDecision::Passed { executed, consumed: i }
    } else if i < 0 || i >= cases.len() {
        FuzzDecision::Exhausted { executed, consumed: cases.len() as int }
    } else if case_rejected(cases[i]) {
        if local >= max_local {
            FuzzDecision::RejectLimit { executed, consumed: i + 1, global: false }
        } else if global >= max_global {
            FuzzDecision::RejectLimit { executed, consumed: i + 1, global: true }
        } else {
            fuzz_decide(
                cases,
                should_fail,
                budget,
                max_local,
                max_global,
                i + 1,
                executed,
                (local + 1) as u32,
                (global + 1) as u32,
            )
        }
    } else if case_failed(cases[i], should_fail) {
        FuzzDecision::Failed { executed: (executed + 1) as u32, consumed: i + 1 }
    } else {
        fuzz_decide(
            cases,
            should_fail,
            budget,
            max_local,
            max_global,
            i + 1,
            (executed + 1) as u32,
            0,
            global,
        )
    }
}

/// The logs one case contributes to the run's diagnostics.
pub open spec fn case_logs(c: FuzzCase) -> Seq<Log> {
    match c.outcome {
        CaseOutcome::Ran(rec) => rec.logs@,
        CaseOutcome::Rejected => Seq::empty(),
    }
}

/// The labels one case contributes.
pub open spec fn case_labels(c: FuzzCase) -> Seq<(u64, String)> {
    match c.outcome {
        CaseOutcome::Ran(rec) => rec.labels@,
        CaseOutcome::Rejected => Seq::empty(),
    }
}

/// The tagged traces one case contributes.
pub open spec fn case_traces(c: FuzzCase) -> Seq<(TraceKind, Trace)> {
    match c.outcome {
        CaseOutcome::Ran(rec) => exec_trace_entries(rec.traces, TraceKind::Execution),
        CaseOutcome::Rejected => Seq::empty(),
    }
}

/// The logs of the first `n` cases, in order.
pub open spec fn cases_logs(cases: Seq<FuzzCase>, n: int) -> Seq<Log>
    decreases n,
{
    if n <= 0 || n > cases.len() {
        Seq::empty()
    } else {
        cases_logs(cases, n - 1) + case_logs(cases[n - 1])
    }
}

/// The labels of the first `n` cases, in order.
pub open spec fn cases_labels(cases: Seq<FuzzCase>, n: int) -> Seq<(u64, String)>
    decreases n,
{
    if n <= 0 || n > cases.len() {
        Seq::empty()
    } else {
        cases_labels(cases, n - 1) + case_labels(cases[n - 1])
    }
}

/// The tagged traces of the first `n` cases, in order.
pub open spec fn cases_traces(cases: Seq<FuzzCase>, n: int) -> Seq<(TraceKind, Trace)>
    decreases n,
{
    if n <= 0 || n > cases.len() {
        Seq::empty()
    } else {
        cases_traces(cases, n - 1) + case_traces(cases[n - 1])
    }
}

/// The non-committing calls the driver was to make for the first `n`
/// cases: one call per case whose generated input was not rejected before
/// any call (a case the generator threw away makes no call; a call that
/// aborted through the assumption signal was still made).
pub open spec fn fuzz_call_cmds(cases: Seq<FuzzCase>, sender: u64, target: u64, n: int) -> Seq<
    EnvCommand,
>
    decreases n,
{
    if n <= 0 || n > cases.len() {
        Seq::empty()
    } else {
        fuzz_call_cmds(cases, sender, target, n - 1) + (match cases[n - 1].outcome {
            CaseOutcome::Ran(_) => seq![EnvCommand::CallFuzzCase { sender, target }],
            CaseOutcome::Rejected => Seq::empty(),
        })
    }
}

/// The reason reported when a reject limit was hit.
pub open spec fn reject_reason(global: bool) -> Seq<char> {
    if global {
        "Too many global rejects"@
    } else {
        "Too many local rejects"@
    }
}

/// A script long enough that the run always reaches a decision: every
/// entry is either executed (at most the budget) or rejected (at most the
/// global reject limit before the limit trips).
pub open spec fn fuzz_script_adequate(cases: Seq<FuzzCase>, budget: u32, max_global: u32) -> bool {
    cases.len() >= budget + max_global
}

/// The case-budget law: an adequate script never exhausts, a passing run
/// executes exactly the budget, and a failing run finds its counterexample
/// within the budget.
pub proof fn lemma_fuzz_case_budget(
    cases: Seq<FuzzCase>,
    should_fail: bool,
    budget: u32,
    max_local: u32,
    max_global: u32,
    i: int,
    executed: u32,
    local: u32,
    global: u32,
)
    requires
        0 <= i <= cases.len(),
        cases.len() - i >= (budget - executed) + (max_global - global),
        executed <= budget,
        global <= max_global,
    ensures
        !(fuzz_decide(cases, should_fail, budget, max_local, max_global, i, executed, local, global)
            is Exhausted),
        decision_executed(
            fuzz_decide(cases, should_fail, budget, max_local, max_global, i, executed, local, global),
        ) <= budget,
        fuzz_decide(cases, should_fail, budget, max_local, max_global, i, executed, local, global)
            is Passed ==> decision_executed(
            fuzz_decide(cases, should_fail, budget, max_local, max_global, i, executed, local, global),
        ) == budget,
        i <= decision_consumed(
            fuzz_decide(cases, should_fail, budget, max_local, max_global, i, executed, local, global),
        ) <= cases.len(),
    decreases cases.len() - i,
{
    if executed >= budget {
    } else if i >= cases.len() {
        assert(false);
    } else if case_rejected(cases[i]) {
        if local >= max_local {
        } else if global >= max_global {
        } else {
            lemma_fuzz_case_budget(
                cases,
                should_fail,
                budget,
                max_local,
                max_global,
                i + 1,
                executed,
                (local + 1) as u32,
                (global + 1) as u32,
            );
        }
    } else if case_failed(cases[i], should_fail) {
    } else {
        lemma_fuzz_case_budget(
            cases,
            should_fail,
            budget,
            max_local,
            max_global,
            i + 1,
            (executed + 1) as u32,
            0,
            global,
        );
    }
}

/// How a fuzz test's result relates to the post-setup state, the success
/// policy, the limits, and the script of recorded cases.
pub open spec fn fuzz_result_matches(
    r: TestResult,
    setup: TestSetup,
    should_fail: bool,
    budget: u32,
    max_local: u32,
    max_global: u32,
    sender: u64,
    address: u64,
    cases: Seq<FuzzCase>,
) -> bool {
    let d = fuzz_decide(cases, should_fail, budget, max_local, max_global, 0, 0, 0, 0);
    let n = decision_consumed(d);
    &&& r.logs@ == setup.logs@ + cases_logs(cases, n)
    &&& trace_entries_eq(r.traces@, setup.traces@ + cases_traces(cases, n))
    &&& r.labeled_addresses@ == setup.labeled_addresses@ + cases_labels(cases, n)
    &&& r.coverage is None
    &&& r.kind == TestKind::Fuzz(decision_executed(d) as u64)
    &&& match d {
        FuzzDecision::Passed { .. } => {
            &&& r.success
            &&& r.reason is None
            &&& r.counterexample is None
        },
        FuzzDecision::Failed { .. } => {
            &&& !r.success
            &&& cases[n - 1].outcome matches CaseOutcome::Ran(rec) && r.reason == rec.reason
            &&& r.counterexample matches Some(CounterExample::Single(bc)) && bc.sender == sender
                && bc.target == address && bc.calldata@ == cases[n - 1].calldata@
                && bc.contract_name is None
        },
        FuzzDecision::RejectLimit { global, .. } => {
            &&& !r.success
            &&& r.reason matches Some(s) && s@ == reject_reason(global)
            &&& r.counterexample is None
        },
        FuzzDecision::Exhausted { .. } => false,
    }
}

/// Runs one fuzz test over the script of recorded cases: cases run until
/// the budget is spent or one fails, rejected cases count against the
/// consecutive and total reject limits, and logs, labels and traces
/// accumulate across every consumed case so the diagnostics reflect the
/// whole run.
#[verifier::loop_isolation(false)]
pub fn run_fuzz(
    setup: TestSetup,
    should_fail: bool,
    budget: u32,
    max_local: u32,
    max_global: u32,
    sender: u64,
    address: u64,
    cases: Vec<FuzzCase>,
    commands: &mut Vec<EnvCommand>,
) -> (r: TestResult)
    requires
        fuzz_script_adequate(cases@, budget, max_global),
    ensures
        fuzz_result_matches(
            r,
            setup,
            should_fail,
            budget,
            max_local,
            max_global,
            sender,
            address,
            cases@,
        ),
        final(commands)@ == old(commands)@ + fuzz_call_cmds(
            cases@,
            sender,
            address,
            decision_consumed(
                fuzz_decide(cases@, should_fail, budget, max_local, max_global, 0, 0, 0, 0),
            ),
        ),
{
    let ghost cmds0 = commands@;
    let ghost cases0 = cases@;
    let ghost setup0 = setup;
    let ghost d0 = fuzz_decide(cases0, should_fail, budget, max_local, max_global, 0, 0, 0, 0);
    let mut cases = cases;
    let n_total: usize = cases.len();
    proof {
        assert(cases0.len() == n_total);
    }
    let mut logs = setup.logs;
    let mut traces = setup.traces;
    let mut labels = setup.labeled_addresses;
    let mut i: usize = 0;
    let mut executed: u32 = 0;
    let mut local: u32 = 0;
    let mut global: u32 = 0;
    proof {
        assert(cases_logs(cases0, 0) =~= Seq::<Log>::empty());
        assert(logs@ =~= setup0.logs@ + cases_logs(cases0, 0));
        assert(traces@ =~= setup0.traces@ + cases_traces(cases0, 0));
        assert(labels@ =~= setup0.labeled_addresses@ + cases_labels(cases0, 0));
        assert(commands@ =~= cmds0 + fuzz_call_cmds(cases0, sender, address, 0));
    }
    loop
        invariant
            i <= cases0.len(),
            cases@ == cases0.skip(i as int),
            executed <= budget,
            global <= max_global,
            cases0.len() - i >= (budget - executed) + (max_global - global),
            d0 == fuzz_decide(
                cases0,
                should_fail,
                budget,
                max_local,
                max_global,
                i as int,
                executed,
                local,
                global,
            ),
            logs@ == setup0.logs@ + cases_logs(cases0, i as int),
            traces@ == setup0.traces@ + cases_traces(cases0, i as int),
            labels@ == setup0.labeled_addresses@ + cases_labels(cases0, i as int),
            commands@ == cmds0 + fuzz_call_cmds(cases0, sender, address, i as int),
        decreases cases0.len() - i,
    {
        if executed >= budget {
            return TestResult {
                success: true,
                reason: None,
                counterexample: None,
                logs,
                kind: TestKind::Fuzz(executed as u64),
                traces,
                coverage: None,
                labeled_addresses: labels,
            };
        }
        assert(i < cases0.len());
        let c = cases.remove(0);
        proof {
            assert(cases0.skip(i as int)[0] == cases0[i as int]);
            assert(cases0.skip(i as int).remove(0) =~= cases0.skip(i as int + 1));
        }
        let ghost next = i as int + 1;
        match c.outcome {
            CaseOutcome::Rejected => {
                proof {
                    assert(logs@ =~= setup0.logs@ + cases_logs(cases0, next));
                    assert(traces@ =~= setup0.traces@ + cases_traces(cases0, next));
                    assert(labels@ =~= setup0.labeled_addresses@ + cases_labels(cases0, next));
                    assert(commands@ =~= cmds0 + fuzz_call_cmds(cases0, sender, address, next));
                }
                if local >= max_local {
                    return TestResult {
                        success: false,
                        reason: Some(String::from_str("Too many local rejects")),
                        counterexample: None,
                        logs,
                        kind: TestKind::Fuzz(executed as u64),
                        traces,
                        coverage: None,
                        labeled_addresses: labels,
                    };
                }
                if global >= max_global {
                    return TestResult {
                        success: false,
                        reason: Some(String::from_str("Too many global rejects")),
                        counterexample: None,
                        logs,
                        kind: TestKind::Fuzz(executed as u64),
                        traces,
                        coverage: None,
                        labeled_addresses: labels,
                    };
                }
                local += 1;
                global += 1;
            },
            CaseOutcome::Ran(rec) => {
                commands.push(EnvCommand::CallFuzzCase { sender, target: address });
                let CallRecord {
                    reverted,
                    reason,
                    gas: _,
                    stipend: _,
                    logs: mut rec_logs,
                    traces: rec_traces,
                    labels: mut rec_labels,
                    coverage: _,
                    assume_aborted,
                } = rec;
                logs.append(&mut rec_logs);
                labels.append(&mut rec_labels);
                match rec_traces {
                    Some(t) => {
                        traces.push((TraceKind::Execution, t));
                    },
                    None => {},
                }
                proof {
                    assert(logs@ =~= setup0.logs@ + cases_logs(cases0, next));
                    assert(traces@ =~= setup0.traces@ + cases_traces(cases0, next));
                    assert(labels@ =~= setup0.labeled_addresses@ + cases_labels(cases0, next));
                    assert(commands@ =~= cmds0 + fuzz_call_cmds(cases0, sender, address, next));
                }
                if assume_aborted {
                    if local >= max_local {
                        return TestResult {
                            success: false,
                            reason: Some(String::from_str("Too many local rejects")),
                            counterexample: None,
                            logs,
                            kind: TestKind::Fuzz(executed as u64),
                            traces,
                            coverage: None,
                            labeled_addresses: labels,
                        };
                    }
                    if global >= max_global {
                        return TestResult {
                            success: false,
                            reason: Some(String::from_str("Too many global rejects")),
                            counterexample: None,
                            logs,
                            kind: TestKind::Fuzz(executed as u64),
                            traces,
                            coverage: None,
                            labeled_addresses: labels,
                        };
                    }
                    local += 1;
                    global += 1;
                } else if classify_failed(should_fail, reverted) {
                    return TestResult {
                        success: false,
                        reason,
                        counterexample: Some(
                            CounterExample::Single(
                                BaseCall {
                                    sender,
                                    target: address,
                                    calldata: c.calldata,
                                    contract_name: None,
                                },
                            ),
                        ),
                        logs,
                        kind: TestKind::Fuzz((executed + 1) as u64),
                        traces,
                        coverage: None,
                        labeled_addresses: labels,
                    };
                } else {
                    executed += 1;
                    local = 0;
                }
            },
        }
        i += 1;
    }
}

/// True when a completed, non-aborted call breaks the success policy.
fn classify_failed(should_fail: bool, reverted: bool) -> (r: bool)
    ensures
        r == !spec_is_success(should_fail, reverted, false),
{
    should_fail != reverted
}

} // verus!
