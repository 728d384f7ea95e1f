//! The data model: test setup, test results, counterexamples, suite results,
//! and the plain-value records in which the execution environment's answers
//! reach the engine.
//!
//! The execution environment is an outside collaborator.  Addresses, logs,
//! traces, bytecode and coverage maps are therefore carried as plain model
//! values: an address is a number, a log entry and a coverage map are opaque
//! handles, a trace exposes exactly what the engine reads from it -- the
//! contracts it saw being created.

use vstd::prelude::*;

verus! {

/// What kind of trace a recorded trace is, for reporting.
#[derive(Clone, Copy, PartialEq, Eq, Debug)]
pub enum TraceKind {
    Deployment,
    Setup,
    Execution,
}

/// An opaque diagnostic record emitted by a call.
#[derive(Clone, Copy, PartialEq, Eq, Debug)]
pub struct Log {
    pub record: u64,
}

/// A contract creation observed inside a trace: the new contract's address
/// and the identity of the code that was deployed there.
#[derive(Clone, Copy, PartialEq, Eq, Debug)]
pub struct CreatedContract {
    pub address: u64,
    pub code_id: u64,
}

/// A structured record of one call's sub-calls, reduced to what the engine
/// reads from it: an opaque handle and the contract creations it witnessed.
#[derive(Clone, PartialEq, Eq, Debug)]
pub struct Trace {
    pub id: u64,
    pub created: Vec<CreatedContract>,
}

/// An opaque coverage map handle.
#[derive(Clone, Copy, PartialEq, Eq, Debug)]
pub struct Coverage {
    pub map_id: u64,
}

/// One function of a contract's ABI, reduced to what discovery reads: its
/// name, its full signature, and how many inputs it takes.
#[derive(Clone, PartialEq, Eq, Debug)]
pub struct FunctionDef {
    pub name: String,
    pub signature: String,
    pub n_inputs: usize,
}

/// A contract ABI: the list of its functions.
#[derive(Clone, PartialEq, Eq, Debug)]
pub struct Abi {
    pub functions: Vec<FunctionDef>,
}

/// A project artifact: a contract name, the identity of its bytecode, and
/// its ABI.  The project-wide table of these is read-only for a whole run.
#[derive(Clone, PartialEq, Eq, Debug)]
pub struct KnownContract {
    pub name: String,
    pub code_id: u64,
    pub abi: Abi,
}

/// How to run fuzz and invariant tests.
#[derive(Clone, Copy, PartialEq, Eq, Debug)]
pub struct TestOptions {
    /// Whether fuzz tests should be run.
    pub include_fuzz_tests: bool,
    /// The number of cases that must execute for each fuzz test.
    pub fuzz_runs: u32,
    /// The largest number of consecutive locally-rejected cases allowed.
    pub fuzz_max_local_rejects: u32,
    /// The largest number of rejected cases allowed across a whole run.
    pub fuzz_max_global_rejects: u32,
    /// The number of exploration sequences for each invariant test group.
    pub invariant_runs: u32,
    /// The number of calls in one exploration sequence.
    pub invariant_depth: u32,
    /// Whether a reverted exploration call fails the invariant run.
    pub invariant_fail_on_revert: bool,
    /// Whether external calls may be randomly overridden during invariant
    /// runs; forwarded to the environment, never read by the engine.
    pub invariant_call_override: bool,
}

/// The reporting shape of one test result.
#[derive(Clone, Copy, PartialEq, Eq, Debug)]
pub enum TestKind {
    /// A unit test; carries the gas used net of the call stipend.
    Standard(u64),
    /// A fuzz test; carries the number of cases that executed.
    Fuzz(u64),
    /// An invariant test; carries the number of exploration sequences and
    /// the number of reverted exploration calls.
    Invariant(u64, u64),
}

/// One call of a counterexample: who called what with which calldata, and
/// the target's name when it could be identified.
#[derive(Clone, PartialEq, Eq, Debug)]
pub struct BaseCall {
    pub sender: u64,
    pub target: u64,
    pub calldata: Vec<u8>,
    pub contract_name: Option<String>,
}

/// The minimal call evidence reproducing a failure: a single call for a
/// fuzz test, an ordered sequence for an invariant test.
#[derive(Clone, PartialEq, Eq, Debug)]
pub enum CounterExample {
    Single(BaseCall),
    Sequence(Vec<BaseCall>),
}

/// The outcome of one discovered test function.  Immutable once built.
#[derive(Clone, PartialEq, Eq, Debug)]
pub struct TestResult {
    pub success: bool,
    pub reason: Option<String>,
    pub counterexample: Option<CounterExample>,
    pub logs: Vec<Log>,
    pub kind: TestKind,
    pub traces: Vec<(TraceKind, Trace)>,
    pub coverage: Option<Coverage>,
    pub labeled_addresses: Vec<(u64, String)>,
}

/// The post-setup state handed to every test of one contract: the deployed
/// address and everything collected while setting up.
#[derive(Clone, PartialEq, Eq, Debug)]
pub struct TestSetup {
    pub address: u64,
    pub logs: Vec<Log>,
    pub traces: Vec<(TraceKind, Trace)>,
    pub labeled_addresses: Vec<(u64, String)>,
    pub setup_failed: bool,
    pub reason: Option<String>,
}

/// The record in which the environment answers one call: whether it
/// reverted and why, gas spent, and everything collected along the way.
/// `assume_aborted` reports the environment's assumption signal: the call
/// voluntarily gave up on its input rather than passing or failing.
#[derive(Clone, PartialEq, Eq, Debug)]
pub struct CallRecord {
    pub reverted: bool,
    pub reason: Option<String>,
    pub gas: u64,
    pub stipend: u64,
    pub logs: Vec<Log>,
    pub traces: Option<Trace>,
    pub labels: Vec<(u64, String)>,
    pub coverage: Option<Coverage>,
    pub assume_aborted: bool,
}

/// The environment's answer to one call: a record, or an unrecoverable
/// environment fault.
#[derive(Clone, PartialEq, Eq, Debug)]
pub enum CallOutcome {
    Completed(CallRecord),
    Fault(String),
}

/// The environment's answer to one deployment.
#[derive(Clone, PartialEq, Eq, Debug)]
pub enum DeployOutcome {
    Deployed { address: u64, logs: Vec<Log>, traces: Option<Trace> },
    Reverted { reason: String, logs: Vec<Log>, traces: Option<Trace>, labels: Vec<(u64, String)> },
    Fault(String),
}

/// An unrecoverable environment fault, propagated to the caller and never
/// wrapped into a test result.
#[derive(Clone, PartialEq, Eq, Debug)]
pub struct EnvFault {
    pub message: String,
}

/// Equality of traces, stated over the view of the creation list.
pub open spec fn trace_eq(a: Trace, b: Trace) -> bool {
    a.id == b.id && a.created@ == b.created@
}

/// Equality of tagged trace lists.
pub open spec fn trace_entries_eq(a: Seq<(TraceKind, Trace)>, b: Seq<(TraceKind, Trace)>) -> bool {
    a.len() == b.len() && (forall|i: int|
        0 <= i < a.len() ==> a[i].0 == b[i].0 && trace_eq(a[i].1, b[i].1))
}

pub proof fn lemma_trace_entries_eq_trans(
    a: Seq<(TraceKind, Trace)>,
    b: Seq<(TraceKind, Trace)>,
    c: Seq<(TraceKind, Trace)>,
)
    requires
        trace_entries_eq(a, b),
        trace_entries_eq(b, c),
    ensures
        trace_entries_eq(a, c),
{
}

pub proof fn lemma_trace_entries_eq_concat(
    a: Seq<(TraceKind, Trace)>,
    b: Seq<(TraceKind, Trace)>,
    c: Seq<(TraceKind, Trace)>,
)
    requires
        trace_entries_eq(a, b),
    ensures
        trace_entries_eq(a + c, b + c),
{
    assert forall|i: int|
        0 <= i < (a + c).len() implies (a + c)[i].0 == (b + c)[i].0 && trace_eq(
        (a + c)[i].1,
        (b + c)[i].1,
    ) by {
        if i < a.len() {
            assert((a + c)[i] == a[i]);
            assert((b + c)[i] == b[i]);
        } else {
            assert((a + c)[i] == c[i - a.len()]);
            assert((b + c)[i] == c[i - a.len()]);
        }
    }
}

/// Equality of test setups, stated over the views of their fields.
pub open spec fn setup_eq(a: TestSetup, b: TestSetup) -> bool {
    &&& a.address == b.address
    &&& a.logs@ == b.logs@
    &&& trace_entries_eq(a.traces@, b.traces@)
    &&& a.labeled_addresses@ == b.labeled_addresses@
    &&& a.setup_failed == b.setup_failed
    &&& a.reason == b.reason
}

impl Trace {
    /// A structural copy of the trace.
    pub fn duplicate(&self) -> (r: Trace)
        ensures
            trace_eq(r, *self),
    {
        let mut created: Vec<CreatedContract> = Vec::new();
        let mut i: usize = 0;
        while i < self.created.len()
            invariant
                i <= self.created.len(),
                created@ == self.created@.subrange(0, i as int),
            decreases self.created.len() - i,
        {
            created.push(self.created[i]);
            proof {
                assert(created@ =~= self.created@.subrange(0, i as int + 1));
            }
            i += 1;
        }
        proof {
            assert(self.created@.subrange(0, self.created@.len() as int) =~= self.created@);
        }
        Trace { id: self.id, created }
    }
}

/// A structural copy of a log list.
pub fn copy_logs(v: &Vec<Log>) -> (r: Vec<Log>)
    ensures
        r@ == v@,
{
    let mut out: Vec<Log> = Vec::new();
    let mut i: usize = 0;
    while i < v.len()
        invariant
            i <= v.len(),
            out@ == v@.subrange(0, i as int),
        decreases v.len() - i,
    {
        out.push(v[i]);
        proof {
            assert(out@ =~= v@.subrange(0, i as int + 1));
        }
        i += 1;
    }
    proof {
        assert(v@.subrange(0, v@.len() as int) =~= v@);
    }
    out
}

/// A structural copy of an address-label list.
pub fn copy_labels(v: &Vec<(u64, String)>) -> (r: Vec<(u64, String)>)
    ensures
        r@ == v@,
{
    let mut out: Vec<(u64, String)> = Vec::new();
    let mut i: usize = 0;
    while i < v.len()
        invariant
            i <= v.len(),
            out@ == v@.subrange(0, i as int),
        decreases v.len() - i,
    {
        let entry = (v[i].0, v[i].1.clone());
        proof {
            assert(entry == v@[i as int]);
        }
        out.push(entry);
        proof {
            assert(out@ =~= v@.subrange(0, i as int + 1));
        }
        i += 1;
    }
    proof {
        assert(v@.subrange(0, v@.len() as int) =~= v@);
    }
    out
}

/// A structural copy of a tagged trace list.
pub fn copy_trace_entries(v: &Vec<(TraceKind, Trace)>) -> (r: Vec<(TraceKind, Trace)>)
    ensures
        trace_entries_eq(r@, v@),
{
    let mut out: Vec<(TraceKind, Trace)> = Vec::new();
    let mut i: usize = 0;
    while i < v.len()
        invariant
            i <= v.len(),
            out@.len() == i,
            forall|j: int|
                0 <= j < i ==> out@[j].0 == v@[j].0 && trace_eq(out@[j].1, v@[j].1),
        decreases v.len() - i,
    {
        let copied = v[i].1.duplicate();
        out.push((v[i].0, copied));
        i += 1;
    }
    out
}

/// A structural copy of a byte string.
pub fn copy_bytes(v: &Vec<u8>) -> (r: Vec<u8>)
    ensures
        r@ == v@,
{
    let mut out: Vec<u8> = Vec::new();
    let mut i: usize = 0;
    while i < v.len()
        invariant
            i <= v.len(),
            out@ == v@.subrange(0, i as int),
        decreases v.len() - i,
    {
        out.push(v[i]);
        proof {
            assert(out@ =~= v@.subrange(0, i as int + 1));
        }
        i += 1;
    }
    proof {
        assert(v@.subrange(0, v@.len() as int) =~= v@);
    }
    out
}

/// A copy of an optional reason string.
pub fn copy_opt_string(o: &Option<String>) -> (r: Option<String>)
    ensures
        r == *o,
{
    match o {
        Some(s) => Some(s.clone()),
        None => None,
    }
}

impl TestSetup {
    /// The structural copy handed to each test invocation, so every test
    /// starts from identical post-setup logs, traces and labels.
    pub fn duplicate(&self) -> (r: TestSetup)
        ensures
            setup_eq(r, *self),
    {
        TestSetup {
            address: self.address,
            logs: copy_logs(&self.logs),
            traces: copy_trace_entries(&self.traces),
            labeled_addresses: copy_labels(&self.labeled_addresses),
            setup_failed: self.setup_failed,
            reason: copy_opt_string(&self.reason),
        }
    }
}

impl FunctionDef {
    /// A structural copy of the function definition.
    pub fn duplicate(&self) -> (r: FunctionDef)
        ensures
            r == *self,
    {
        FunctionDef {
            name: self.name.clone(),
            signature: self.signature.clone(),
            n_inputs: self.n_inputs,
        }
    }
}

/// One instruction the engine issues to the environment while setting up.
#[derive(Clone, Copy, PartialEq, Eq, Debug)]
pub enum EnvCommand {
    /// Set an account's balance to the given amount.
    SetBalance { address: u64, amount: u64 },
    /// Fix an account's nonce, so deployed addresses are reproducible.
    SetNonce { address: u64, nonce: u64 },
    /// Deploy the library at this position of the pre-deploy list.
    DeployLibrary { index: usize },
    /// Deploy the test contract itself.
    DeployContract,
    /// Install the deterministic deployer used by salted deployments.
    InstallDeterministicDeployer,
    /// Invoke the zero-argument setup hook on the deployed contract.
    CallSetupHook { address: u64 },
    /// Snapshot the environment's backing state store.
    SnapshotStateStore,
    /// Restore the backing state store to the last snapshot.
    RestoreStateStore,
    /// Turn call tracing on or off.
    SetTracing { enabled: bool },
    /// One non-committing call of a test function by the configured
    /// sender against the deployed contract; its state changes are
    /// discarded after it returns.
    CallTestFunction { sender: u64, target: u64 },
    /// One non-committing call of a fuzz candidate with a generated
    /// input, by the configured sender against the deployed contract.
    CallFuzzCase { sender: u64, target: u64 },
    /// One committing call of the generated exploration walk; its state
    /// changes persist so the invariants observe the accumulated state.
    CommitExplorationCall { sender: u64, target: u64 },
    /// One committing call of the captured counterexample sequence during
    /// replay; its state changes persist so the invariant can observe the
    /// accumulated state.
    CommitReplayedCall { sender: u64, target: u64 },
    /// One non-committing call of the invariant function after a replayed
    /// call.
    CallInvariantCheck { sender: u64, target: u64 },
}

} // verus!
