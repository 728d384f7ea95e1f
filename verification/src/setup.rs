//! The test setup stage: grants balances, fixes the deployer nonce, deploys
//! the pre-requisite libraries and the test contract, installs the
//! deterministic deployer, and optionally invokes the setup hook.
//!
//! The driver performs each environment call; the engine decides what to
//! issue next from the recorded outcomes, short-circuits on the first
//! reverted deployment, and shapes the resulting `TestSetup`.  The exact
//! sequence of instructions issued to the environment is returned as a
//! transcript and pinned by the contract.

use vstd::prelude::*;
use vstd::string::*;

use crate::runner::ContractRunner;
use crate::types::{
    CallOutcome,
    CallRecord,
    DeployOutcome,
    EnvCommand,
    EnvFault,
    TestSetup,
    Trace,
    TraceKind,
};
use crate::unit::exec_trace_entries;
use crate::CALLER;

verus! {

/// The environment's answers to the calls the setup stage makes, recorded
/// by the driver: one deployment outcome per pre-deploy library, the test
/// contract's own deployment outcome, whether installing the deterministic
/// deployer faulted, and the setup hook call's outcome (read only when the
/// hook is invoked).
pub struct SetupScript {
    pub lib_results: Vec<DeployOutcome>,
    pub contract_result: DeployOutcome,
    pub deployer_fault: Option<String>,
    pub hook_result: CallOutcome,
}

/// The position of the first library deployment that did not succeed, or
/// the number of libraries when all succeeded, scanning from `i`.
pub open spec fn first_lib_stop(libs: Seq<DeployOutcome>, i: int) -> int
    decreases libs.len() - i,
{
    if i < 0 || i >= libs.len() {
        libs.len() as int
    } else if !(libs[i] is Deployed) {
        i
    } else {
        first_lib_stop(libs, i + 1)
    }
}

pub proof fn lemma_first_lib_stop_advance(libs: Seq<DeployOutcome>, k: int, i: int)
    requires
        0 <= k <= i <= libs.len(),
        forall|j: int| k <= j < i ==> libs[j] is Deployed,
    ensures
        first_lib_stop(libs, k) == first_lib_stop(libs, i),
    decreases i - k,
{
    if k < i {
        lemma_first_lib_stop_advance(libs, k + 1, i);
    }
}

/// The instructions issued before anything is deployed: both the sender
/// and the fixed caller account get maximum balance so they can deploy and
/// call, and the sender's nonce is fixed so deployed addresses are
/// reproducible across runs.
pub open spec fn setup_preamble(sender: u64) -> Seq<EnvCommand> {
    seq![
        EnvCommand::SetBalance { address: sender, amount: u64::MAX },
        EnvCommand::SetBalance { address: CALLER, amount: u64::MAX },
        EnvCommand::SetNonce { address: sender, nonce: 1 },
    ]
}

/// The library deployment instructions for the first `n` libraries.
pub open spec fn lib_deploy_cmds(n: int) -> Seq<EnvCommand>
    decreases n,
{
    if n <= 0 {
        Seq::empty()
    } else {
        lib_deploy_cmds(n - 1).push(EnvCommand::DeployLibrary { index: (n - 1) as usize })
    }
}

/// The tagged deployment traces of the first `n` library deployments.
pub open spec fn lib_traces_upto(libs: Seq<DeployOutcome>, n: int) -> Seq<(TraceKind, Trace)>
    decreases n,
{
    if n <= 0 || n > libs.len() {
        Seq::empty()
    } else {
        lib_traces_upto(libs, n - 1) + (match libs[n - 1] {
            DeployOutcome::Deployed { traces, .. } => exec_trace_entries(
                traces,
                TraceKind::Deployment,
            ),
            _ => Seq::empty(),
        })
    }
}

/// The full transcript of instructions the setup stage issues for this
/// script: the preamble, one deployment per attempted library, the test
/// contract's deployment, the balance resets and deterministic-deployer
/// installation after a successful deployment, and the setup hook call
/// when requested.
pub open spec fn spec_setup_commands(
    sender: u64,
    initial_balance: u64,
    script: SetupScript,
    run_hook: bool,
) -> Seq<EnvCommand> {
    let libs = script.lib_results@;
    let stop = first_lib_stop(libs, 0);
    let pre = setup_preamble(sender);
    if stop < libs.len() {
        pre + lib_deploy_cmds(stop + 1)
    } else {
        let base = pre + lib_deploy_cmds(stop) + seq![EnvCommand::DeployContract];
        match script.contract_result {
            DeployOutcome::Deployed { address, .. } => {
                let installed = base + seq![
                    EnvCommand::SetBalance { address, amount: initial_balance },
                    EnvCommand::SetBalance { address: sender, amount: initial_balance },
                    EnvCommand::InstallDeterministicDeployer,
                ];
                if script.deployer_fault is Some {
                    installed
                } else if run_hook {
                    installed + seq![EnvCommand::CallSetupHook { address }]
                } else {
                    installed
                }
            },
            _ => base,
        }
    }
}

/// The reason string attached to a failed setup hook.
pub open spec fn hook_fail_reason(reason: Option<String>) -> Seq<char> {
    "Setup failed: "@ + (match reason {
        Some(s) => s@,
        None => Seq::empty(),
    })
}

/// How the setup stage's result relates to the script.  A reverted library
/// or contract deployment short-circuits into a failed setup whose traces
/// are tagged as setup traces, so the failure is visibly attributed to
/// setup; an environment fault during a deployment or the deployer
/// installation is a hard error; a reverted setup hook marks the setup
/// failed but is collected like any other trace.
pub open spec fn setup_matches(
    r: Result<TestSetup, EnvFault>,
    script: SetupScript,
    run_hook: bool,
) -> bool {
    let libs = script.lib_results@;
    let stop = first_lib_stop(libs, 0);
    if stop < libs.len() {
        match libs[stop] {
            DeployOutcome::Reverted { reason, logs, traces, labels } => r matches Ok(s) && {
                &&& s.address == 0
                &&& s.logs@ == logs@
                &&& s.traces@ == exec_trace_entries(traces, TraceKind::Setup)
                &&& s.labeled_addresses@ == labels@
                &&& s.setup_failed
                &&& s.reason matches Some(rs) && rs@ == reason@
            },
            DeployOutcome::Fault(m) => r matches Err(e) && e.message@ == m@,
            DeployOutcome::Deployed { .. } => false,
        }
    } else {
        match script.contract_result {
            DeployOutcome::Reverted { reason, logs, traces, labels } => r matches Ok(s) && {
                &&& s.address == 0
                &&& s.logs@ == logs@
                &&& s.traces@ == exec_trace_entries(traces, TraceKind::Setup)
                &&& s.labeled_addresses@ == labels@
                &&& s.setup_failed
                &&& s.reason matches Some(rs) && rs@ == reason@
            },
            DeployOutcome::Fault(m) => r matches Err(e) && e.message@ == m@,
            DeployOutcome::Deployed { address, logs, traces } => {
                let deployed_traces = lib_traces_upto(libs, libs.len() as int)
                    + exec_trace_entries(traces, TraceKind::Deployment);
                if script.deployer_fault is Some {
                    r matches Err(e) && e.message@ == script.deployer_fault->0@
                } else if !run_hook {
                    r matches Ok(s) && {
                        &&& s.address == address
                        &&& s.logs@ == logs@
                        &&& s.traces@ == deployed_traces
                        &&& s.labeled_addresses@ == Seq::<(u64, String)>::empty()
                        &&& !s.setup_failed
                        &&& s.reason is None
                    }
                } else {
                    match script.hook_result {
                        CallOutcome::Completed(rec) => r matches Ok(s) && {
                            &&& s.address == address
                            &&& s.logs@ == logs@ + rec.logs@
                            &&& s.traces@ == deployed_traces + exec_trace_entries(
                                rec.traces,
                                TraceKind::Setup,
                            )
                            &&& s.labeled_addresses@ == rec.labels@
                            &&& s.setup_failed == rec.reverted
                            &&& if rec.reverted {
                                s.reason matches Some(rs) && rs@ == hook_fail_reason(rec.reason)
                            } else {
                                s.reason is None
                            }
                        },
                        CallOutcome::Fault(m) => r matches Ok(s) && {
                            &&& s.address == address
                            &&& s.logs@ == logs@
                            &&& s.traces@ == deployed_traces
                            &&& s.labeled_addresses@ == Seq::<(u64, String)>::empty()
                            &&& s.setup_failed
                            &&& s.reason matches Some(rs) && rs@ == "Setup failed: "@ + m@
                        },
                    }
                }
            },
        }
    }
}

impl ContractRunner {
    /// Deploys the test contract, optionally runs the setup hook, and
    /// returns the post-setup state.  Appends the transcript of issued
    /// instructions to `commands`.  Never fails except on unrecoverable
    /// environment faults, which are propagated as hard errors.
    #[verifier::loop_isolation(false)]
    pub fn setup(
        &self,
        run_hook: bool,
        script: SetupScript,
        commands: &mut Vec<EnvCommand>,
    ) -> (r: Result<TestSetup, EnvFault>)
        requires
            script.lib_results@.len() == self.predeploy_libs@.len(),
        ensures
            setup_matches(r, script, run_hook),
            final(commands)@ == old(commands)@ + spec_setup_commands(
                self.sender,
                self.initial_balance,
                script,
                run_hook,
            ),
    {
        let ghost script0 = script;
        let ghost libs0 = script.lib_results@;
        let ghost cmds0 = commands@;
        commands.push(EnvCommand::SetBalance { address: self.sender, amount: u64::MAX });
        commands.push(EnvCommand::SetBalance { address: CALLER, amount: u64::MAX });
        commands.push(EnvCommand::SetNonce { address: self.sender, nonce: 1 });
        proof {
            assert(commands@ =~= cmds0 + setup_preamble(self.sender));
        }

        let mut libs = script.lib_results;
        let n_libs: usize = libs.len();
        let mut traces: Vec<(TraceKind, Trace)> = Vec::new();
        let mut i: usize = 0;
        while i < n_libs
            invariant
                i <= n_libs,
                libs@ == libs0.skip(i as int),
                forall|j: int| 0 <= j < i ==> libs0[j] is Deployed,
                traces@ == lib_traces_upto(libs0, i as int),
                commands@ == cmds0 + setup_preamble(self.sender) + lib_deploy_cmds(i as int),
            decreases n_libs - i,
        {
            commands.push(EnvCommand::DeployLibrary { index: i });
            proof {
                assert(commands@ =~= cmds0 + setup_preamble(self.sender) + lib_deploy_cmds(
                    i as int + 1,
                ));
                assert(libs0.skip(i as int)[0] == libs0[i as int]);
                assert(libs0.skip(i as int).remove(0) =~= libs0.skip(i as int + 1));
            }
            let outcome = libs.remove(0);
            match outcome {
                DeployOutcome::Deployed { address: _, logs: _, traces: lib_traces } => {
                    match lib_traces {
                        Some(t) => {
                            traces.push((TraceKind::Deployment, t));
                        },
                        None => {},
                    }
                    proof {
                        assert(traces@ =~= lib_traces_upto(libs0, i as int + 1));
                    }
                },
                DeployOutcome::Reverted { reason, logs, traces: fail_traces, labels } => {
                    proof {
                        lemma_first_lib_stop_advance(libs0, 0, i as int);
                        assert(first_lib_stop(libs0, 0) == i as int);
                    }
                    let mut setup_traces: Vec<(TraceKind, Trace)> = Vec::new();
                    match fail_traces {
                        Some(t) => {
                            setup_traces.push((TraceKind::Setup, t));
                        },
                        None => {},
                    }
                    proof {
                        assert(setup_traces@ =~= exec_trace_entries(
                            libs0[i as int]->Reverted_traces,
                            TraceKind::Setup,
                        ));
                    }
                    return Ok(
                        TestSetup {
                            address: 0,
                            logs,
                            traces: setup_traces,
                            labeled_addresses: labels,
                            setup_failed: true,
                            reason: Some(reason),
                        },
                    );
                },
                DeployOutcome::Fault(m) => {
                    proof {
                        lemma_first_lib_stop_advance(libs0, 0, i as int);
                        assert(first_lib_stop(libs0, 0) == i as int);
                    }
                    return Err(EnvFault { message: m });
                },
            }
            i += 1;
        }
        proof {
            lemma_first_lib_stop_advance(libs0, 0, n_libs as int);
            assert(first_lib_stop(libs0, 0) == libs0.len());
        }

        commands.push(EnvCommand::DeployContract);
        let (address, mut logs, constructor_traces) = match script.contract_result {
            DeployOutcome::Deployed { address, logs, traces: t } => (address, logs, t),
            DeployOutcome::Reverted { reason, logs, traces: fail_traces, labels } => {
                let mut setup_traces: Vec<(TraceKind, Trace)> = Vec::new();
                match fail_traces {
                    Some(t) => {
                        setup_traces.push((TraceKind::Setup, t));
                    },
                    None => {},
                }
                proof {
                    assert(setup_traces@ =~= exec_trace_entries(
                        script0.contract_result->Reverted_traces,
                        TraceKind::Setup,
                    ));
                }
                return Ok(
                    TestSetup {
                        address: 0,
                        logs,
                        traces: setup_traces,
                        labeled_addresses: labels,
                        setup_failed: true,
                        reason: Some(reason),
                    },
                );
            },
            DeployOutcome::Fault(m) => {
                return Err(EnvFault { message: m });
            },
        };
        match constructor_traces {
            Some(t) => {
                traces.push((TraceKind::Deployment, t));
            },
            None => {},
        }
        proof {
            assert(traces@ =~= lib_traces_upto(libs0, libs0.len() as int) + exec_trace_entries(
                script0.contract_result->Deployed_traces,
                TraceKind::Deployment,
            ));
        }

        commands.push(EnvCommand::SetBalance { address, amount: self.initial_balance });
        commands.push(EnvCommand::SetBalance { address: self.sender, amount: self.initial_balance });
        commands.push(EnvCommand::InstallDeterministicDeployer);
        proof {
            assert(commands@ =~= cmds0 + (setup_preamble(self.sender) + lib_deploy_cmds(
                libs0.len() as int,
            ) + seq![EnvCommand::DeployContract] + seq![
                EnvCommand::SetBalance { address, amount: self.initial_balance },
                EnvCommand::SetBalance { address: self.sender, amount: self.initial_balance },
                EnvCommand::InstallDeterministicDeployer,
            ]));
        }
        match script.deployer_fault {
            Some(m) => {
                return Err(EnvFault { message: m });
            },
            None => {},
        }

        if !run_hook {
            return Ok(
                TestSetup {
                    address,
                    logs,
                    traces,
                    labeled_addresses: Vec::new(),
                    setup_failed: false,
                    reason: None,
                },
            );
        }

        commands.push(EnvCommand::CallSetupHook { address });
        match script.hook_result {
            CallOutcome::Completed(rec) => {
                let CallRecord {
                    reverted,
                    reason,
                    gas: _,
                    stipend: _,
                    logs: mut hook_logs,
                    traces: hook_traces,
                    labels: hook_labels,
                    coverage: _,
                    assume_aborted: _,
                } = rec;
                logs.append(&mut hook_logs);
                match hook_traces {
                    Some(t) => {
                        traces.push((TraceKind::Setup, t));
                    },
                    None => {},
                }
                proof {
                    assert(traces@ =~= lib_traces_upto(libs0, libs0.len() as int)
                        + exec_trace_entries(
                        script0.contract_result->Deployed_traces,
                        TraceKind::Deployment,
                    ) + exec_trace_entries(
                        script0.hook_result->Completed_0.traces,
                        TraceKind::Setup,
                    ));
                }
                let hook_reason: Option<String> = if reverted {
                    let mut text = String::from_str("Setup failed: ");
                    match reason {
                        Some(s) => {
                            text.append(s.as_str());
                        },
                        None => {},
                    }
                    Some(text)
                } else {
                    None
                };
                Ok(
                    TestSetup {
                        address,
                        logs,
                        traces,
                        labeled_addresses: hook_labels,
                        setup_failed: reverted,
                        reason: hook_reason,
                    },
                )
            },
            CallOutcome::Fault(m) => {
                let mut text = String::from_str("Setup failed: ");
                text.append(m.as_str());
                Ok(
                    TestSetup {
                        address,
                        logs,
                        traces,
                        labeled_addresses: Vec::new(),
                        setup_failed: true,
                        reason: Some(text),
                    },
                )
            },
        }
    }
}


/// True when the setup stage hits an unrecoverable environment fault: a
/// faulting library or contract deployment, or a fault while installing
/// the deterministic deployer.  A faulting setup hook is not a hard error.
pub open spec fn setup_faults(script: SetupScript) -> bool {
    let libs = script.lib_results@;
    let stop = first_lib_stop(libs, 0);
    if stop < libs.len() {
        libs[stop] is Fault
    } else {
        match script.contract_result {
            DeployOutcome::Fault(_) => true,
            DeployOutcome::Reverted { .. } => false,
            DeployOutcome::Deployed { .. } => script.deployer_fault is Some,
        }
    }
}

/// The setup stage errs exactly when the script holds a fault.
pub proof fn lemma_setup_matches_fault(
    r: Result<TestSetup, EnvFault>,
    script: SetupScript,
    run_hook: bool,
)
    requires
        setup_matches(r, script, run_hook),
    ensures
        r is Err <==> setup_faults(script),
{
}

} // verus!
