//! A test execution engine for compiled smart contracts.
//!
//! Given a contract's bytecode and its ABI, the engine deploys the contract
//! into a simulated execution environment, discovers test entry points by
//! naming convention, and runs three kinds of tests -- plain unit tests,
//! single-call fuzz tests, and multi-call stateful invariant tests -- each
//! against an isolated copy of chain state, collecting logs, traces and
//! failure evidence.
//!
//! The execution environment itself (deployment, call execution, gas
//! accounting, state storage) is an outside collaborator.  Every decision the
//! engine makes is therefore a pure function from the environment's recorded
//! answers -- deploy outcomes, call outcomes, invariant-check outcomes -- to
//! the next action and the final results.  A driver owns the environment,
//! performs each call, and hands the recorded outcomes to the library as
//! plain values; everything from there on is verified.

use vstd::prelude::*;

pub mod discovery;
pub mod fuzz;
pub mod identify;
pub mod laws;
pub mod resmap;
pub mod runner;
pub mod setup;
pub mod strutil;
pub mod types;
pub mod unit;

verus! {

/// The dev chain id, inherited from hardhat.
pub const DEV_CHAIN_ID: u64 = 31337;

/// The first four bytes of a function call's calldata select the function.
pub const SELECTOR_LEN: usize = 4;

/// The fixed caller account granted maximum balance before tests run.
pub const CALLER: u64 = 0xCA11E4;

} // verus!
