//! CHIMERA: a modular orchestration platform for evidence-driven code
//! operations. This crate holds the verified core: the terminal input editor,
//! the conversation log, the command-line grammar, the creature registry, the
//! harness planner, the agent loop state machine and the in-memory stores.

use vstd::prelude::*;

pub mod agent;
pub mod browser;
pub mod cli;
pub mod commands;
pub mod comms;
pub mod config;
pub mod creatures;
pub mod dashboard;
pub mod eval;
pub mod handlers;
pub mod help;
pub mod harness;
pub mod input;
pub mod llm;
pub mod mcp;
pub mod memory;
pub mod message;
pub mod outside;
pub mod mobile;
pub mod pack;
pub mod report;
pub mod runner;
pub mod sandbox;
pub mod scheduler;
pub mod session;
pub mod shell;
pub mod skill;
pub mod status;
pub mod stream;
pub mod stubs;
pub mod text;
pub mod theme;
pub mod tools;
pub mod trace;
pub mod views;

verus! {

/// The version of this library, as written in its package manifest.
pub fn version() -> (v: &'static str)
    ensures
        v@ == "0.2.0"@,
{
    "0.2.0"
}

} // verus!
