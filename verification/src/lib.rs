//! A capability-gated execution orchestrator: human approval with a
//! session-scoped cache, sandbox policy resolution with a single bounded
//! escalation retry, and deterministic construction of execution plans.
//!
//! The orchestrator itself is a state machine: callers perform the two
//! suspending operations (asking a human for approval, running a process)
//! and feed the answers back in as events.

pub mod approval;
pub mod command_spec;
pub mod orchestrator;
pub mod sandboxing;
pub mod shell;
pub mod unified_exec;
