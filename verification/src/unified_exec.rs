//! The interactive (PTY session) runtime: instead of executing to
//! completion, a prepared environment is handed to an external session
//! manager that spawns and registers a long-lived interactive process.
//!
//! Approval and escalation follow the same machine as the shell runtime;
//! a sandbox denial from the manager takes the escalation branch, any
//! other manager failure is a plain rejection.

use crate::approval::ApprovalCache;
use crate::approval::ApprovalKey;
use crate::approval::ApprovalKeyV;
use crate::command_spec::clone_strings;
use crate::orchestrator::spec_start;
use crate::orchestrator::start_run;
use crate::orchestrator::Action;
use crate::orchestrator::ExecRequest;
use crate::orchestrator::ExecRequestV;
use crate::orchestrator::RunState;
use crate::orchestrator::RuntimeConfig;
use crate::sandboxing::SandboxPreference;
use vstd::prelude::*;

verus! {

/// A request to acquire a long-lived interactive session. Interactive
/// sessions carry no per-call environment overrides, no timeout, no
/// escalation flag and no justification.
pub struct UnifiedExecRequest {
    pub command: Vec<String>,
    pub cwd: String,
}

/// The mathematical value of a [`UnifiedExecRequest`].
pub ghost struct UnifiedExecRequestV {
    pub command: Seq<Seq<char>>,
    pub cwd: Seq<char>,
}

impl View for UnifiedExecRequest {
    type V = UnifiedExecRequestV;

    open spec fn view(&self) -> UnifiedExecRequestV {
        UnifiedExecRequestV { command: self.command.deep_view(), cwd: self.cwd@ }
    }
}

impl UnifiedExecRequest {
    /// Bundles the command tokens and working directory of a session
    /// request.
    pub fn new(command: Vec<String>, cwd: String) -> (r: UnifiedExecRequest)
        ensures
            r.command == command,
            r.cwd == cwd,
    {
        UnifiedExecRequest { command, cwd }
    }
}

/// The deterministic fingerprint of a session request: command tokens
/// and working directory. Session requests carry no escalation flag.
pub struct UnifiedExecApprovalKey {
    pub command: Vec<String>,
    pub cwd: String,
}

/// The mathematical value of a [`UnifiedExecApprovalKey`].
pub ghost struct UnifiedExecApprovalKeyV {
    pub command: Seq<Seq<char>>,
    pub cwd: Seq<char>,
}

impl View for UnifiedExecApprovalKey {
    type V = UnifiedExecApprovalKeyV;

    open spec fn view(&self) -> UnifiedExecApprovalKeyV {
        UnifiedExecApprovalKeyV { command: self.command.deep_view(), cwd: self.cwd@ }
    }
}

impl UnifiedExecApprovalKey {
    /// The shared cache keys a fingerprint by command, directory and
    /// escalation; an interactive request never asks for escalation up
    /// front.
    pub fn cache_key(&self) -> (k: ApprovalKey)
        ensures
            k@ == (ApprovalKeyV { command: self@.command, cwd: self@.cwd, escalated: false }),
    {
        let k = ApprovalKey {
            command: clone_strings(&self.command),
            cwd: self.cwd.clone(),
            escalated: false,
        };
        proof {
            assert(k.command.deep_view() =~= self.command.deep_view());
        }
        k
    }
}

/// The normalized form of a session request handed to the orchestrator:
/// no environment overrides, no timeout, no escalation, no
/// justification.
pub open spec fn spec_unified_exec_request(req: UnifiedExecRequestV) -> ExecRequestV {
    ExecRequestV {
        command: req.command,
        cwd: req.cwd,
        env: Seq::empty(),
        timeout_ms: None,
        escalated: false,
        justification: None,
    }
}

/// The interactive session runtime. The session manager that spawns and
/// registers the PTY lives with the orchestration loop, outside this
/// machine.
pub struct UnifiedExecRuntime;

impl UnifiedExecRuntime {
    /// A fresh interactive runtime; it is stateless.
    pub fn new() -> (r: UnifiedExecRuntime) {
        UnifiedExecRuntime
    }

    /// The interactive runtime sandboxes unless a run is escalated.
    pub fn sandbox_preference(&self) -> (r: SandboxPreference)
        ensures
            r == SandboxPreference::Auto,
    {
        SandboxPreference::Auto
    }

    /// A sandbox-denied session acquisition is eligible for one
    /// escalation retry.
    pub fn escalate_on_failure(&self) -> (r: bool)
        ensures
            r,
    {
        true
    }

    /// The two declared facts, bundled for the orchestrator.
    pub fn config(&self) -> (r: RuntimeConfig)
        ensures
            r == (RuntimeConfig {
                preference: SandboxPreference::Auto,
                escalate_on_failure: true,
            }),
    {
        RuntimeConfig {
            preference: self.sandbox_preference(),
            escalate_on_failure: self.escalate_on_failure(),
        }
    }

    /// The deterministic fingerprint of `req` for the approval cache.
    pub fn approval_key(&self, req: &UnifiedExecRequest) -> (k: UnifiedExecApprovalKey)
        ensures
            k@.command == req@.command,
            k@.cwd == req@.cwd,
    {
        let k = UnifiedExecApprovalKey {
            command: clone_strings(&req.command),
            cwd: req.cwd.clone(),
        };
        proof {
            assert(k.command.deep_view() =~= req.command.deep_view());
        }
        k
    }

    /// Normalizes `req` for the orchestrator: interactive sessions get
    /// no environment overrides and no timeout.
    pub fn to_exec_request(&self, req: &UnifiedExecRequest) -> (r: ExecRequest)
        ensures
            r@ == spec_unified_exec_request(req@),
    {
        let r = ExecRequest {
            command: clone_strings(&req.command),
            cwd: req.cwd.clone(),
            env: Vec::new(),
            timeout_ms: None,
            escalated: false,
            justification: None,
        };
        proof {
            assert(r.command.deep_view() =~= req.command.deep_view());
            assert(crate::command_spec::env_value(r.env@) =~= Seq::<(Seq<char>, Seq<char>)>::empty());
        }
        r
    }

    /// Begins a session acquisition against the session cache.
    pub fn begin(&self, req: &UnifiedExecRequest, cache: &ApprovalCache) -> (r: (RunState, Action))
        ensures
            r.0.cfg == (RuntimeConfig {
                preference: SandboxPreference::Auto,
                escalate_on_failure: true,
            }),
            r.0.req@ == spec_unified_exec_request(req@),
            r.0.phase@ == spec_start(r.0.cfg, spec_unified_exec_request(req@), cache@).0,
            r.1@ == spec_start(r.0.cfg, spec_unified_exec_request(req@), cache@).1,
    {
        start_run(self.config(), self.to_exec_request(req), cache)
    }
}

} // verus!
