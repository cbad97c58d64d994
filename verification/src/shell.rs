//! The shell runtime: one-shot command execution under the orchestrator.
//!
//! Declares an `Auto` sandbox preference with escalation on failure,
//! fingerprints requests by command, working directory and escalation
//! flag, and streams output through a side channel keyed by the
//! submission and call identifiers.

use crate::approval::ApprovalKey;
use crate::approval::ApprovalKeyV;
use crate::approval::ApprovalCache;
use crate::command_spec::clone_env;
use crate::command_spec::clone_opt_string;
use crate::command_spec::clone_strings;
use crate::command_spec::env_value;
use crate::command_spec::opt_string_value;
use crate::orchestrator::spec_start;
use crate::orchestrator::start_run;
use crate::orchestrator::Action;
use crate::orchestrator::ExecRequest;
use crate::orchestrator::ExecRequestV;
use crate::orchestrator::RunState;
use crate::orchestrator::RuntimeConfig;
use crate::sandboxing::SandboxPreference;
use vstd::prelude::*;

verus! {

/// A one-shot shell execution request.
pub struct ShellRequest {
    pub command: Vec<String>,
    pub cwd: String,
    pub timeout_ms: Option<u64>,
    pub env: Vec<(String, String)>,
    pub with_escalated_permissions: Option<bool>,
    pub justification: Option<String>,
}

/// The mathematical value of a [`ShellRequest`].
pub ghost struct ShellRequestV {
    pub command: Seq<Seq<char>>,
    pub cwd: Seq<char>,
    pub timeout_ms: Option<u64>,
    pub env: Seq<(Seq<char>, Seq<char>)>,
    pub with_escalated_permissions: Option<bool>,
    pub justification: Option<Seq<char>>,
}

impl View for ShellRequest {
    type V = ShellRequestV;

    open spec fn view(&self) -> ShellRequestV {
        ShellRequestV {
            command: self.command.deep_view(),
            cwd: self.cwd@,
            timeout_ms: self.timeout_ms,
            env: env_value(self.env@),
            with_escalated_permissions: self.with_escalated_permissions,
            justification: opt_string_value(self.justification),
        }
    }
}

/// The identifiers of the tool call on whose behalf a run happens.
pub struct ToolCtx {
    pub sub_id: String,
    pub call_id: String,
}

/// The side channel for incremental output, keyed by the submission and
/// call identifiers; independent of the approval and attempt machine.
pub struct StdoutStream {
    pub sub_id: String,
    pub call_id: String,
}

/// The approval key a shell request fingerprints to: command tokens,
/// working directory, and the normalized escalation flag.
pub open spec fn spec_shell_key(req: ShellRequestV) -> ApprovalKeyV {
    ApprovalKeyV {
        command: req.command,
        cwd: req.cwd,
        escalated: req.with_escalated_permissions == Some(true),
    }
}

/// The normalized form of a shell request handed to the orchestrator.
pub open spec fn spec_shell_exec_request(req: ShellRequestV) -> ExecRequestV {
    ExecRequestV {
        command: req.command,
        cwd: req.cwd,
        env: req.env,
        timeout_ms: req.timeout_ms,
        escalated: req.with_escalated_permissions == Some(true),
        justification: req.justification,
    }
}

/// The one-shot shell runtime.
pub struct ShellRuntime;

impl Default for ShellRuntime {
    fn default() -> (r: ShellRuntime)
        ensures
            r == ShellRuntime,
    {
        ShellRuntime
    }
}

impl ShellRuntime {
    /// A fresh shell runtime; it is stateless.
    pub fn new() -> (r: ShellRuntime) {
        ShellRuntime
    }

    /// The shell runtime sandboxes unless a run is explicitly escalated.
    pub fn sandbox_preference(&self) -> (r: SandboxPreference)
        ensures
            r == SandboxPreference::Auto,
    {
        SandboxPreference::Auto
    }

    /// A sandbox-denied shell command is eligible for one escalation
    /// retry.
    pub fn escalate_on_failure(&self) -> (r: bool)
        ensures
            r,
    {
        true
    }

    /// The two declared facts, bundled for the orchestrator.
    pub fn config(&self) -> (r: RuntimeConfig)
        ensures
            r == (RuntimeConfig {
                preference: SandboxPreference::Auto,
                escalate_on_failure: true,
            }),
    {
        RuntimeConfig { preference: self.sandbox_preference(), escalate_on_failure: self.escalate_on_failure() }
    }

    /// The deterministic fingerprint of `req` for the approval cache.
    pub fn approval_key(&self, req: &ShellRequest) -> (k: ApprovalKey)
        ensures
            k@ == spec_shell_key(req@),
    {
        let escalated = match req.with_escalated_permissions {
            Some(b) => b,
            None => false,
        };
        let k = ApprovalKey {
            command: clone_strings(&req.command),
            cwd: req.cwd.clone(),
            escalated,
        };
        proof {
            assert(k.command.deep_view() =~= req.command.deep_view());
        }
        k
    }

    /// The shell runtime memoizes nothing of its own; resetting is a
    /// no-op. The session cache lives with the orchestration loop.
    pub fn reset_cache(&mut self)
        ensures
            *final(self) == *old(self),
    {
    }

    /// The output-streaming sink for this call: always present, keyed by
    /// the submission and call identifiers.
    pub fn stdout_stream(ctx: &ToolCtx) -> (r: Option<StdoutStream>)
        ensures
            (r matches Some(s) && s.sub_id@ == ctx.sub_id@ && s.call_id@ == ctx.call_id@),
    {
        Some(StdoutStream { sub_id: ctx.sub_id.clone(), call_id: ctx.call_id.clone() })
    }

    /// Normalizes `req` for the orchestrator: the escalation flag
    /// defaults to off; every other field carries over unchanged.
    pub fn to_exec_request(&self, req: &ShellRequest) -> (r: ExecRequest)
        ensures
            r@ == spec_shell_exec_request(req@),
    {
        let escalated = match req.with_escalated_permissions {
            Some(b) => b,
            None => false,
        };
        let r = ExecRequest {
            command: clone_strings(&req.command),
            cwd: req.cwd.clone(),
            env: clone_env(&req.env),
            timeout_ms: req.timeout_ms,
            escalated,
            justification: clone_opt_string(&req.justification),
        };
        proof {
            assert(r.command.deep_view() =~= req.command.deep_view());
        }
        r
    }

    /// Begins a shell run against the session cache: validates, then
    /// either prompts (with the request's justification as reason) or
    /// goes straight to execution when the key is already covered.
    pub fn begin(&self, req: &ShellRequest, cache: &ApprovalCache) -> (r: (RunState, Action))
        ensures
            r.0.cfg == (RuntimeConfig {
                preference: SandboxPreference::Auto,
                escalate_on_failure: true,
            }),
            r.0.req@ == spec_shell_exec_request(req@),
            r.0.phase@ == spec_start(r.0.cfg, spec_shell_exec_request(req@), cache@).0,
            r.1@ == spec_start(r.0.cfg, spec_shell_exec_request(req@), cache@).1,
    {
        start_run(self.config(), self.to_exec_request(req), cache)
    }
}

} // verus!
