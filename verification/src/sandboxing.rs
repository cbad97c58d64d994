//! Sandbox policy declarations and the per-run sandbox attempt.
//!
//! A runtime declares a fixed [`SandboxPreference`]; an attempt binds that
//! preference, possibly escalated, to a command spec and derives the
//! concrete [`ExecutionEnvironment`] handed to the process spawner.

use crate::command_spec::clone_env;
use crate::command_spec::clone_strings;
use crate::command_spec::CommandSpec;
use crate::command_spec::CommandSpecV;
use vstd::prelude::*;

verus! {

/// The default isolation stance a runtime declares for itself, fixed per
/// runtime type rather than per request.
#[derive(Clone, Copy, Debug, PartialEq, Eq, Structural)]
pub enum SandboxPreference {
    /// Sandbox unless the run was explicitly escalated.
    Auto,
    /// Never sandbox.
    DoNotSandbox,
    /// Always sandbox; escalation cannot be honoured.
    RequireSandbox,
}

/// The concrete policy one attempt runs under.
#[derive(Clone, Copy, Debug, PartialEq, Eq, Structural)]
pub enum SandboxPolicy {
    /// The process runs inside the sandbox.
    Sandboxed,
    /// The process runs without sandbox restrictions.
    FullAccess,
}

/// The policy an attempt resolves to, given the runtime's declared
/// preference and whether this attempt is escalated.
pub open spec fn spec_resolve_policy(preference: SandboxPreference, escalated: bool) -> SandboxPolicy {
    match preference {
        SandboxPreference::Auto => if escalated {
            SandboxPolicy::FullAccess
        } else {
            SandboxPolicy::Sandboxed
        },
        SandboxPreference::DoNotSandbox => SandboxPolicy::FullAccess,
        SandboxPreference::RequireSandbox => SandboxPolicy::Sandboxed,
    }
}

/// Resolves the concrete policy for an attempt.
pub fn resolve_policy(preference: SandboxPreference, escalated: bool) -> (r: SandboxPolicy)
    ensures
        r == spec_resolve_policy(preference, escalated),
{
    match preference {
        SandboxPreference::Auto => if escalated {
            SandboxPolicy::FullAccess
        } else {
            SandboxPolicy::Sandboxed
        },
        SandboxPreference::DoNotSandbox => SandboxPolicy::FullAccess,
        SandboxPreference::RequireSandbox => SandboxPolicy::Sandboxed,
    }
}

/// The attempt could not materialize an execution environment: escalation
/// was requested, but the declared preference forbids running outside the
/// sandbox. Terminal.
pub struct EnvironmentError;

/// The fully resolved bundle handed to the process-spawning primitive.
pub struct ExecutionEnvironment {
    pub command: Vec<String>,
    pub cwd: String,
    pub env: Vec<(String, String)>,
    pub timeout_ms: Option<u64>,
    pub policy: SandboxPolicy,
}

/// The mathematical value of an [`ExecutionEnvironment`].
pub ghost struct ExecutionEnvironmentV {
    pub command: Seq<Seq<char>>,
    pub cwd: Seq<char>,
    pub env: Seq<(Seq<char>, Seq<char>)>,
    pub timeout_ms: Option<u64>,
    pub policy: SandboxPolicy,
}

impl View for ExecutionEnvironment {
    type V = ExecutionEnvironmentV;

    open spec fn view(&self) -> ExecutionEnvironmentV {
        ExecutionEnvironmentV {
            command: self.command.deep_view(),
            cwd: self.cwd@,
            env: crate::command_spec::env_value(self.env@),
            timeout_ms: self.timeout_ms,
            policy: self.policy,
        }
    }
}

/// What deriving an environment yields, as a function of the declared
/// preference, the attempt's escalation, and the plan.
pub open spec fn spec_env_for(
    preference: SandboxPreference,
    escalated: bool,
    spec: CommandSpecV,
) -> Result<ExecutionEnvironmentV, EnvironmentError> {
    if escalated && preference == SandboxPreference::RequireSandbox {
        Err(EnvironmentError)
    } else {
        Ok(ExecutionEnvironmentV {
            command: spec.command,
            cwd: spec.cwd,
            env: spec.env,
            timeout_ms: spec.timeout_ms,
            policy: spec_resolve_policy(preference, escalated),
        })
    }
}

/// One immutable unit of trust: a sandbox policy stance, possibly escalated
/// relative to the runtime's declared preference, bound for the lifetime of
/// a single run. A retry constructs a new attempt, never mutates this one.
pub struct SandboxAttempt {
    /// The runtime's declared preference.
    pub preference: SandboxPreference,
    /// Whether this attempt runs with escalated permissions.
    pub escalated: bool,
}

impl SandboxAttempt {
    /// Binds a declared preference and an escalation stance for one run.
    pub fn new(preference: SandboxPreference, escalated: bool) -> (r: SandboxAttempt)
        ensures
            r.preference == preference,
            r.escalated == escalated,
    {
        SandboxAttempt { preference, escalated }
    }

    /// The concrete policy this attempt resolves to.
    pub fn policy(&self) -> (r: SandboxPolicy)
        ensures
            r == spec_resolve_policy(self.preference, self.escalated),
    {
        resolve_policy(self.preference, self.escalated)
    }

    /// Derives the execution environment for `spec`, or fails when the
    /// spec cannot be materialized under this attempt's policy.
    pub fn env_for(&self, spec: &CommandSpec) -> (r: Result<ExecutionEnvironment, EnvironmentError>)
        ensures
            match r {
                Ok(env) => spec_env_for(self.preference, self.escalated, spec@)
                    == Ok::<ExecutionEnvironmentV, EnvironmentError>(env@),
                Err(_) => spec_env_for(self.preference, self.escalated, spec@)
                    == Err::<ExecutionEnvironmentV, EnvironmentError>(EnvironmentError),
            },
    {
        let escalation_forbidden = match self.preference {
            SandboxPreference::RequireSandbox => true,
            _ => false,
        };
        if self.escalated && escalation_forbidden {
            return Err(EnvironmentError);
        }
        let env = ExecutionEnvironment {
            command: clone_strings(&spec.command),
            cwd: spec.cwd.clone(),
            env: clone_env(&spec.env),
            timeout_ms: spec.timeout_ms,
            policy: self.policy(),
        };
        proof {
            assert(env.command.deep_view() =~= spec.command.deep_view());
        }
        Ok(env)
    }
}

} // verus!
