//! The command spec builder: the single source of truth for how raw request
//! fields become a validated, immutable execution plan.

use vstd::prelude::*;
use vstd::string::StrSliceExecFns;

verus! {

/// A normalized, validated execution plan. Built once per attempt;
/// never mutated afterwards.
pub struct CommandSpec {
    /// The argument vector; never empty.
    pub command: Vec<String>,
    /// The working directory; always an absolute path.
    pub cwd: String,
    /// Extra environment variables layered over the spawned process.
    pub env: Vec<(String, String)>,
    /// Optional per-call timeout in milliseconds.
    pub timeout_ms: Option<u64>,
    /// Whether this plan asks for escalated (unsandboxed) permissions.
    pub escalated: bool,
    /// Optional human-readable justification shown alongside prompts.
    pub justification: Option<String>,
}

/// The mathematical value of a [`CommandSpec`].
pub ghost struct CommandSpecV {
    pub command: Seq<Seq<char>>,
    pub cwd: Seq<char>,
    pub env: Seq<(Seq<char>, Seq<char>)>,
    pub timeout_ms: Option<u64>,
    pub escalated: bool,
    pub justification: Option<Seq<char>>,
}

/// The value of an environment mapping: a sequence of (name, value) pairs.
pub open spec fn env_value(e: Seq<(String, String)>) -> Seq<(Seq<char>, Seq<char>)> {
    e.map_values(|p: (String, String)| (p.0@, p.1@))
}

/// The value of an optional string.
pub open spec fn opt_string_value(o: Option<String>) -> Option<Seq<char>> {
    match o {
        Some(s) => Some(s@),
        None => None,
    }
}

impl View for CommandSpec {
    type V = CommandSpecV;

    open spec fn view(&self) -> CommandSpecV {
        CommandSpecV {
            command: self.command.deep_view(),
            cwd: self.cwd@,
            env: env_value(self.env@),
            timeout_ms: self.timeout_ms,
            escalated: self.escalated,
            justification: opt_string_value(self.justification),
        }
    }
}

/// The request was malformed: empty argument vector, or a working
/// directory that is not an absolute path. Raised before any approval
/// prompt and never retried.
pub struct InvalidCommand;

/// An absolute path: non-empty and rooted at `/`.
pub open spec fn absolute_path(p: Seq<char>) -> bool {
    p.len() > 0 && p[0] == '/'
}

/// A command line the builder accepts: at least one token, absolute cwd.
pub open spec fn valid_command_line(command: Seq<Seq<char>>, cwd: Seq<char>) -> bool {
    command.len() > 0 && absolute_path(cwd)
}

/// What the builder returns, as a function of the raw request fields alone.
pub open spec fn spec_build_command_spec(
    command: Seq<Seq<char>>,
    cwd: Seq<char>,
    env: Seq<(Seq<char>, Seq<char>)>,
    timeout_ms: Option<u64>,
    escalated: Option<bool>,
    justification: Option<Seq<char>>,
) -> Result<CommandSpecV, InvalidCommand> {
    if valid_command_line(command, cwd) {
        Ok(CommandSpecV {
            command,
            cwd,
            env,
            timeout_ms,
            escalated: escalated == Some(true),
            justification,
        })
    } else {
        Err(InvalidCommand)
    }
}

/// Clones a vector of strings, keeping the exact value.
pub fn clone_strings(v: &Vec<String>) -> (r: Vec<String>)
    ensures
        r@ == v@,
{
    let mut r: Vec<String> = Vec::new();
    let mut i: usize = 0;
    while i < v.len()
        invariant
            i <= v.len(),
            r@ =~= v@.subrange(0, i as int),
        decreases v.len() - i,
    {
        r.push(v[i].clone());
        proof {
            assert(r@ =~= v@.subrange(0, i as int + 1));
        }
        i += 1;
    }
    proof {
        assert(r@ =~= v@);
    }
    r
}

/// Clones an environment mapping, keeping the exact value.
pub fn clone_env(v: &Vec<(String, String)>) -> (r: Vec<(String, String)>)
    ensures
        r@ == v@,
{
    let mut r: Vec<(String, String)> = Vec::new();
    let mut i: usize = 0;
    while i < v.len()
        invariant
            i <= v.len(),
            r@ =~= v@.subrange(0, i as int),
        decreases v.len() - i,
    {
        let name = v[i].0.clone();
        let value = v[i].1.clone();
        r.push((name, value));
        proof {
            assert(r@ =~= v@.subrange(0, i as int + 1));
        }
        i += 1;
    }
    proof {
        assert(r@ =~= v@);
    }
    r
}

/// Clones an optional string, keeping the exact value.
pub fn clone_opt_string(o: &Option<String>) -> (r: Option<String>)
    ensures
        r == *o,
{
    match o {
        Some(s) => Some(s.clone()),
        None => None,
    }
}

/// Whether `p` is a non-empty path rooted at `/`.
pub fn is_absolute_path(p: &String) -> (r: bool)
    ensures
        r == absolute_path(p@),
{
    let len = p.as_str().unicode_len();
    if len == 0 {
        false
    } else {
        p.as_str().get_char(0) == '/'
    }
}

/// Builds the validated execution plan for the given raw request fields,
/// or reports the request as malformed. Pure: the result is a function of
/// the arguments alone, so repeated calls on equal inputs agree.
pub fn build_command_spec(
    command: &Vec<String>,
    cwd: &String,
    env: &Vec<(String, String)>,
    timeout_ms: Option<u64>,
    escalated: Option<bool>,
    justification: Option<String>,
) -> (r: Result<CommandSpec, InvalidCommand>)
    ensures
        match r {
            Ok(spec) => spec_build_command_spec(
                command.deep_view(),
                cwd@,
                env_value(env@),
                timeout_ms,
                escalated,
                opt_string_value(justification),
            ) == Ok::<CommandSpecV, InvalidCommand>(spec@),
            Err(_) => !valid_command_line(command.deep_view(), cwd@),
        },
{
    if command.len() == 0 {
        return Err(InvalidCommand);
    }
    if !is_absolute_path(cwd) {
        return Err(InvalidCommand);
    }
    let escalated_flag = match escalated {
        Some(b) => b,
        None => false,
    };
    let spec = CommandSpec {
        command: clone_strings(command),
        cwd: cwd.clone(),
        env: clone_env(env),
        timeout_ms,
        escalated: escalated_flag,
        justification,
    };
    proof {
        assert(spec.command.deep_view() =~= command.deep_view());
    }
    Ok(spec)
}

/// Law: the builder is deterministic. For any two raw requests with equal
/// field values, the produced plans are equal.
pub proof fn lemma_command_spec_deterministic(
    command1: Seq<Seq<char>>,
    cwd1: Seq<char>,
    env1: Seq<(Seq<char>, Seq<char>)>,
    timeout_ms1: Option<u64>,
    escalated1: Option<bool>,
    justification1: Option<Seq<char>>,
    command2: Seq<Seq<char>>,
    cwd2: Seq<char>,
    env2: Seq<(Seq<char>, Seq<char>)>,
    timeout_ms2: Option<u64>,
    escalated2: Option<bool>,
    justification2: Option<Seq<char>>,
)
    requires
        command1 == command2,
        cwd1 == cwd2,
        env1 == env2,
        timeout_ms1 == timeout_ms2,
        escalated1 == escalated2,
        justification1 == justification2,
    ensures
        spec_build_command_spec(command1, cwd1, env1, timeout_ms1, escalated1, justification1)
            == spec_build_command_spec(command2, cwd2, env2, timeout_ms2, escalated2, justification2),
{
}

} // verus!
