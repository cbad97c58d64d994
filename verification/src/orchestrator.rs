//! The orchestration state machine shared by the runtimes.
//!
//! A run strictly orders approval before attempt construction before
//! execution. The two suspending operations — asking a human and running
//! a process — are performed by the caller: the machine hands out an
//! [`Action`] and the caller feeds the answer back in as the next event.
//! A sandbox denial on the first attempt may trigger exactly one
//! escalation retry; a denial on the retry is always terminal.

use crate::approval::spec_note_decision;
use crate::approval::spec_reason;
use crate::approval::ApprovalCache;
use crate::approval::ApprovalDecision;
use crate::approval::ApprovalKey;
use crate::approval::ApprovalKeyV;
use crate::command_spec::build_command_spec;
use crate::command_spec::clone_opt_string;
use crate::command_spec::clone_strings;
use crate::command_spec::env_value;
use crate::command_spec::is_absolute_path;
use crate::command_spec::opt_string_value;
use crate::command_spec::spec_build_command_spec;
use crate::command_spec::valid_command_line;
use crate::sandboxing::spec_env_for;
use crate::sandboxing::ExecutionEnvironment;
use crate::sandboxing::ExecutionEnvironmentV;
use crate::sandboxing::SandboxAttempt;
use crate::sandboxing::SandboxPreference;
use vstd::prelude::*;

verus! {

/// The two facts a runtime declares about itself, fixed at construction.
#[derive(Clone, Copy, Debug, PartialEq, Eq, Structural)]
pub struct RuntimeConfig {
    /// The default isolation stance absent escalation.
    pub preference: SandboxPreference,
    /// Whether a sandbox-caused failure is eligible for one escalation
    /// retry, versus being surfaced immediately as fatal.
    pub escalate_on_failure: bool,
}

/// A normalized execution request, common to every runtime shape.
pub struct ExecRequest {
    pub command: Vec<String>,
    pub cwd: String,
    pub env: Vec<(String, String)>,
    pub timeout_ms: Option<u64>,
    pub escalated: bool,
    pub justification: Option<String>,
}

/// The mathematical value of an [`ExecRequest`].
pub ghost struct ExecRequestV {
    pub command: Seq<Seq<char>>,
    pub cwd: Seq<char>,
    pub env: Seq<(Seq<char>, Seq<char>)>,
    pub timeout_ms: Option<u64>,
    pub escalated: bool,
    pub justification: Option<Seq<char>>,
}

impl View for ExecRequest {
    type V = ExecRequestV;

    open spec fn view(&self) -> ExecRequestV {
        ExecRequestV {
            command: self.command.deep_view(),
            cwd: self.cwd@,
            env: env_value(self.env@),
            timeout_ms: self.timeout_ms,
            escalated: self.escalated,
            justification: opt_string_value(self.justification),
        }
    }
}

/// The approval key a request fingerprints to.
pub open spec fn spec_key_of(req: ExecRequestV) -> ApprovalKeyV {
    ApprovalKeyV { command: req.command, cwd: req.cwd, escalated: req.escalated }
}

/// How a run ended.
pub enum RunOutcome {
    /// Execution completed; carries the captured output.
    Success { output: String },
    /// The request was malformed; no prompt was issued.
    InvalidCommand,
    /// The human refused the request.
    Denied,
    /// The human aborted the whole operation.
    Aborted,
    /// Execution failed under the sandbox and no (further) retry is
    /// allowed; carries the raw process output for diagnosis.
    SandboxDenied { output: String },
    /// No execution environment could be materialized.
    EnvironmentError,
    /// A collaborator refused the request for a reason unrelated to
    /// sandboxing.
    Rejected { message: String },
}

/// The mathematical value of a [`RunOutcome`].
pub ghost enum RunOutcomeV {
    Success { output: Seq<char> },
    InvalidCommand,
    Denied,
    Aborted,
    SandboxDenied { output: Seq<char> },
    EnvironmentError,
    Rejected { message: Seq<char> },
}

impl View for RunOutcome {
    type V = RunOutcomeV;

    open spec fn view(&self) -> RunOutcomeV {
        match *self {
            RunOutcome::Success { output } => RunOutcomeV::Success { output: output@ },
            RunOutcome::InvalidCommand => RunOutcomeV::InvalidCommand,
            RunOutcome::Denied => RunOutcomeV::Denied,
            RunOutcome::Aborted => RunOutcomeV::Aborted,
            RunOutcome::SandboxDenied { output } => RunOutcomeV::SandboxDenied { output: output@ },
            RunOutcome::EnvironmentError => RunOutcomeV::EnvironmentError,
            RunOutcome::Rejected { message } => RunOutcomeV::Rejected { message: message@ },
        }
    }
}

/// Where a run stands.
pub enum Phase {
    /// A prompt is outstanding; `retry` says whether it is the
    /// escalation re-prompt.
    AwaitingApproval { retry: bool },
    /// An execution is outstanding; `retry` says whether it runs under
    /// the escalated second attempt.
    Executing { retry: bool },
    /// The run ended.
    Done { outcome: RunOutcome },
}

/// The mathematical value of a [`Phase`].
pub ghost enum PhaseV {
    AwaitingApproval { retry: bool },
    Executing { retry: bool },
    Done { outcome: RunOutcomeV },
}

impl View for Phase {
    type V = PhaseV;

    open spec fn view(&self) -> PhaseV {
        match *self {
            Phase::AwaitingApproval { retry } => PhaseV::AwaitingApproval { retry },
            Phase::Executing { retry } => PhaseV::Executing { retry },
            Phase::Done { outcome } => PhaseV::Done { outcome: outcome@ },
        }
    }
}

/// The retry flag of the outstanding prompt or execution.
pub open spec fn spec_phase_retry(p: PhaseV) -> bool {
    match p {
        PhaseV::AwaitingApproval { retry } => retry,
        PhaseV::Executing { retry } => retry,
        PhaseV::Done { .. } => false,
    }
}

/// What the machine asks its caller to do next.
pub enum Action {
    /// Ask the human; `reason` is shown alongside the prompt.
    Prompt { reason: Option<String>, retry: bool },
    /// Run the prepared environment.
    Execute { env: ExecutionEnvironment },
    /// The run ended with this outcome; nothing more to do.
    Finish { outcome: RunOutcome },
}

/// The mathematical value of an [`Action`].
pub ghost enum ActionV {
    Prompt { reason: Option<Seq<char>>, retry: bool },
    Execute { env: ExecutionEnvironmentV },
    Finish { outcome: RunOutcomeV },
}

impl View for Action {
    type V = ActionV;

    open spec fn view(&self) -> ActionV {
        match *self {
            Action::Prompt { reason, retry } => ActionV::Prompt {
                reason: opt_string_value(reason),
                retry,
            },
            Action::Execute { env } => ActionV::Execute { env: env@ },
            Action::Finish { outcome } => ActionV::Finish { outcome: outcome@ },
        }
    }
}

/// What came back from the process-execution primitive or the session
/// manager.
pub enum ExecEvent {
    /// Execution completed (a result, or a registered live session).
    Succeeded { output: String },
    /// Execution failed specifically because of the sandbox; carries the
    /// raw process output, and optionally a reason for the re-prompt.
    SandboxDenied { output: String, retry_reason: Option<String> },
    /// The collaborator refused for a reason unrelated to sandboxing.
    Failed { message: String },
}

/// The mathematical value of an [`ExecEvent`].
pub ghost enum ExecEventV {
    Succeeded { output: Seq<char> },
    SandboxDenied { output: Seq<char>, retry_reason: Option<Seq<char>> },
    Failed { message: Seq<char> },
}

impl View for ExecEvent {
    type V = ExecEventV;

    open spec fn view(&self) -> ExecEventV {
        match *self {
            ExecEvent::Succeeded { output } => ExecEventV::Succeeded { output: output@ },
            ExecEvent::SandboxDenied { output, retry_reason } => ExecEventV::SandboxDenied {
                output: output@,
                retry_reason: opt_string_value(retry_reason),
            },
            ExecEvent::Failed { message } => ExecEventV::Failed { message: message@ },
        }
    }
}

/// One run of the state machine: the runtime's declared facts, the
/// request, and where the run stands.
pub struct RunState {
    pub cfg: RuntimeConfig,
    pub req: ExecRequest,
    pub phase: Phase,
}

/// Builds the plan and derives the environment for one attempt:
/// `Executing` with an `Execute` action, or a terminal failure.
pub open spec fn spec_launch(cfg: RuntimeConfig, req: ExecRequestV, retry: bool) -> (PhaseV, ActionV) {
    let escalated = retry || req.escalated;
    match spec_build_command_spec(
        req.command,
        req.cwd,
        req.env,
        req.timeout_ms,
        Some(escalated),
        req.justification,
    ) {
        Ok(cs) => match spec_env_for(cfg.preference, escalated, cs) {
            Ok(env) => (PhaseV::Executing { retry }, ActionV::Execute { env }),
            Err(_) => (
                PhaseV::Done { outcome: RunOutcomeV::EnvironmentError },
                ActionV::Finish { outcome: RunOutcomeV::EnvironmentError },
            ),
        },
        Err(_) => (
            PhaseV::Done { outcome: RunOutcomeV::InvalidCommand },
            ActionV::Finish { outcome: RunOutcomeV::InvalidCommand },
        ),
    }
}

/// How a run begins: a malformed request fails fast before any prompt; a
/// key covered by the session cache skips straight to execution; any
/// other request prompts, with the request's own justification as the
/// reason.
pub open spec fn spec_start(
    cfg: RuntimeConfig,
    req: ExecRequestV,
    cache: Set<ApprovalKeyV>,
) -> (PhaseV, ActionV) {
    if !valid_command_line(req.command, req.cwd) {
        (
            PhaseV::Done { outcome: RunOutcomeV::InvalidCommand },
            ActionV::Finish { outcome: RunOutcomeV::InvalidCommand },
        )
    } else if cache.contains(spec_key_of(req)) {
        spec_launch(cfg, req, false)
    } else {
        (
            PhaseV::AwaitingApproval { retry: false },
            ActionV::Prompt { reason: req.justification, retry: false },
        )
    }
}

/// How a prompt's answer is acted on: abort and denial are terminal and
/// construct nothing; an approval launches the attempt, escalated when
/// this was the escalation re-prompt.
pub open spec fn spec_on_decision(
    cfg: RuntimeConfig,
    req: ExecRequestV,
    retry: bool,
    decision: ApprovalDecision,
) -> (PhaseV, ActionV) {
    match decision {
        ApprovalDecision::Abort => (
            PhaseV::Done { outcome: RunOutcomeV::Aborted },
            ActionV::Finish { outcome: RunOutcomeV::Aborted },
        ),
        ApprovalDecision::Denied => (
            PhaseV::Done { outcome: RunOutcomeV::Denied },
            ActionV::Finish { outcome: RunOutcomeV::Denied },
        ),
        ApprovalDecision::Approved => spec_launch(cfg, req, retry),
        ApprovalDecision::ApprovedForSession => spec_launch(cfg, req, retry),
    }
}

/// How an execution's outcome is acted on: success and non-sandbox
/// failures are terminal; a sandbox denial on the first attempt
/// re-prompts when the runtime escalates on failure, and is terminal
/// otherwise or on the retry.
pub open spec fn spec_on_exec_result(
    cfg: RuntimeConfig,
    req: ExecRequestV,
    retry: bool,
    event: ExecEventV,
) -> (PhaseV, ActionV) {
    match event {
        ExecEventV::Succeeded { output } => (
            PhaseV::Done { outcome: RunOutcomeV::Success { output } },
            ActionV::Finish { outcome: RunOutcomeV::Success { output } },
        ),
        ExecEventV::Failed { message } => (
            PhaseV::Done { outcome: RunOutcomeV::Rejected { message } },
            ActionV::Finish { outcome: RunOutcomeV::Rejected { message } },
        ),
        ExecEventV::SandboxDenied { output, retry_reason } => if !retry
            && cfg.escalate_on_failure {
            (
                PhaseV::AwaitingApproval { retry: true },
                ActionV::Prompt {
                    reason: spec_reason(retry_reason, req.justification),
                    retry: true,
                },
            )
        } else {
            (
                PhaseV::Done { outcome: RunOutcomeV::SandboxDenied { output } },
                ActionV::Finish { outcome: RunOutcomeV::SandboxDenied { output } },
            )
        },
    }
}

/// Builds the command spec and derives the environment for one attempt.
fn launch(cfg: RuntimeConfig, req: ExecRequest, retry: bool) -> (r: (RunState, Action))
    ensures
        r.0.cfg == cfg,
        r.0.req@ == req@,
        r.0.phase@ == spec_launch(cfg, req@, retry).0,
        r.1@ == spec_launch(cfg, req@, retry).1,
{
    let escalated = retry || req.escalated;
    let built = build_command_spec(
        &req.command,
        &req.cwd,
        &req.env,
        req.timeout_ms,
        Some(escalated),
        clone_opt_string(&req.justification),
    );
    match built {
        Err(_) => (
            RunState { cfg, req, phase: Phase::Done { outcome: RunOutcome::InvalidCommand } },
            Action::Finish { outcome: RunOutcome::InvalidCommand },
        ),
        Ok(cs) => {
            let attempt = SandboxAttempt::new(cfg.preference, escalated);
            match attempt.env_for(&cs) {
                Err(_) => (
                    RunState {
                        cfg,
                        req,
                        phase: Phase::Done { outcome: RunOutcome::EnvironmentError },
                    },
                    Action::Finish { outcome: RunOutcome::EnvironmentError },
                ),
                Ok(env) => (
                    RunState { cfg, req, phase: Phase::Executing { retry } },
                    Action::Execute { env },
                ),
            }
        },
    }
}

/// Begins a run: validates the request, consults the cache, and either
/// prompts or launches the first attempt directly.
pub fn start_run(cfg: RuntimeConfig, req: ExecRequest, cache: &ApprovalCache) -> (r: (
    RunState,
    Action,
))
    ensures
        r.0.cfg == cfg,
        r.0.req@ == req@,
        r.0.phase@ == spec_start(cfg, req@, cache@).0,
        r.1@ == spec_start(cfg, req@, cache@).1,
{
    let valid = req.command.len() > 0 && is_absolute_path(&req.cwd);
    if !valid {
        return (
            RunState { cfg, req, phase: Phase::Done { outcome: RunOutcome::InvalidCommand } },
            Action::Finish { outcome: RunOutcome::InvalidCommand },
        );
    }
    let key = ApprovalKey {
        command: clone_strings(&req.command),
        cwd: req.cwd.clone(),
        escalated: req.escalated,
    };
    proof {
        assert(key.command.deep_view() =~= req.command.deep_view());
        assert(key@ == spec_key_of(req@));
    }
    if cache.contains(&key) {
        launch(cfg, req, false)
    } else {
        let reason = clone_opt_string(&req.justification);
        (
            RunState { cfg, req, phase: Phase::AwaitingApproval { retry: false } },
            Action::Prompt { reason, retry: false },
        )
    }
}

/// Acts on the human's decision for the outstanding prompt, recording it
/// in the cache first. Abort and denial construct no attempt and no
/// environment.
pub fn on_decision(state: RunState, decision: ApprovalDecision, cache: &mut ApprovalCache) -> (r: (
    RunState,
    Action,
))
    requires
        state.phase is AwaitingApproval,
    ensures
        final(cache)@ == spec_note_decision(old(cache)@, spec_key_of(state.req@), decision),
        r.0.cfg == state.cfg,
        r.0.req@ == state.req@,
        r.0.phase@ == spec_on_decision(
            state.cfg,
            state.req@,
            spec_phase_retry(state.phase@),
            decision,
        ).0,
        r.1@ == spec_on_decision(
            state.cfg,
            state.req@,
            spec_phase_retry(state.phase@),
            decision,
        ).1,
{
    let retry = match &state.phase {
        Phase::AwaitingApproval { retry } => *retry,
        _ => {
            assert(false);
            false
        },
    };
    let RunState { cfg, req, phase: _ } = state;
    let key = ApprovalKey {
        command: clone_strings(&req.command),
        cwd: req.cwd.clone(),
        escalated: req.escalated,
    };
    proof {
        assert(key.command.deep_view() =~= req.command.deep_view());
        assert(key@ == spec_key_of(req@));
    }
    cache.note_decision(key, decision);
    match decision {
        ApprovalDecision::Abort => (
            RunState { cfg, req, phase: Phase::Done { outcome: RunOutcome::Aborted } },
            Action::Finish { outcome: RunOutcome::Aborted },
        ),
        ApprovalDecision::Denied => (
            RunState { cfg, req, phase: Phase::Done { outcome: RunOutcome::Denied } },
            Action::Finish { outcome: RunOutcome::Denied },
        ),
        ApprovalDecision::Approved => launch(cfg, req, retry),
        ApprovalDecision::ApprovedForSession => launch(cfg, req, retry),
    }
}

/// Acts on what execution returned. A sandbox denial on the first
/// attempt re-prompts with the denial-derived reason (falling back to
/// the request's own justification) when the runtime escalates on
/// failure; every other path is terminal.
pub fn on_exec_result(state: RunState, event: ExecEvent) -> (r: (RunState, Action))
    requires
        state.phase is Executing,
    ensures
        r.0.cfg == state.cfg,
        r.0.req@ == state.req@,
        r.0.phase@ == spec_on_exec_result(
            state.cfg,
            state.req@,
            spec_phase_retry(state.phase@),
            event@,
        ).0,
        r.1@ == spec_on_exec_result(
            state.cfg,
            state.req@,
            spec_phase_retry(state.phase@),
            event@,
        ).1,
{
    let retry = match &state.phase {
        Phase::Executing { retry } => *retry,
        _ => {
            assert(false);
            false
        },
    };
    let RunState { cfg, req, phase: _ } = state;
    match event {
        ExecEvent::Succeeded { output } => {
            let echo = output.clone();
            (
                RunState { cfg, req, phase: Phase::Done { outcome: RunOutcome::Success { output } } },
                Action::Finish { outcome: RunOutcome::Success { output: echo } },
            )
        },
        ExecEvent::Failed { message } => {
            let echo = message.clone();
            (
                RunState {
                    cfg,
                    req,
                    phase: Phase::Done { outcome: RunOutcome::Rejected { message } },
                },
                Action::Finish { outcome: RunOutcome::Rejected { message: echo } },
            )
        },
        ExecEvent::SandboxDenied { output, retry_reason } => {
            if !retry && cfg.escalate_on_failure {
                let reason = match retry_reason {
                    Some(s) => Some(s),
                    None => clone_opt_string(&req.justification),
                };
                (
                    RunState { cfg, req, phase: Phase::AwaitingApproval { retry: true } },
                    Action::Prompt { reason, retry: true },
                )
            } else {
                let echo = output.clone();
                (
                    RunState {
                        cfg,
                        req,
                        phase: Phase::Done { outcome: RunOutcome::SandboxDenied { output } },
                    },
                    Action::Finish { outcome: RunOutcome::SandboxDenied { output: echo } },
                )
            }
        },
    }
}

/// Law: a key approved for the session is never re-prompted. Beginning
/// a run whose key the cache covers issues no prompt: the run goes
/// straight to execution or ends.
pub proof fn lemma_cached_session_approval_skips_prompt(
    cfg: RuntimeConfig,
    req: ExecRequestV,
    cache: Set<ApprovalKeyV>,
)
    requires
        cache.contains(spec_key_of(req)),
    ensures
        (!(spec_start(cfg, req, cache).1 is Prompt)),
        (!(spec_start(cfg, req, cache).0 is AwaitingApproval)),
{
}

/// Law: an escalation retry occurs if and only if an attempt failed with
/// a sandbox denial, it was the first attempt, and the runtime escalates
/// on failure. In every other case the event is terminal: the run is
/// `Done` and no further prompt or execution is requested.
pub proof fn lemma_escalation_retry_iff(
    cfg: RuntimeConfig,
    req: ExecRequestV,
    retry: bool,
    event: ExecEventV,
)
    ensures
        ((spec_on_exec_result(cfg, req, retry, event).1 is Prompt) <==> (event is SandboxDenied
            && !retry && cfg.escalate_on_failure)),
        (!(event is SandboxDenied && !retry && cfg.escalate_on_failure) ==> spec_on_exec_result(
            cfg,
            req,
            retry,
            event,
        ).0 is Done),
{
}

/// Law: at most one escalation retry per request. A sandbox denial of
/// the escalated second attempt is always terminal, whatever the
/// runtime's escalation eligibility, and surfaces the denial itself.
pub proof fn lemma_second_denial_terminal(cfg: RuntimeConfig, req: ExecRequestV, event: ExecEventV)
    requires
        event is SandboxDenied,
    ensures
        (spec_on_exec_result(cfg, req, true, event).0 == PhaseV::Done {
            outcome: RunOutcomeV::SandboxDenied { output: event->SandboxDenied_output },
        }),
        (spec_on_exec_result(cfg, req, true, event).1 == ActionV::Finish {
            outcome: RunOutcomeV::SandboxDenied { output: event->SandboxDenied_output },
        }),
{
}

/// Law: the retry flag never falls. Once a run has entered its
/// escalation re-prompt, every later phase of that run is the retry
/// phase or terminal: no transition leads back to a first attempt.
pub proof fn lemma_retry_flag_monotone(
    cfg: RuntimeConfig,
    req: ExecRequestV,
    decision: ApprovalDecision,
    event: ExecEventV,
)
    ensures
        (spec_phase_retry(spec_on_decision(cfg, req, true, decision).0) || spec_on_decision(
            cfg,
            req,
            true,
            decision,
        ).0 is Done),
        (spec_phase_retry(spec_on_exec_result(cfg, req, true, event).0) || spec_on_exec_result(
            cfg,
            req,
            true,
            event,
        ).0 is Done),
{
}

/// Law: an abort decision short-circuits before any attempt or
/// environment construction. The run ends `Aborted` and the caller is
/// asked to execute nothing, whether the prompt was the first or the
/// escalation re-prompt.
pub proof fn lemma_abort_short_circuits(
    cfg: RuntimeConfig,
    req: ExecRequestV,
    retry: bool,
)
    ensures
        (spec_on_decision(cfg, req, retry, ApprovalDecision::Abort).0 == PhaseV::Done {
            outcome: RunOutcomeV::Aborted,
        }),
        (spec_on_decision(cfg, req, retry, ApprovalDecision::Abort).1 == ActionV::Finish {
            outcome: RunOutcomeV::Aborted,
        }),
        (!(spec_on_decision(cfg, req, retry, ApprovalDecision::Abort).1 is Execute)),
{
}

/// One input fed to a running machine: a human decision, or what an
/// execution returned.
pub ghost enum StepV {
    Decision { decision: ApprovalDecision },
    ExecResult { event: ExecEventV },
}

/// One step of a run: an input matching the outstanding phase advances
/// the machine and yields its action; any other input leaves the run
/// where it stands and yields nothing.
pub open spec fn spec_step(
    cfg: RuntimeConfig,
    req: ExecRequestV,
    phase: PhaseV,
    step: StepV,
) -> (PhaseV, Option<ActionV>) {
    match (phase, step) {
        (PhaseV::AwaitingApproval { retry }, StepV::Decision { decision }) => {
            let r = spec_on_decision(cfg, req, retry, decision);
            (r.0, Some(r.1))
        },
        (PhaseV::Executing { retry }, StepV::ExecResult { event }) => {
            let r = spec_on_exec_result(cfg, req, retry, event);
            (r.0, Some(r.1))
        },
        _ => (phase, None),
    }
}

/// Whether a step's action asks the caller to execute.
pub open spec fn spec_is_execute(a: Option<ActionV>) -> bool {
    a matches Some(ActionV::Execute { .. })
}

/// Whether a step's action is the escalation re-prompt.
pub open spec fn spec_is_retry_prompt(a: Option<ActionV>) -> bool {
    a matches Some(ActionV::Prompt { retry: true, .. })
}

/// How many executions the machine requests along `steps`, starting
/// from `phase`.
pub open spec fn spec_execute_count(
    cfg: RuntimeConfig,
    req: ExecRequestV,
    phase: PhaseV,
    steps: Seq<StepV>,
) -> nat
    decreases steps.len(),
{
    if steps.len() == 0 {
        0
    } else {
        let r = spec_step(cfg, req, phase, steps[0]);
        (if spec_is_execute(r.1) {
            1nat
        } else {
            0nat
        }) + spec_execute_count(cfg, req, r.0, steps.drop_first())
    }
}

/// How many escalation re-prompts the machine issues along `steps`,
/// starting from `phase`.
pub open spec fn spec_retry_prompt_count(
    cfg: RuntimeConfig,
    req: ExecRequestV,
    phase: PhaseV,
    steps: Seq<StepV>,
) -> nat
    decreases steps.len(),
{
    if steps.len() == 0 {
        0
    } else {
        let r = spec_step(cfg, req, phase, steps[0]);
        (if spec_is_retry_prompt(r.1) {
            1nat
        } else {
            0nat
        }) + spec_retry_prompt_count(cfg, req, r.0, steps.drop_first())
    }
}

/// How many executions can still be requested from `phase` on: two
/// before the first attempt launches, one while it runs or once the
/// re-prompt is outstanding, none once the escalated attempt runs.
pub open spec fn spec_execute_budget(phase: PhaseV) -> nat {
    match phase {
        PhaseV::AwaitingApproval { retry } => if retry {
            1
        } else {
            2
        },
        PhaseV::Executing { retry } => if retry {
            0
        } else {
            1
        },
        PhaseV::Done { .. } => 0,
    }
}

/// How many escalation re-prompts can still be issued from `phase` on.
pub open spec fn spec_retry_prompt_budget(phase: PhaseV) -> nat {
    match phase {
        PhaseV::AwaitingApproval { retry } => if retry {
            0
        } else {
            1
        },
        PhaseV::Executing { retry } => if retry {
            0
        } else {
            1
        },
        PhaseV::Done { .. } => 0,
    }
}

/// Law: from any phase, however the human answers and whatever the
/// executions return, the machine never requests more executions than
/// the phase's budget, and never issues more escalation re-prompts than
/// the phase's budget.
pub proof fn lemma_step_counts_bounded(
    cfg: RuntimeConfig,
    req: ExecRequestV,
    phase: PhaseV,
    steps: Seq<StepV>,
)
    ensures
        spec_execute_count(cfg, req, phase, steps) <= spec_execute_budget(phase),
        spec_retry_prompt_count(cfg, req, phase, steps) <= spec_retry_prompt_budget(phase),
    decreases steps.len(),
{
    if steps.len() > 0 {
        let r = spec_step(cfg, req, phase, steps[0]);
        lemma_step_counts_bounded(cfg, req, r.0, steps.drop_first());
    }
}

/// Law: at most one escalation retry ever occurs per request. Over a
/// whole run — begin, then any sequence of decisions and execution
/// results — the machine requests at most two executions and issues at
/// most one escalation re-prompt; a second sandbox denial can therefore
/// never lead to a third attempt.
pub proof fn lemma_at_most_one_escalation_retry(
    cfg: RuntimeConfig,
    req: ExecRequestV,
    cache: Set<ApprovalKeyV>,
    steps: Seq<StepV>,
)
    ensures
        spec_execute_count(cfg, req, spec_start(cfg, req, cache).0, steps) + (
        if spec_start(cfg, req, cache).1 is Execute {
            1nat
        } else {
            0nat
        }) <= 2,
        spec_retry_prompt_count(cfg, req, spec_start(cfg, req, cache).0, steps) <= 1,
{
    lemma_step_counts_bounded(cfg, req, spec_start(cfg, req, cache).0, steps);
}

/// Law: a denial, like an abort, constructs nothing: the run ends
/// `Denied` with no execution requested.
pub proof fn lemma_denial_terminal(cfg: RuntimeConfig, req: ExecRequestV, retry: bool)
    ensures
        (spec_on_decision(cfg, req, retry, ApprovalDecision::Denied).0 == PhaseV::Done {
            outcome: RunOutcomeV::Denied,
        }),
        (!(spec_on_decision(cfg, req, retry, ApprovalDecision::Denied).1 is Execute)),
{
}

} // verus!
