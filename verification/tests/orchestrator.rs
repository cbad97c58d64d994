use exec_orchestrator::approval::ApprovalCache;
use exec_orchestrator::approval::ApprovalDecision;
use exec_orchestrator::orchestrator::on_decision;
use exec_orchestrator::orchestrator::on_exec_result;
use exec_orchestrator::orchestrator::start_run;
use exec_orchestrator::orchestrator::Action;
use exec_orchestrator::orchestrator::ExecEvent;
use exec_orchestrator::orchestrator::ExecRequest;
use exec_orchestrator::orchestrator::RunOutcome;
use exec_orchestrator::orchestrator::RuntimeConfig;
use exec_orchestrator::sandboxing::SandboxPolicy;
use exec_orchestrator::sandboxing::SandboxPreference;

fn echo_request() -> ExecRequest {
    ExecRequest {
        command: vec!["echo".to_string(), "hi".to_string()],
        cwd: "/tmp".to_string(),
        env: Vec::new(),
        timeout_ms: None,
        escalated: false,
        justification: None,
    }
}

fn auto_config() -> RuntimeConfig {
    RuntimeConfig { preference: SandboxPreference::Auto, escalate_on_failure: true }
}

#[test]
fn fresh_request_prompts_once_then_succeeds() {
    let cache = ApprovalCache::new();
    let (state, action) = start_run(auto_config(), echo_request(), &cache);
    let reason = match &action {
        Action::Prompt { reason, retry } => {
            assert!(!*retry);
            reason.clone()
        }
        _ => panic!("expected a prompt"),
    };
    assert!(reason.is_none());

    let mut cache = cache;
    let (state, action) = on_decision(state, ApprovalDecision::Approved, &mut cache);
    match &action {
        Action::Execute { env } => {
            assert_eq!(env.command, vec!["echo".to_string(), "hi".to_string()]);
            assert_eq!(env.cwd, "/tmp".to_string());
            assert!(matches!(env.policy, SandboxPolicy::Sandboxed));
        }
        _ => panic!("expected an execution"),
    }

    let (_state, action) =
        on_exec_result(state, ExecEvent::Succeeded { output: "hi".to_string() });
    match action {
        Action::Finish { outcome: RunOutcome::Success { output } } => {
            assert_eq!(output, "hi".to_string());
        }
        _ => panic!("expected success"),
    }
}

#[test]
fn session_approval_skips_second_prompt() {
    let mut cache = ApprovalCache::new();
    let (state, action) = start_run(auto_config(), echo_request(), &cache);
    assert!(matches!(action, Action::Prompt { .. }));
    let (_state, _action) = on_decision(state, ApprovalDecision::ApprovedForSession, &mut cache);

    let (_state, action) = start_run(auto_config(), echo_request(), &cache);
    assert!(matches!(action, Action::Execute { .. }));
}

#[test]
fn single_use_approval_prompts_again() {
    let mut cache = ApprovalCache::new();
    let (state, _action) = start_run(auto_config(), echo_request(), &cache);
    let (_state, _action) = on_decision(state, ApprovalDecision::Approved, &mut cache);

    let (_state, action) = start_run(auto_config(), echo_request(), &cache);
    assert!(matches!(action, Action::Prompt { .. }));
}

#[test]
fn denial_is_terminal_and_prompts_again_next_time() {
    let mut cache = ApprovalCache::new();
    let (state, _action) = start_run(auto_config(), echo_request(), &cache);
    let (state, action) = on_decision(state, ApprovalDecision::Denied, &mut cache);
    assert!(matches!(action, Action::Finish { outcome: RunOutcome::Denied }));
    assert!(matches!(
        state.phase,
        exec_orchestrator::orchestrator::Phase::Done { outcome: RunOutcome::Denied }
    ));

    let (_state, action) = start_run(auto_config(), echo_request(), &cache);
    assert!(matches!(action, Action::Prompt { .. }));
}

#[test]
fn abort_short_circuits_without_execution() {
    let mut cache = ApprovalCache::new();
    let (state, _action) = start_run(auto_config(), echo_request(), &cache);
    let (_state, action) = on_decision(state, ApprovalDecision::Abort, &mut cache);
    assert!(matches!(action, Action::Finish { outcome: RunOutcome::Aborted }));

    let (_state, action) = start_run(auto_config(), echo_request(), &cache);
    assert!(matches!(action, Action::Prompt { .. }));
}

#[test]
fn sandbox_denial_escalates_once_with_derived_reason() {
    let mut cache = ApprovalCache::new();
    let (state, _action) = start_run(auto_config(), echo_request(), &cache);
    let (state, _action) = on_decision(state, ApprovalDecision::Approved, &mut cache);

    let (state, action) = on_exec_result(
        state,
        ExecEvent::SandboxDenied {
            output: "permission denied".to_string(),
            retry_reason: Some("blocked by sandbox".to_string()),
        },
    );
    match &action {
        Action::Prompt { reason, retry } => {
            assert!(*retry);
            assert_eq!(reason.as_deref(), Some("blocked by sandbox"));
        }
        _ => panic!("expected the escalation re-prompt"),
    }

    let (state, action) = on_decision(state, ApprovalDecision::Approved, &mut cache);
    match &action {
        Action::Execute { env } => {
            assert!(matches!(env.policy, SandboxPolicy::FullAccess));
        }
        _ => panic!("expected the escalated second attempt"),
    }

    let (_state, action) =
        on_exec_result(state, ExecEvent::Succeeded { output: "hi".to_string() });
    assert!(matches!(action, Action::Finish { outcome: RunOutcome::Success { .. } }));
}

#[test]
fn retry_reason_falls_back_to_justification() {
    let mut cache = ApprovalCache::new();
    let mut req = echo_request();
    req.justification = Some("need the output".to_string());
    let (state, action) = start_run(auto_config(), req, &cache);
    match &action {
        Action::Prompt { reason, .. } => {
            assert_eq!(reason.as_deref(), Some("need the output"));
        }
        _ => panic!("expected a prompt"),
    }
    let (state, _action) = on_decision(state, ApprovalDecision::Approved, &mut cache);
    let (_state, action) = on_exec_result(
        state,
        ExecEvent::SandboxDenied { output: "denied".to_string(), retry_reason: None },
    );
    match &action {
        Action::Prompt { reason, retry } => {
            assert!(*retry);
            assert_eq!(reason.as_deref(), Some("need the output"));
        }
        _ => panic!("expected the escalation re-prompt"),
    }
}

#[test]
fn denial_without_escalation_is_terminal() {
    let cfg = RuntimeConfig { preference: SandboxPreference::Auto, escalate_on_failure: false };
    let mut cache = ApprovalCache::new();
    let (state, _action) = start_run(cfg, echo_request(), &cache);
    let (state, _action) = on_decision(state, ApprovalDecision::Approved, &mut cache);
    let (_state, action) = on_exec_result(
        state,
        ExecEvent::SandboxDenied { output: "denied".to_string(), retry_reason: None },
    );
    match action {
        Action::Finish { outcome: RunOutcome::SandboxDenied { output } } => {
            assert_eq!(output, "denied".to_string());
        }
        _ => panic!("expected the denial to surface immediately"),
    }
}

#[test]
fn second_sandbox_denial_is_terminal() {
    let mut cache = ApprovalCache::new();
    let (state, _action) = start_run(auto_config(), echo_request(), &cache);
    let (state, _action) = on_decision(state, ApprovalDecision::Approved, &mut cache);
    let (state, action) = on_exec_result(
        state,
        ExecEvent::SandboxDenied { output: "first".to_string(), retry_reason: None },
    );
    assert!(matches!(action, Action::Prompt { retry: true, .. }));
    let (state, _action) = on_decision(state, ApprovalDecision::Approved, &mut cache);
    let (_state, action) = on_exec_result(
        state,
        ExecEvent::SandboxDenied { output: "second".to_string(), retry_reason: None },
    );
    match action {
        Action::Finish { outcome: RunOutcome::SandboxDenied { output } } => {
            assert_eq!(output, "second".to_string());
        }
        _ => panic!("expected the second denial to be terminal"),
    }
}

#[test]
fn abort_on_the_escalation_reprompt_is_terminal() {
    let mut cache = ApprovalCache::new();
    let (state, _action) = start_run(auto_config(), echo_request(), &cache);
    let (state, _action) = on_decision(state, ApprovalDecision::Approved, &mut cache);
    let (state, action) = on_exec_result(
        state,
        ExecEvent::SandboxDenied { output: "denied".to_string(), retry_reason: None },
    );
    assert!(matches!(action, Action::Prompt { retry: true, .. }));
    let (_state, action) = on_decision(state, ApprovalDecision::Abort, &mut cache);
    assert!(matches!(action, Action::Finish { outcome: RunOutcome::Aborted }));
}

#[test]
fn empty_command_fails_fast_without_prompt() {
    let cache = ApprovalCache::new();
    let mut req = echo_request();
    req.command = Vec::new();
    let (_state, action) = start_run(auto_config(), req, &cache);
    assert!(matches!(action, Action::Finish { outcome: RunOutcome::InvalidCommand }));
}

#[test]
fn relative_cwd_fails_fast_without_prompt() {
    let cache = ApprovalCache::new();
    let mut req = echo_request();
    req.cwd = "tmp".to_string();
    let (_state, action) = start_run(auto_config(), req, &cache);
    assert!(matches!(action, Action::Finish { outcome: RunOutcome::InvalidCommand }));
}

#[test]
fn escalation_under_required_sandbox_is_environment_error() {
    let cfg =
        RuntimeConfig { preference: SandboxPreference::RequireSandbox, escalate_on_failure: false };
    let mut cache = ApprovalCache::new();
    let mut req = echo_request();
    req.escalated = true;
    let (state, action) = start_run(cfg, req, &cache);
    assert!(matches!(action, Action::Prompt { .. }));
    let (_state, action) = on_decision(state, ApprovalDecision::Approved, &mut cache);
    assert!(matches!(action, Action::Finish { outcome: RunOutcome::EnvironmentError }));
}

#[test]
fn manager_rejection_is_not_a_sandbox_fault() {
    let mut cache = ApprovalCache::new();
    let (state, _action) = start_run(auto_config(), echo_request(), &cache);
    let (state, _action) = on_decision(state, ApprovalDecision::Approved, &mut cache);
    let (_state, action) = on_exec_result(
        state,
        ExecEvent::Failed { message: "session table full".to_string() },
    );
    match action {
        Action::Finish { outcome: RunOutcome::Rejected { message } } => {
            assert_eq!(message, "session table full".to_string());
        }
        _ => panic!("expected a rejection"),
    }
}

#[test]
fn reset_cache_prompts_again() {
    let mut cache = ApprovalCache::new();
    let (state, _action) = start_run(auto_config(), echo_request(), &cache);
    let (_state, _action) = on_decision(state, ApprovalDecision::ApprovedForSession, &mut cache);
    let (_state, action) = start_run(auto_config(), echo_request(), &cache);
    assert!(matches!(action, Action::Execute { .. }));

    cache.reset();
    let (_state, action) = start_run(auto_config(), echo_request(), &cache);
    assert!(matches!(action, Action::Prompt { .. }));
}

#[test]
fn cached_approval_is_keyed_by_escalation_flag() {
    let mut cache = ApprovalCache::new();
    let (state, _action) = start_run(auto_config(), echo_request(), &cache);
    let (_state, _action) = on_decision(state, ApprovalDecision::ApprovedForSession, &mut cache);

    let mut escalated = echo_request();
    escalated.escalated = true;
    let (_state, action) = start_run(auto_config(), escalated, &cache);
    assert!(matches!(action, Action::Prompt { .. }));
}
