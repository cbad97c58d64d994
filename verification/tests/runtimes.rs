use exec_orchestrator::approval::ApprovalCache;
use exec_orchestrator::approval::ApprovalDecision;
use exec_orchestrator::approval::keys_equal;
use exec_orchestrator::command_spec::build_command_spec;
use exec_orchestrator::orchestrator::on_decision;
use exec_orchestrator::orchestrator::on_exec_result;
use exec_orchestrator::orchestrator::Action;
use exec_orchestrator::orchestrator::ExecEvent;
use exec_orchestrator::orchestrator::RunOutcome;
use exec_orchestrator::sandboxing::SandboxAttempt;
use exec_orchestrator::sandboxing::SandboxPolicy;
use exec_orchestrator::sandboxing::SandboxPreference;
use exec_orchestrator::shell::ShellRequest;
use exec_orchestrator::shell::ShellRuntime;
use exec_orchestrator::shell::ToolCtx;
use exec_orchestrator::unified_exec::UnifiedExecRequest;
use exec_orchestrator::unified_exec::UnifiedExecRuntime;

fn shell_request() -> ShellRequest {
    ShellRequest {
        command: vec!["echo".to_string(), "hi".to_string()],
        cwd: "/tmp".to_string(),
        timeout_ms: Some(1000),
        env: vec![("K".to_string(), "V".to_string())],
        with_escalated_permissions: None,
        justification: None,
    }
}

#[test]
fn shell_runtime_declares_auto_with_escalation() {
    let rt = ShellRuntime::new();
    assert!(matches!(rt.sandbox_preference(), SandboxPreference::Auto));
    assert!(rt.escalate_on_failure());
}

#[test]
fn unified_exec_runtime_declares_auto_with_escalation() {
    let rt = UnifiedExecRuntime::new();
    assert!(matches!(rt.sandbox_preference(), SandboxPreference::Auto));
    assert!(rt.escalate_on_failure());
}

#[test]
fn shell_approval_key_normalizes_escalation() {
    let rt = ShellRuntime::new();
    let req = shell_request();
    let key_none = rt.approval_key(&req);
    assert!(!key_none.escalated);
    assert_eq!(key_none.command, req.command);
    assert_eq!(key_none.cwd, req.cwd);

    let mut escalated = shell_request();
    escalated.with_escalated_permissions = Some(true);
    assert!(rt.approval_key(&escalated).escalated);

    let mut explicit_off = shell_request();
    explicit_off.with_escalated_permissions = Some(false);
    assert!(!rt.approval_key(&explicit_off).escalated);
    assert!(keys_equal(&key_none, &rt.approval_key(&explicit_off)));
}

#[test]
fn unified_exec_key_has_no_escalation() {
    let rt = UnifiedExecRuntime::new();
    let req = UnifiedExecRequest::new(vec!["bash".to_string()], "/home".to_string());
    let key = rt.approval_key(&req);
    assert_eq!(key.command, vec!["bash".to_string()]);
    assert_eq!(key.cwd, "/home".to_string());
    assert!(!key.cache_key().escalated);
}

#[test]
fn command_spec_builder_is_deterministic() {
    let command = vec!["ls".to_string(), "-l".to_string()];
    let cwd = "/var".to_string();
    let env = vec![("A".to_string(), "1".to_string())];
    let a = build_command_spec(&command, &cwd, &env, Some(5), Some(true), Some("why".to_string()))
        .ok()
        .unwrap();
    let b = build_command_spec(&command, &cwd, &env, Some(5), Some(true), Some("why".to_string()))
        .ok()
        .unwrap();
    assert_eq!(a.command, b.command);
    assert_eq!(a.cwd, b.cwd);
    assert_eq!(a.env, b.env);
    assert_eq!(a.timeout_ms, b.timeout_ms);
    assert_eq!(a.escalated, b.escalated);
    assert_eq!(a.justification, b.justification);
}

#[test]
fn command_spec_builder_rejects_malformed_requests() {
    let empty: Vec<String> = Vec::new();
    let cwd = "/tmp".to_string();
    assert!(build_command_spec(&empty, &cwd, &Vec::new(), None, None, None).is_err());

    let command = vec!["ls".to_string()];
    let relative = "tmp".to_string();
    assert!(build_command_spec(&command, &relative, &Vec::new(), None, None, None).is_err());
    let blank = String::new();
    assert!(build_command_spec(&command, &blank, &Vec::new(), None, None, None).is_err());
}

#[test]
fn command_spec_defaults_escalation_off() {
    let command = vec!["ls".to_string()];
    let cwd = "/tmp".to_string();
    let spec = build_command_spec(&command, &cwd, &Vec::new(), None, None, None).ok().unwrap();
    assert!(!spec.escalated);
    assert_eq!(spec.command, command);
    assert_eq!(spec.cwd, cwd);
}

#[test]
fn attempt_policy_follows_preference_and_escalation() {
    assert!(matches!(
        SandboxAttempt::new(SandboxPreference::Auto, false).policy(),
        SandboxPolicy::Sandboxed
    ));
    assert!(matches!(
        SandboxAttempt::new(SandboxPreference::Auto, true).policy(),
        SandboxPolicy::FullAccess
    ));
    assert!(matches!(
        SandboxAttempt::new(SandboxPreference::DoNotSandbox, false).policy(),
        SandboxPolicy::FullAccess
    ));
    assert!(matches!(
        SandboxAttempt::new(SandboxPreference::RequireSandbox, false).policy(),
        SandboxPolicy::Sandboxed
    ));
}

#[test]
fn attempt_refuses_escalation_under_required_sandbox() {
    let command = vec!["ls".to_string()];
    let cwd = "/tmp".to_string();
    let spec =
        build_command_spec(&command, &cwd, &Vec::new(), None, Some(true), None).ok().unwrap();
    let attempt = SandboxAttempt::new(SandboxPreference::RequireSandbox, true);
    assert!(attempt.env_for(&spec).is_err());

    let allowed = SandboxAttempt::new(SandboxPreference::Auto, true);
    let env = allowed.env_for(&spec).ok().unwrap();
    assert!(matches!(env.policy, SandboxPolicy::FullAccess));
    assert_eq!(env.command, command);
}

#[test]
fn stdout_stream_carries_call_identifiers() {
    let ctx = ToolCtx { sub_id: "sub-1".to_string(), call_id: "call-9".to_string() };
    let stream = ShellRuntime::stdout_stream(&ctx).unwrap();
    assert_eq!(stream.sub_id, "sub-1".to_string());
    assert_eq!(stream.call_id, "call-9".to_string());
}

#[test]
fn shell_begin_prompts_with_justification() {
    let rt = ShellRuntime::new();
    let cache = ApprovalCache::new();
    let mut req = shell_request();
    req.justification = Some("inspect the directory".to_string());
    let (_state, action) = rt.begin(&req, &cache);
    match action {
        Action::Prompt { reason, retry } => {
            assert!(!retry);
            assert_eq!(reason.as_deref(), Some("inspect the directory"));
        }
        _ => panic!("expected a prompt"),
    }
}

#[test]
fn shell_run_carries_env_and_timeout_into_environment() {
    let rt = ShellRuntime::new();
    let mut cache = ApprovalCache::new();
    let (state, _action) = rt.begin(&shell_request(), &cache);
    let (_state, action) = on_decision(state, ApprovalDecision::Approved, &mut cache);
    match action {
        Action::Execute { env } => {
            assert_eq!(env.env, vec![("K".to_string(), "V".to_string())]);
            assert_eq!(env.timeout_ms, Some(1000));
            assert!(matches!(env.policy, SandboxPolicy::Sandboxed));
        }
        _ => panic!("expected an execution"),
    }
}

#[test]
fn unified_exec_session_acquisition_follows_escalation_branch() {
    let rt = UnifiedExecRuntime::new();
    let mut cache = ApprovalCache::new();
    let req = UnifiedExecRequest::new(vec!["bash".to_string()], "/home".to_string());
    let (state, action) = rt.begin(&req, &cache);
    match &action {
        Action::Prompt { reason, retry } => {
            assert!(!*retry);
            assert!(reason.is_none());
        }
        _ => panic!("expected a prompt"),
    }
    let (state, action) = on_decision(state, ApprovalDecision::Approved, &mut cache);
    match &action {
        Action::Execute { env } => {
            assert!(env.env.is_empty());
            assert_eq!(env.timeout_ms, None);
        }
        _ => panic!("expected an execution"),
    }

    let (state, action) = on_exec_result(
        state,
        ExecEvent::SandboxDenied { output: "pty blocked".to_string(), retry_reason: None },
    );
    assert!(matches!(action, Action::Prompt { retry: true, .. }));
    let (state, action) = on_decision(state, ApprovalDecision::Approved, &mut cache);
    match &action {
        Action::Execute { env } => {
            assert!(matches!(env.policy, SandboxPolicy::FullAccess));
        }
        _ => panic!("expected the escalated attempt"),
    }
    let (_state, action) = on_exec_result(
        state,
        ExecEvent::Failed { message: "manager refused".to_string() },
    );
    assert!(matches!(action, Action::Finish { outcome: RunOutcome::Rejected { .. } }));
}

#[test]
fn unified_exec_requests_share_the_session_cache_key_space() {
    let rt = UnifiedExecRuntime::new();
    let mut cache = ApprovalCache::new();
    let req = UnifiedExecRequest::new(vec!["bash".to_string()], "/home".to_string());
    let (state, _action) = rt.begin(&req, &cache);
    let (_state, _action) = on_decision(state, ApprovalDecision::ApprovedForSession, &mut cache);

    let again = UnifiedExecRequest::new(vec!["bash".to_string()], "/home".to_string());
    let (_state, action) = rt.begin(&again, &cache);
    assert!(matches!(action, Action::Execute { .. }));
}
