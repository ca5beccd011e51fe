use reapk::pipeline::{
    validate_run, Action, Failure, FailureKind, Outcome, Pipeline, RunConfig, Stage, ToolCall,
    ValidationError,
};

fn config(cert: Option<&str>, key: Option<&str>, output: Option<&str>) -> RunConfig {
    validate_run(
        "in.apk".to_string(),
        true,
        output.map(|s| s.to_string()),
        cert.map(|s| s.to_string()),
        key.map(|s| s.to_string()),
    )
    .ok()
    .unwrap()
}

/// Drives a run, answering each action from `answer`, and returns the actions asked for.
fn drive(p: &mut Pipeline, answer: &mut dyn FnMut(Action) -> Outcome) -> Vec<Action> {
    let mut seen = Vec::new();
    for _ in 0..20 {
        let a = p.action();
        seen.push(a);
        if let Action::Finish(_) = a {
            break;
        }
        p.advance(answer(a));
    }
    seen
}

fn happy(a: Action) -> Outcome {
    match a {
        Action::CreateWorkspace => Outcome::WorkspaceCreated("/tmp/ws".to_string()),
        Action::ResolveRuntime => Outcome::RuntimeFound("/usr/bin/java".to_string()),
        Action::RunTool(_) => Outcome::Exited(Some(0)),
        _ => Outcome::Completed,
    }
}

#[test]
fn missing_input_is_rejected() {
    let r = validate_run("nope.apk".to_string(), false, None, None, None);
    assert_eq!(r.err(), Some(ValidationError::InputMissing));
}

#[test]
fn cert_without_key_is_rejected() {
    let r = validate_run("in.apk".to_string(), true, None, Some("c.crt".to_string()), None);
    assert_eq!(r.err(), Some(ValidationError::UnpairedCredentials));
    let r = validate_run("in.apk".to_string(), true, None, None, Some("k.pk8".to_string()));
    assert_eq!(r.err(), Some(ValidationError::UnpairedCredentials));
}

#[test]
fn missing_input_is_reported_before_unpaired_credentials() {
    let r = validate_run("nope.apk".to_string(), false, None, Some("c.crt".to_string()), None);
    assert_eq!(r.err(), Some(ValidationError::InputMissing));
}

#[test]
fn output_defaults_to_input() {
    let c = config(None, None, None);
    assert_eq!(c.output_apk, "in.apk");
    assert_eq!(c.input_apk, "in.apk");
    let c = config(Some("c.crt"), Some("k.pk8"), Some("out.apk"));
    assert_eq!(c.output_apk, "out.apk");
    assert_eq!(c.input_apk, "in.apk");
    assert_eq!(c.cert.as_deref(), Some("c.crt"));
    assert_eq!(c.key.as_deref(), Some("k.pk8"));
}

#[test]
fn successful_run_visits_every_stage_in_order() {
    let mut p = Pipeline::new(config(None, None, Some("out.apk")));
    let seen = drive(&mut p, &mut happy);
    assert_eq!(
        seen,
        vec![
            Action::CreateWorkspace,
            Action::WriteDecodeTool,
            Action::ResolveRuntime,
            Action::RunTool(ToolCall::Decode),
            Action::AwaitOperator,
            Action::RunTool(ToolCall::Encode),
            Action::CleanUnpackAssets,
            Action::WriteSignAssets { debug_cert: true, debug_key: true },
            Action::ResolveRuntime,
            Action::RunTool(ToolCall::Sign),
            Action::CleanSignAssets { debug_cert: true, debug_key: true },
            Action::Publish,
            Action::Teardown,
            Action::Finish(None),
        ]
    );
    assert_eq!(p.stage(), Stage::Done);
    assert_eq!(p.failure(), None);
}

#[test]
fn tool_arguments_follow_the_layout() {
    let mut p = Pipeline::new(config(None, None, None));
    p.advance(Outcome::WorkspaceCreated("/tmp/ws".to_string()));
    let l = p.layout().unwrap();
    assert_eq!(l.workspace, "/tmp/ws");
    assert_eq!(l.decode_tool, "/tmp/ws/apktool.jar");
    assert_eq!(l.unpacked, "/tmp/ws/unpacked");
    assert_eq!(p.tool_archive(ToolCall::Decode), "/tmp/ws/apktool.jar");
    assert_eq!(p.tool_archive(ToolCall::Encode), "/tmp/ws/apktool.jar");
    assert_eq!(p.tool_archive(ToolCall::Sign), "/tmp/ws/apksigner.jar");
    assert_eq!(p.tool_args(ToolCall::Decode), vec!["d", "in.apk", "-o", "/tmp/ws/unpacked"]);
    assert_eq!(
        p.tool_args(ToolCall::Encode),
        vec!["b", "/tmp/ws/unpacked", "-o", "/tmp/ws/intermediate.apk"]
    );
    assert_eq!(
        p.tool_args(ToolCall::Sign),
        vec![
            "sign",
            "--key",
            "/tmp/ws/debug_key.pk8",
            "--cert",
            "/tmp/ws/debug_cert.crt",
            "/tmp/ws/intermediate.apk"
        ]
    );
}

#[test]
fn supplied_credentials_are_used_and_never_replaced() {
    let mut p = Pipeline::new(config(Some("my.crt"), Some("my.pk8"), None));
    let seen = drive(&mut p, &mut happy);
    assert!(seen.contains(&Action::WriteSignAssets { debug_cert: false, debug_key: false }));
    assert!(seen.contains(&Action::CleanSignAssets { debug_cert: false, debug_key: false }));
    assert_eq!(p.cert_path(), "my.crt");
    assert_eq!(p.key_path(), "my.pk8");
    assert_eq!(
        p.tool_args(ToolCall::Sign),
        vec!["sign", "--key", "my.pk8", "--cert", "my.crt", "/tmp/ws/intermediate.apk"]
    );
}

#[test]
fn debug_credentials_are_removed_after_a_failed_sign() {
    let mut p = Pipeline::new(config(None, None, None));
    let seen = drive(&mut p, &mut |a| match a {
        Action::RunTool(ToolCall::Sign) => Outcome::Exited(Some(2)),
        other => happy(other),
    });
    let n = seen.len();
    assert_eq!(seen[n - 4], Action::RunTool(ToolCall::Sign));
    assert_eq!(seen[n - 3], Action::CleanSignAssets { debug_cert: true, debug_key: true });
    assert_eq!(seen[n - 2], Action::Teardown);
    let f = Failure { stage: Stage::Sign, kind: FailureKind::ToolExit(Some(2)) };
    assert_eq!(seen[n - 1], Action::Finish(Some(f)));
    assert!(!seen.contains(&Action::Publish));
}

#[test]
fn decode_failure_skips_repack_sign_and_publish() {
    let mut p = Pipeline::new(config(None, None, None));
    let seen = drive(&mut p, &mut |a| match a {
        Action::RunTool(ToolCall::Decode) => Outcome::Exited(Some(1)),
        other => happy(other),
    });
    assert_eq!(
        seen,
        vec![
            Action::CreateWorkspace,
            Action::WriteDecodeTool,
            Action::ResolveRuntime,
            Action::RunTool(ToolCall::Decode),
            Action::CleanUnpackAssets,
            Action::Teardown,
            Action::Finish(Some(Failure { stage: Stage::Unpack, kind: FailureKind::ToolExit(Some(1)) })),
        ]
    );
}

#[test]
fn missing_runtime_runs_no_tool() {
    let mut p = Pipeline::new(config(None, None, None));
    let seen = drive(&mut p, &mut |a| match a {
        Action::ResolveRuntime => Outcome::RuntimeMissing,
        other => happy(other),
    });
    assert!(!seen.iter().any(|a| matches!(a, Action::RunTool(_))));
    assert!(seen.contains(&Action::Teardown));
    let f = Failure { stage: Stage::ResolveForUnpack, kind: FailureKind::Resolution };
    assert_eq!(*seen.last().unwrap(), Action::Finish(Some(f)));
    assert_eq!(p.runtime(), None);
}

#[test]
fn signal_and_spawn_failures_are_told_apart() {
    let mut p = Pipeline::new(config(None, None, None));
    let seen = drive(&mut p, &mut |a| match a {
        Action::RunTool(ToolCall::Encode) => Outcome::Exited(None),
        other => happy(other),
    });
    let f = Failure { stage: Stage::Repack, kind: FailureKind::ToolExit(None) };
    assert_eq!(*seen.last().unwrap(), Action::Finish(Some(f)));

    let mut p = Pipeline::new(config(None, None, None));
    let seen = drive(&mut p, &mut |a| match a {
        Action::RunTool(ToolCall::Decode) => Outcome::SpawnFailed,
        other => happy(other),
    });
    let f = Failure { stage: Stage::Unpack, kind: FailureKind::Spawn };
    assert_eq!(*seen.last().unwrap(), Action::Finish(Some(f)));
}

#[test]
fn workspace_failure_ends_the_run_at_once() {
    let mut p = Pipeline::new(config(None, None, None));
    let seen = drive(&mut p, &mut |_| Outcome::Failed);
    let f = Failure { stage: Stage::StageWorkspace, kind: FailureKind::Allocation };
    assert_eq!(seen, vec![Action::CreateWorkspace, Action::Finish(Some(f))]);
    assert!(p.layout().is_none());
}

#[test]
fn failures_of_other_stages() {
    let cases: Vec<(Action, Stage, FailureKind)> = vec![
        (Action::WriteDecodeTool, Stage::WriteUnpackAssets, FailureKind::Allocation),
        (Action::AwaitOperator, Stage::AwaitOperator, FailureKind::Console),
        (Action::Publish, Stage::Publish, FailureKind::Copy),
    ];
    for (failing, stage, kind) in cases {
        let mut p = Pipeline::new(config(None, None, None));
        let seen = drive(&mut p, &mut |a| if a == failing { Outcome::Failed } else { happy(a) });
        assert_eq!(*seen.last().unwrap(), Action::Finish(Some(Failure { stage, kind })));
        assert!(seen.contains(&Action::Teardown));
    }
}

#[test]
fn cleanup_failures_do_not_fail_the_run() {
    let mut p = Pipeline::new(config(None, None, None));
    let seen = drive(&mut p, &mut |a| match a {
        Action::CleanUnpackAssets | Action::CleanSignAssets { .. } | Action::Teardown => Outcome::Failed,
        other => happy(other),
    });
    assert_eq!(*seen.last().unwrap(), Action::Finish(None));
    assert!(seen.contains(&Action::Publish));
}
