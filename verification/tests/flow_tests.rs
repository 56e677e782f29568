use agent::api::{check_callback, operation_result, project_container_name, session_gate, AuthRejection, ContainerOp, SignInFailure, UpdateDiscordWebhook};
use agent::config::ProjectConfig;
use agent::deploy::{BlueGreenDeployment, DeployAction, DeployEvent};
use agent::detector::{Detection, ProjectDetector};
use agent::events::{event_kind, event_subscriptions, subscription_key, subscription_of, Event, WsSubscription};
use agent::models::{Build, BuildStatus, DeploymentStatus, Project, Slot};
use agent::notify::{DiscordNotifier, DiscordWebhookConfig, EmbedColor, NoticeKind};

fn strings(v: &[&str]) -> Vec<String> {
    v.iter().map(|s| s.to_string()).collect()
}

fn project() -> Project {
    Project {
        id: 3,
        name: "shop".to_string(),
        repo: "https://github.com/o/shop".to_string(),
        path_filter: "*".to_string(),
        branch: "main".to_string(),
        build_image: "node:20".to_string(),
        build_command: "npm ci".to_string(),
        cache_type: "npm".to_string(),
        working_directory: None,
        runtime_image: "node:20-slim".to_string(),
        runtime_command: "node src/index.js".to_string(),
        health_check_url: "/health".to_string(),
        runtime_port: 3000,
        build_env_vars: None,
        runtime_env_vars: None,
        blue_port: 10001,
        green_port: 10002,
        active_slot: Slot::Blue,
        blue_container_id: Some("blue-old".to_string()),
        green_container_id: Some("green-old".to_string()),
        deployment_status: DeploymentStatus::Deployed,
        github_webhook_id: None,
        discord_webhook_id: None,
        created_at: String::new(),
        updated_at: String::new(),
    }
}

fn build() -> Build {
    Build {
        id: 42,
        project_id: 3,
        build_number: 5,
        commit_hash: "0123456789abcdef".to_string(),
        commit_message: Some("msg".to_string()),
        author: None,
        status: BuildStatus::Building,
        log_path: "/logs/42".to_string(),
        deploy_log_path: Some("/logs/42-deploy.log".to_string()),
        output_path: Some("/out/42".to_string()),
        deployed_slot: Some("Blue".to_string()),
        started_at: "2024-01-01T00:00:00Z".to_string(),
        finished_at: Some("2024-01-01T00:01:30Z".to_string()),
    }
}

fn webhook_config() -> DiscordWebhookConfig {
    DiscordWebhookConfig {
        id: 1,
        label: "team".to_string(),
        webhook_url: "https://discord.example/hook".to_string(),
        enabled: true,
        notify_on_build_start: false,
        notify_on_build_success: true,
        notify_on_build_failure: true,
        notify_on_deploy_start: false,
        notify_on_deploy_success: true,
        notify_on_deploy_failure: true,
        mention_user_ids: strings(&["11"]),
        mention_role_ids: strings(&["22"]),
        mention_on_failure_only: true,
    }
}

// --- blue-green deployment -----------------------------------------------------------

fn run(d: &mut BlueGreenDeployment, ev: DeployEvent) -> Vec<DeployAction> {
    assert!(d.accepts(&ev));
    d.step(ev)
}

#[test]
fn deployment_switches_to_the_other_slot() {
    let mut d = BlueGreenDeployment::deploy(&project(), &build(), "/out/42").ok().unwrap();
    assert_eq!(d.target_slot(), Slot::Green);
    let a = run(&mut d, DeployEvent::Done);
    assert!(matches!(a.last(), Some(DeployAction::CheckRunning(c)) if c == "green-old"));
    let a = run(&mut d, DeployEvent::Running(true));
    assert!(a.iter().any(|x| matches!(x, DeployAction::StopContainer(c) if c == "green-old")));
    assert!(matches!(a.last(), Some(DeployAction::SetSlotContainer(Slot::Green, None))));
    let a = run(&mut d, DeployEvent::Done);
    match a.last() {
        Some(DeployAction::StartRuntime { image, command, host_port, container_port, project_id, slot_name, output_path }) => {
            assert_eq!(output_path, "/out/42");
            assert_eq!(image, "node:20-slim");
            assert_eq!(command, "node src/index.js");
            assert_eq!(*host_port, 10002);
            assert_eq!(*container_port, 3000);
            assert_eq!(*project_id, 3);
            assert_eq!(slot_name, "green");
        }
        other => panic!("unexpected {:?}", other),
    }
    let a = run(&mut d, DeployEvent::Started("new".to_string()));
    assert!(matches!(a.last(), Some(DeployAction::SetSlotContainer(Slot::Green, Some(c))) if c == "new"));
    let a = run(&mut d, DeployEvent::Done);
    assert!(matches!(a.last(), Some(DeployAction::CheckRunning(c)) if c == "new"));
    // Not running yet: wait and ask again.
    let a = run(&mut d, DeployEvent::Running(false));
    assert!(matches!(a[0], DeployAction::Sleep(2)));
    let a = run(&mut d, DeployEvent::Running(true));
    assert!(matches!(a.last(), Some(DeployAction::SetActiveSlot(Slot::Green))));
    let a = run(&mut d, DeployEvent::Done);
    assert!(matches!(a.last(), Some(DeployAction::FinishBuild(BuildStatus::Success))));
    let a = run(&mut d, DeployEvent::Done);
    assert!(matches!(a.last(), Some(DeployAction::SetDeployedSlot(s)) if s == "Green"));
    let a = run(&mut d, DeployEvent::Done);
    assert!(a.iter().any(|x| matches!(x, DeployAction::StopContainer(c) if c == "blue-old")));
    assert!(matches!(a.last(), Some(DeployAction::SetSlotContainer(Slot::Blue, None))));
    assert!(!d.is_finished());
    let a = run(&mut d, DeployEvent::Done);
    assert!(matches!(a.last(), Some(DeployAction::Finish(Ok(())))));
    assert!(d.is_finished());
    assert!(d.step(DeployEvent::Done).is_empty());
}

#[test]
fn failed_health_check_keeps_the_active_slot() {
    let mut p = project();
    p.green_container_id = None;
    let mut d = BlueGreenDeployment::deploy(&p, &build(), "/out/42").ok().unwrap();
    let a = run(&mut d, DeployEvent::Done);
    assert!(a.iter().any(|x| matches!(x, DeployAction::StartRuntime { .. })));
    run(&mut d, DeployEvent::Started("new".to_string()));
    run(&mut d, DeployEvent::Done);
    let mut last = Vec::new();
    for _ in 0..10 {
        last = run(&mut d, DeployEvent::Running(false));
    }
    assert!(!last.iter().any(|x| matches!(x, DeployAction::SetActiveSlot(_))));
    assert!(matches!(
        last.last(),
        Some(DeployAction::Finish(Err(e))) if e == "Deployment failed: Health check timed out after 10 attempts"
    ));
    assert!(d.is_finished());
}

#[test]
fn start_failure_ends_the_deployment() {
    let mut p = project();
    p.green_container_id = None;
    let mut d = BlueGreenDeployment::deploy(&p, &build(), "/out/42").ok().unwrap();
    run(&mut d, DeployEvent::Done);
    let a = run(&mut d, DeployEvent::Failed("no image".to_string()));
    assert!(matches!(
        a.last(),
        Some(DeployAction::Finish(Err(e))) if e == "Failed to start runtime container: no image"
    ));
}

#[test]
fn rollbacks_need_a_deployed_build_with_output() {
    let mut b = build();
    b.deployed_slot = None;
    assert_eq!(BlueGreenDeployment::rollback(&project(), &b, true).err(), Some("Target build was never deployed".to_string()));
    let mut b = build();
    b.output_path = None;
    assert_eq!(BlueGreenDeployment::rollback(&project(), &b, true).err(), Some("Target build has no output path".to_string()));
    assert_eq!(
        BlueGreenDeployment::rollback(&project(), &build(), false).err(),
        Some("Target build output not found: /out/42".to_string())
    );
    let mut d = BlueGreenDeployment::rollback(&project(), &build(), true).ok().unwrap();
    let a = run(&mut d, DeployEvent::Done);
    assert!(matches!(a[0], DeployAction::StopContainer(ref c) if c == "green-old"));
    let a = run(&mut d, DeployEvent::Done);
    match a.last() {
        Some(DeployAction::StartRuntime { output_path, slot_name, host_port, .. }) => {
            assert_eq!(output_path, "/out/42");
            assert_eq!(slot_name, "green");
            assert_eq!(*host_port, 10002);
        }
        other => panic!("unexpected {:?}", other),
    }
}

// --- notifications ---------------------------------------------------------------------

#[test]
fn mentions_only_on_failure() {
    let c = webhook_config();
    assert_eq!(c.get_mentions(false), Vec::<String>::new());
    assert_eq!(c.get_mentions(true), strings(&["<@11>", "<@&22>"]));
}

#[test]
fn events_become_notices() {
    let e = Event::build_status(42, 3, BuildStatus::Failed);
    assert_eq!(DiscordNotifier::notice_of(&e), Some((NoticeKind::BuildFailed, 3, 42)));
    assert_eq!(DiscordNotifier::notice_of(&Event::build_status(42, 3, BuildStatus::Queued)), None);
    let c = webhook_config();
    assert!(DiscordNotifier::wants(&c, NoticeKind::BuildFailed));
    assert!(!DiscordNotifier::wants(&c, NoticeKind::BuildStarted));
    let mut off = webhook_config();
    off.enabled = false;
    assert!(!DiscordNotifier::wants(&off, NoticeKind::BuildFailed));
    assert_eq!(DiscordNotifier::build_url("https://ci.example", 42), "https://ci.example/builds/42");
    assert_eq!(DiscordNotifier::duration_seconds(&build()), 90);
    let mut unfinished = build();
    unfinished.finished_at = None;
    assert_eq!(DiscordNotifier::duration_seconds(&unfinished), 0);
}

#[test]
fn failure_message_mentions() {
    let e = Event::build_status(42, 3, BuildStatus::Failed);
    let m = DiscordNotifier::message_for(NoticeKind::BuildFailed, &e, &project(), &build(), &webhook_config(), "https://ci")
        .unwrap();
    assert_eq!(m.content.as_deref(), Some("<@11> <@&22>"));
    assert_eq!(m.username.as_deref(), Some("Easy CI/CD"));
    let embed = &m.embeds.as_ref().unwrap()[0];
    assert_eq!(embed.title.as_deref(), Some("❌ 빌드 #5 실패"));
    assert_eq!(embed.color, Some(EmbedColor::FAILURE));
    let fields = embed.fields.as_ref().unwrap();
    assert_eq!(fields[0].value, "`main`");
    assert_eq!(fields[2].value, "[빌드 로그 보기](https://ci/builds/42)");
}

#[test]
fn start_message_shortens_the_hash() {
    let e = Event::build_status(42, 3, BuildStatus::Building);
    let m = DiscordNotifier::message_for(NoticeKind::BuildStarted, &e, &project(), &build(), &webhook_config(), "x")
        .unwrap();
    assert_eq!(m.content, None);
    let fields = m.embeds.unwrap()[0].fields.clone().unwrap();
    assert_eq!(fields[1].value, "`0123456`");
    assert_eq!(fields[2].value, "Unknown");
    assert!(DiscordNotifier::message_for(NoticeKind::DeployStarted, &e, &project(), &build(), &webhook_config(), "x")
        .is_none());
}

// --- API helpers ---------------------------------------------------------------------

#[test]
fn sign_in_callbacks() {
    assert_eq!(check_callback(None, "s", Some("v")), Err(SignInFailure::MissingCsrf));
    assert_eq!(check_callback(Some("a"), "b", Some("v")), Err(SignInFailure::InvalidCsrf));
    assert_eq!(check_callback(Some("a"), "a", None), Err(SignInFailure::MissingPkce));
    assert_eq!(check_callback(Some("a"), "a", Some("v")), Ok("v".to_string()));
    assert_eq!(SignInFailure::NotAllowed.redirect_path(), "/login?error=not_allowed");
}

#[test]
fn sessions_gate_requests() {
    assert_eq!(session_gate(false, true), Err(AuthRejection::AuthenticationRequired));
    assert_eq!(session_gate(true, false), Err(AuthRejection::SessionExpired));
    assert_eq!(session_gate(true, true), Ok(()));
    assert_eq!(AuthRejection::SessionExpired.code(), "SESSION_EXPIRED");
    assert_eq!(AuthRejection::AuthenticationRequired.error(), "Authentication required");
}

#[test]
fn webhook_updates_merge() {
    let upd = UpdateDiscordWebhook {
        label: Some("new".to_string()),
        webhook_url: None,
        enabled: Some(false),
        notify_on_build_start: None,
        notify_on_build_success: None,
        notify_on_build_failure: None,
        notify_on_deploy_start: Some(true),
        notify_on_deploy_success: None,
        notify_on_deploy_failure: None,
        mention_user_ids: Some(vec![]),
        mention_role_ids: None,
        mention_on_failure_only: None,
    };
    let m = upd.merge(webhook_config());
    assert_eq!(m.label, "new");
    assert_eq!(m.webhook_url, "https://discord.example/hook");
    assert!(!m.enabled);
    assert!(m.notify_on_deploy_start);
    assert!(m.mention_user_ids.is_empty());
    assert_eq!(m.mention_role_ids, strings(&["22"]));
}

#[test]
fn container_operations() {
    let r = operation_result(Slot::Green, ContainerOp::Restart, "c".to_string(), None);
    assert_eq!((r.slot.as_str(), r.status.as_str(), r.error), ("Green", "restarted", None));
    let r = operation_result(Slot::Blue, ContainerOp::Start, "c".to_string(), Some("boom".to_string()));
    assert_eq!(r.status, "error");
    assert_eq!(r.error.as_deref(), Some("boom"));
    assert_eq!(project_container_name(3, Slot::Green), "project-3-green");
}

// --- detection ---------------------------------------------------------------------------

fn decided(d: Detection) -> Result<ProjectConfig, String> {
    match d {
        Detection::Decided(r) => r,
        Detection::TryWorkflows(w) => panic!("unexpected workflows {:?}", w),
    }
}

#[test]
fn projects_without_workflows() {
    let c = decided(ProjectDetector::start(&strings(&["api/package.json", "api/src/index.js", "web/x"]), Some("api/")))
        .unwrap();
    assert_eq!(c.project_type, "Node.js (Backend)");
    assert_eq!(c.working_directory.as_deref(), Some("api"));
    let c = ProjectDetector::detect_from_files(&strings(&["Dockerfile", "package.json"])).unwrap();
    assert_eq!(c.project_type, "Dockerfile");
    let c = ProjectDetector::detect_from_files(&strings(&["requirements.txt", "app/fastapi_app.py"])).unwrap();
    assert_eq!(c.runtime_command, "uvicorn main:app --host 0.0.0.0 --port 8000");
    assert_eq!(
        ProjectDetector::detect_from_files(&strings(&["README.md"])).err(),
        Some("Unable to detect project type. Please configure manually.".to_string())
    );
}

#[test]
fn workflows_are_tried_in_order() {
    let paths = strings(&[
        ".github/workflows/z.yml",
        ".github/workflows/ci.yml",
        ".github/workflows/a.yaml",
        ".github/workflows/build.yml",
        "README.md",
    ]);
    match ProjectDetector::start(&paths, None) {
        Detection::TryWorkflows(w) => assert_eq!(
            w,
            strings(&[
                ".github/workflows/build.yml",
                ".github/workflows/ci.yml",
                ".github/workflows/a.yaml",
                ".github/workflows/z.yml",
            ])
        ),
        Detection::Decided(_) => panic!("expected workflows"),
    }
    assert!(ProjectDetector::finish_with_workflows(None, None).is_err());
}

// --- events ----------------------------------------------------------------------------

#[test]
fn events_reach_their_subscribers() {
    let e = Event::build_status(42, 3, BuildStatus::Success);
    assert_eq!(event_kind(&e), "BuildStatus");
    assert_eq!(
        event_subscriptions(&e),
        vec![WsSubscription::Global, WsSubscription::Build(42), WsSubscription::Project(3)]
    );
    let l = Event::log(42, "line".to_string(), 1);
    assert_eq!(event_subscriptions(&l), vec![WsSubscription::Global, WsSubscription::Build(42)]);
    let err = Event::error(None, Some(3), "x".to_string());
    assert_eq!(event_subscriptions(&err), vec![WsSubscription::Global, WsSubscription::Project(3)]);
    assert_eq!(subscription_key(&WsSubscription::Build(42)), "build:42");
    assert_eq!(subscription_key(&WsSubscription::Global), "global");
}

#[test]
fn client_subscriptions() {
    assert_eq!(subscription_of("build", Some(4)), Ok(WsSubscription::Build(4)));
    assert_eq!(subscription_of("project", Some(2)), Ok(WsSubscription::Project(2)));
    assert_eq!(subscription_of("global", None), Ok(WsSubscription::Global));
    assert_eq!(subscription_of("build", None), Err("Missing build_id".to_string()));
    assert_eq!(subscription_of("project", None), Err("Missing project_id".to_string()));
    assert_eq!(subscription_of("logs", Some(1)), Err("Unknown target: logs".to_string()));
}

#[test]
fn deployment_needs_a_deploy_log() {
    let mut b = build();
    b.deploy_log_path = None;
    assert_eq!(
        BlueGreenDeployment::deploy(&project(), &b, "/out/42").err(),
        Some("Deploy log path not set".to_string())
    );
}
