//! Carrying a plan out, against a mock runner and files in memory.

use ma_demo::app::{
    already_exists, is_immutable_error, kube_context, parse_aoss_endpoint, App, Install, Job,
    Progress, SilentProgress,
};
use ma_demo::error::Error;
use ma_demo::model::{Answers, ClientApp, SnapshotStorage, SourceEngine, Target, TargetMode};
use ma_demo::plan::ProvisionPlan;
use ma_demo::runner::{CommandRunner, MockRunner};
use ma_demo::state::{Plan, Step};
use std::collections::HashMap;

const WS: &str = "/ws";

/// What jobs leave behind.
struct World {
    files: HashMap<String, String>,
    saved: Option<Plan>,
}

impl World {
    fn new() -> Self {
        Self {
            files: HashMap::new(),
            saved: None,
        }
    }

    fn has_path(&self, name: &str) -> bool {
        self.files.contains_key(&format!("{WS}/{name}"))
    }

    fn read(&self, name: &str) -> &str {
        &self.files[&format!("{WS}/{name}")]
    }

    fn preflight<R: CommandRunner, P: Progress>(
        &mut self,
        app: &mut App<R, P>,
        answers: &Answers,
    ) -> Result<(), Error> {
        app.preflight(answers)?;
        self.saved = Some(app.state.plan.clone());
        Ok(())
    }

    fn provision<R: CommandRunner, P: Progress>(
        &mut self,
        app: &mut App<R, P>,
        answers: &Answers,
    ) -> Result<ProvisionPlan, Error> {
        let mut p = app.provision(answers);
        loop {
            match app.proceed(&mut p)? {
                Job::Done => return Ok(p.plan),
                job => self.perform(job, &app.state.plan),
            }
        }
    }

    fn install<R: CommandRunner, P: Progress>(
        &mut self,
        app: &mut App<R, P>,
    ) -> Result<Vec<String>, Error> {
        let mut stage = Install::Begin;
        loop {
            match app.install_ma(&mut stage)? {
                Job::Done => return Ok(app.launch_argv()),
                job => self.perform(job, &app.state.plan),
            }
        }
    }

    fn perform(&mut self, job: Job, plan: &Plan) {
        match job {
            Job::MakeDir { .. } => {}
            Job::Write { path, body } => {
                self.files.insert(path, body);
            }
            Job::Save => self.saved = Some(plan.clone()),
            Job::Done => {}
        }
    }
}

fn full_answers() -> Answers {
    let mut a = Answers::new();
    a.target = Some(Target::Local);
    a.source_engine = Some(SourceEngine::Elasticsearch);
    a.source_version = Some("7.10.2".into());
    a.snapshot_storage = Some(SnapshotStorage::LocalStack);
    a.target_mode = Some(TargetMode::Provision);
    a.target_version = Some("3.3.0".into());
    a.clients = vec![ClientApp::Locust, ClientApp::SampleSearchApp];
    a.seed_data = Some(true);
    a
}

/// A mock with all local tools present + docker daemon up.
fn ready_runner() -> MockRunner {
    MockRunner::new()
        .with_command("docker")
        .with_command("kind")
        .with_command("kubectl")
        .with_command("curl")
        .with_command("bash")
        .stub("docker", &["info"], 0, "Server Version: 29")
}

fn app_with(r: MockRunner) -> App<MockRunner, SilentProgress> {
    App::new(r, WS, SilentProgress)
}

#[test]
fn preflight_passes_when_tools_present() {
    let mut app = app_with(ready_runner());
    assert!(app.preflight(&full_answers()).is_ok());
    assert_eq!(app.state.plan.step, Step::PreflightDone);
}

#[test]
fn preflight_fails_when_kind_missing() {
    let r = MockRunner::new()
        .with_command("docker")
        .with_command("kubectl")
        .with_command("curl")
        .stub("docker", &["info"], 0, "ok");
    let mut app = app_with(r);
    let err = app.preflight(&full_answers()).unwrap_err();
    assert!(err.message.contains("kind"));
}

#[test]
fn preflight_fails_when_docker_daemon_down() {
    let r = MockRunner::new()
        .with_command("docker")
        .with_command("kind")
        .with_command("kubectl")
        .with_command("curl")
        .stub("docker", &["info"], 1, "");
    let mut app = app_with(r);
    let err = app.preflight(&full_answers()).unwrap_err();
    assert!(err.message.contains("daemon"));
}

#[test]
fn the_cloud_needs_no_local_tools() {
    let mut a = full_answers();
    a.target = Some(Target::Cloud);
    let mut app = app_with(MockRunner::new());
    assert!(app.preflight(&a).is_ok());
    assert!(app.runner.inner.calls().is_empty());
    assert_eq!(app.state.plan.step, Step::PreflightDone);
}

#[test]
fn provision_local_runs_kind_and_kubectl_in_order() {
    let mut app = app_with(ready_runner());
    app.state.plan.answers = full_answers();
    World::new().provision(&mut app, &full_answers()).unwrap();

    // Source + target clusters created.
    let r = &app.runner.inner;
    assert!(r.any_call_contains("kind create cluster --name ma-demo-source"));
    assert!(r.any_call_contains("kind create cluster --name ma-demo-target"));
    // Manifests applied to the right contexts.
    assert!(r.any_call_contains("kubectl --context kind-ma-demo-source apply"));
    assert!(r.any_call_contains("kubectl --context kind-ma-demo-target apply"));
    // The recorded step advanced to at least TargetUp.
    assert!(app.state.plan.step.index() >= Step::TargetUp.index());
}

#[test]
fn provision_writes_manifests_to_workspace() {
    let mut app = app_with(ready_runner());
    app.state.plan.answers = full_answers();
    let mut world = World::new();
    world.provision(&mut app, &full_answers()).unwrap();
    // Source manifest written with the ES image.
    let src = world.read("source-source.yaml");
    assert!(src.contains("elasticsearch:7.10.2"));
    // KIND config written.
    assert!(world.has_path("kind-ma-demo-source.yaml"));
}

#[test]
fn kind_already_exists_is_not_fatal() {
    let r = ready_runner().stub_stderr(
        "kind",
        &["create", "cluster"],
        1,
        "ERROR: node(s) already exist for a cluster with the name \"ma-demo-source\"",
    );
    let mut app = app_with(r);
    app.state.plan.answers = full_answers();
    // Should not error despite the kind "already exists" stderr.
    assert!(World::new().provision(&mut app, &full_answers()).is_ok());
}

#[test]
fn another_kind_failure_is_fatal() {
    let r = ready_runner().stub_stderr("kind", &["create", "cluster"], 1, " no space left \n");
    let mut app = app_with(r);
    let err = World::new()
        .provision(&mut app, &full_answers())
        .unwrap_err();
    assert_eq!(err.code, 1);
    assert!(err.message.ends_with("no space left"));
    assert_eq!(app.runner.inner.calls_to("kubectl").len(), 0);
}

#[test]
fn kubectl_apply_failure_is_fatal() {
    let r = ready_runner().stub_stderr("kubectl", &["apply"], 1, "connection refused");
    let mut app = app_with(r);
    app.state.plan.answers = full_answers();
    let err = World::new()
        .provision(&mut app, &full_answers())
        .unwrap_err();
    assert!(err.message.contains("kubectl apply"));
}

#[test]
fn immutable_apply_error_recovers_via_delete_then_retry() {
    // The FIRST apply hits an immutable-field error (the Job re-run case);
    // the app should delete and re-apply rather than hard-fail. The stub fires
    // once, so the retry apply falls through to the default-0 reply (success).
    // Every later apply also succeeds by default.
    let r = ready_runner().stub_stderr_once(
        "kubectl",
        &["apply"],
        1,
        "The Job \"data-seed\" is invalid: spec.template: field is immutable",
        1,
    );
    let mut app = app_with(r);
    app.state.plan.answers = full_answers();
    // Provision should NOT error — the immutable apply is recovered.
    assert!(World::new().provision(&mut app, &full_answers()).is_ok());
    // A delete was issued as part of the recovery.
    assert!(app.runner.inner.any_call_contains("delete -f"));
}

#[test]
fn is_immutable_error_classifies_job_template_rejection() {
    assert!(is_immutable_error(
        "spec.template: Invalid value: ...: field is immutable"
    ));
    assert!(!is_immutable_error("connection refused"));
}

#[test]
fn other_rejections_are_classified_too() {
    assert!(is_immutable_error("the field may not be changed"));
    assert!(is_immutable_error(
        "updates to statefulset spec are forbidden"
    ));
    assert!(!is_immutable_error("updates to statefulset spec"));
    assert!(already_exists("node(s) already exist for a cluster"));
    assert!(!already_exists("no such thing"));
}

#[test]
fn cloud_provision_writes_terraform_no_kind() {
    let mut a = full_answers();
    a.target = Some(Target::Cloud);
    let mut app = app_with(ready_runner());
    app.state.plan.answers = a.clone();
    let mut world = World::new();
    world.provision(&mut app, &a).unwrap();
    // No kind calls on the cloud path.
    assert!(!app.runner.inner.any_call_contains("kind create"));
    // Terraform files written.
    assert!(world.has_path("terraform/providers.tf"));
    assert!(world.has_path("terraform/source.tf"));
    assert!(world.has_path("terraform/target.tf"));
}

#[test]
fn install_ma_curls_fork_release_and_returns_launch_argv() {
    let mut app = app_with(ready_runner());
    let argv = World::new().install(&mut app).unwrap();
    assert!(app
        .runner
        .inner
        .any_call_contains("AndreKurait/opensearch-migrations"));
    assert_eq!(argv.len(), 1);
    assert!(argv[0].ends_with("/migration-assistant"));
    assert_eq!(app.state.plan.step, Step::Ready);
}

#[test]
fn install_ma_failure_is_fatal() {
    let r = ready_runner().stub_stderr("bash", &["-c"], 1, "download failed");
    let mut app = app_with(r);
    let err = World::new().install(&mut app).unwrap_err();
    assert!(err.message.contains("install failed"));
}

#[test]
fn kube_context_prefixes_with_kind() {
    assert_eq!(kube_context("ma-demo-source"), "kind-ma-demo-source");
}

#[test]
fn an_endpoint_is_there_once_the_collection_is_active() {
    let active = r#"{"collectionDetails":[{"status":"ACTIVE","collectionEndpoint":"https://x","id":"x"}]}"#;
    assert_eq!(parse_aoss_endpoint(active).as_deref(), Some("https://x"));
    let creating =
        r#"{"collectionDetails":[{"status":"CREATING","collectionEndpoint":"https://x"}]}"#;
    assert_eq!(parse_aoss_endpoint(creating), None);
    assert_eq!(parse_aoss_endpoint("{}"), None);
}

// --- whole pipelines ---

/// A progress sink that records every step/info line for assertions.
struct RecordingProgress {
    lines: Vec<String>,
}
impl RecordingProgress {
    fn new() -> Self {
        Self { lines: Vec::new() }
    }
    fn lines(&self) -> Vec<String> {
        self.lines.clone()
    }
}
impl Progress for RecordingProgress {
    fn step(&mut self, msg: &str) {
        self.lines.push(format!("step:{msg}"));
    }
    fn info(&mut self, msg: &str) {
        self.lines.push(format!("info:{msg}"));
    }
}

fn full_local() -> Answers {
    let mut a = full_answers();
    a.source_plugins = vec!["repository-s3".into()];
    a
}

#[test]
fn full_local_pipeline_runs_every_stage_in_order() {
    let answers = full_local();
    let mut world = World::new();
    let mut app = App::new(ready_runner(), WS, RecordingProgress::new());
    app.state.plan.answers = answers.clone();

    world.preflight(&mut app, &answers).unwrap();
    let plan = world.provision(&mut app, &answers).unwrap();
    let argv = world.install(&mut app).unwrap();
    let r = &app.runner.inner;

    // The recorded external commands, in order.
    let kind_calls = r.calls_to("kind");
    assert_eq!(kind_calls.len(), 2, "one kind create per cluster");
    assert!(kind_calls[0].joined().contains("ma-demo-source"));
    assert!(kind_calls[1].joined().contains("ma-demo-target"));

    // Source manifests applied to the source context, target to the target.
    assert!(r.any_call_contains("kubectl --context kind-ma-demo-source apply"));
    assert!(r.any_call_contains("kubectl --context kind-ma-demo-target apply"));

    // Readiness waits issued for both clusters.
    assert!(r.any_call_contains("--context kind-ma-demo-source wait"));
    assert!(r.any_call_contains("--context kind-ma-demo-target wait"));

    // MA installed from the fork release; launch argv points at the workspace bin.
    assert!(r.any_call_contains("AndreKurait/opensearch-migrations"));
    assert!(argv[0].ends_with("/migration-assistant"));

    // State advanced all the way to Ready.
    assert_eq!(app.state.plan.step, Step::Ready);

    // The endpoints the plan resolved.
    assert_eq!(plan.source_host, "source-elasticsearch");
    assert_eq!(plan.target_host.as_deref(), Some("target-opensearch"));

    // Progress narrated the key steps.
    let lines = app.progress.inner.lines();
    assert!(lines.iter().any(|l| l.contains("Preflight")));
    assert!(lines.iter().any(|l| l.contains("ma-demo-source")));
    assert!(lines
        .iter()
        .any(|l| l.contains("Installing Migration Assistant")));
}

#[test]
fn solr_source_skips_target_and_localstack_when_minimal() {
    let mut a = Answers::new();
    a.target = Some(Target::Local);
    a.source_engine = Some(SourceEngine::Solr);
    a.source_version = Some("9.7.0".into());
    a.snapshot_storage = Some(SnapshotStorage::NoStorage);
    a.target_mode = Some(TargetMode::LeaveToMa);
    a.clients = vec![];
    a.seed_data = Some(false);

    let mut world = World::new();
    let mut app = app_with(ready_runner());
    app.state.plan.answers = a.clone();
    world.preflight(&mut app, &a).unwrap();
    let plan = world.provision(&mut app, &a).unwrap();
    let r = &app.runner.inner;

    // Only the source cluster is created.
    assert_eq!(r.calls_to("kind").len(), 1);
    assert!(r.any_call_contains("ma-demo-source"));
    assert!(!r.any_call_contains("ma-demo-target"));
    // No localstack / data-seed / client manifests written.
    assert!(!world.has_path("source-localstack.yaml"));
    assert!(!world.has_path("source-data-seed.yaml"));
    assert!(!world.has_path("source-locust.yaml"));
    // Solr source manifest is present with the right image.
    let src = world.read("source-source.yaml");
    assert!(src.contains("solr:9.7.0"));
    assert!(plan.target_host.is_none());
}

#[test]
fn state_persists_across_a_reload() {
    let answers = full_local();
    let mut world = World::new();
    {
        let mut app = app_with(ready_runner());
        app.state.plan.answers = answers.clone();
        world.preflight(&mut app, &answers).unwrap();
        world.provision(&mut app, &answers).unwrap();
    }
    // What was saved last holds the plan + step.
    let reloaded = world.saved.unwrap();
    assert_eq!(reloaded.answers.source_version.as_deref(), Some("7.10.2"));
    assert!(reloaded.step.index() >= Step::TargetUp.index());
}

#[test]
fn every_command_uses_a_file_that_was_written() {
    let mut world = World::new();
    let mut app = app_with(ready_runner());
    world.provision(&mut app, &full_local()).unwrap();
    for call in app.runner.inner.calls() {
        let line = call.joined();
        if call.program == "kind" {
            let path = line.split("--config ").nth(1).unwrap();
            assert!(world.files.contains_key(path.split(' ').next().unwrap()));
        }
        if line.contains(" apply -f ") {
            let path = line.split(" apply -f ").nth(1).unwrap();
            assert!(world.files.contains_key(path));
        }
    }
}

/// Progress that keeps what it was told.
struct Kept(Vec<String>);

impl Progress for Kept {
    fn step(&mut self, msg: &str) {
        self.0.push(format!("step {msg}"));
    }

    fn info(&mut self, msg: &str) {
        self.0.push(format!("info {msg}"));
    }
}

#[test]
fn the_checks_say_whether_terraform_is_applied() {
    let mut a = full_answers();
    a.target = Some(Target::Cloud);
    for (apply, said) in [
        (true, "info cloud target: terraform will be emitted and applied"),
        (
            false,
            "info cloud target: terraform will be emitted for you to apply",
        ),
    ] {
        let mut app = App::new(MockRunner::new(), "/ws", Kept(Vec::new()));
        app.apply = apply;
        assert!(app.preflight(&a).is_ok());
        assert_eq!(app.progress.inner.0, vec!["step Preflight checks", said]);
        assert_eq!(app.provision(&a).apply, apply);
    }
}
