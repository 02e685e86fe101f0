//! Whole sessions: exit codes, what is printed, and what is left behind.

use ma_demo::app::{Job, SilentProgress};
use ma_demo::cli::{
    self, command, flags, help_text, parse_flags, print_endpoints, print_plan, split_subcommand,
    Command, Flags, Setup, Wizardish, VERSION,
};
use ma_demo::error::Error;
use ma_demo::model::{Answers, ClientApp, MaHandoff, SourceEngine, Target, TargetMode};
use ma_demo::plan;
use ma_demo::runner::MockRunner;
use ma_demo::session::{Effect, Report, Session, Stage};
use ma_demo::state::{Plan, Step};
use ma_demo::tui::{Outcome, ReviewContext, ReviewOutcome};
use ma_demo::ui::Note;
use ma_demo::wizard::{Answer, Question, QuestionId, ReviewRow};
use std::collections::{HashMap, HashSet};

const WS: &str = "/tmp/ws";

/// What sessions leave behind.
struct World {
    dirs: HashSet<String>,
    files: HashMap<String, String>,
    saved: HashMap<String, Plan>,
    printed: Vec<Note>,
    opened: usize,
    paused: usize,
    /// How reviews end, the next one first; those that follow are confirmed.
    outcomes: Vec<ReviewOutcome>,
    reviewed: Vec<(Vec<ReviewRow>, ReviewContext)>,
}

impl World {
    fn new() -> Self {
        Self {
            dirs: HashSet::new(),
            files: HashMap::new(),
            saved: HashMap::new(),
            printed: Vec::new(),
            opened: 0,
            paused: 0,
            outcomes: Vec::new(),
            reviewed: Vec::new(),
        }
    }

    fn has_path(&self, path: &str) -> bool {
        self.dirs.contains(path) || self.files.contains_key(path) || self.saved.contains_key(path)
    }

    fn has_plan(&self) -> bool {
        self.saved.contains_key("/tmp/ws/plan.json")
    }

    fn run<W: Wizardish>(
        &mut self,
        session: &mut Session<MockRunner, SilentProgress, W>,
    ) -> i32 {
        let mut report = Report::Done;
        loop {
            report = match session.step(report) {
                Effect::Exit(code) => return code,
                Effect::Print(notes) => {
                    self.printed.extend(notes);
                    Report::Done
                }
                Effect::Load { path } => Report::Loaded(self.saved.get(&path).cloned()),
                Effect::Save | Effect::Do(Job::Save) => {
                    let state = &session.app.state;
                    self.dirs.insert(state.dir().to_string());
                    self.saved.insert(state.plan_path(), state.plan.clone());
                    Report::Done
                }
                Effect::Do(Job::Write { path, body }) => {
                    self.files.insert(path, body);
                    Report::Done
                }
                Effect::Do(Job::MakeDir { path }) => {
                    self.dirs.insert(path);
                    Report::Done
                }
                Effect::Do(Job::Done) => Report::Done,
                Effect::Look { path } => Report::Exists(self.has_path(&path)),
                Effect::Remove { path } => {
                    let prefix = format!("{path}/");
                    self.dirs.retain(|p| p != &path && !p.starts_with(&prefix));
                    self.files.retain(|p, _| !p.starts_with(&prefix));
                    self.saved.retain(|p, _| !p.starts_with(&prefix));
                    Report::Done
                }
                Effect::Review { rows, context } => {
                    self.reviewed.push((rows, context));
                    if self.outcomes.is_empty() {
                        Report::Reviewed(ReviewOutcome::Confirm)
                    } else {
                        Report::Reviewed(self.outcomes.remove(0))
                    }
                }
                Effect::Dashboard => {
                    self.opened += 1;
                    Report::Done
                }
                Effect::Pause => {
                    self.paused += 1;
                    Report::Done
                }
                Effect::Again => Report::Done,
            };
        }
    }
}

/// A scripted wizard: returns canned outcomes per question id.
struct Script {
    answers: HashMap<QuestionId, Outcome>,
    asked: Vec<QuestionId>,
}

impl Script {
    fn new() -> Self {
        Self {
            answers: HashMap::new(),
            asked: Vec::new(),
        }
    }

    fn with(mut self, id: QuestionId, out: Outcome) -> Self {
        self.answers.insert(id, out);
        self
    }

    fn full_local() -> Self {
        Self::new()
            .with(QuestionId::Target, ans("local"))
            .with(QuestionId::SourceEngine, ans("elasticsearch"))
            .with(QuestionId::SourceVersion, ans("7.10.2"))
            .with(QuestionId::SourcePlugins, many(&["repository-s3"]))
            .with(QuestionId::SnapshotStorage, ans("localstack"))
            .with(QuestionId::TargetMode, ans("provision"))
            .with(QuestionId::TargetKind, ans("kind-opensearch"))
            .with(QuestionId::TargetVersion, ans("3.3.0"))
            .with(QuestionId::Clients, many(&["locust"]))
            .with(QuestionId::SeedData, Outcome::Answered(Answer::Bool(true)))
            // Local run → also answer the MA-handoff choice (install the CLI here).
            .with(QuestionId::MaHandoff, ans("install-cli"))
    }
}

impl Script {
    /// A local environment whose target is a serverless collection.
    fn serverless() -> Self {
        Self::new()
            .with(QuestionId::Target, ans("local"))
            .with(QuestionId::SourceEngine, ans("elasticsearch"))
            .with(QuestionId::SourceVersion, ans("7.10.2"))
            .with(QuestionId::SourcePlugins, many(&[]))
            .with(QuestionId::SnapshotStorage, ans("none"))
            .with(QuestionId::TargetMode, ans("provision"))
            .with(QuestionId::TargetKind, ans("aoss-nextgen"))
            .with(QuestionId::Clients, many(&[]))
            .with(QuestionId::SeedData, Outcome::Answered(Answer::Bool(false)))
            // Local run → the wizard asks the handoff; pick the CLI to stay with the target.
            .with(QuestionId::MaHandoff, ans("install-cli"))
    }
}

fn ans(id: &str) -> Outcome {
    Outcome::Answered(Answer::Choice(id.into()))
}

fn many(ids: &[&str]) -> Outcome {
    Outcome::Answered(Answer::Choices(ids.iter().map(|s| s.to_string()).collect()))
}

impl Wizardish for Script {
    fn ask(&mut self, question: &Question, _preselect: &[String]) -> Result<Outcome, Error> {
        self.asked.push(question.id);
        match self.answers.get(&question.id) {
            Some(o) => Ok(o.clone()),
            None => Err(Error::die(&format!(
                "no scripted answer for {:?}",
                question.id
            ))),
        }
    }
}

fn ready_runner() -> MockRunner {
    MockRunner::new()
        .with_command("docker")
        .with_command("kind")
        .with_command("kubectl")
        .with_command("curl")
        .with_command("bash")
        .stub("docker", &["info"], 0, "ok")
}

fn args(v: &[&str]) -> Vec<String> {
    v.iter().map(|s| s.to_string()).collect()
}

fn setup() -> Setup {
    Setup {
        version: VERSION.to_string(),
        workspace: "/cwd/migration-demo-workspace".to_string(),
        chart: Some("/charts/migrationAssistantWithArgo".to_string()),
        no_update_check: false,
    }
}

fn start(v: &[&str], r: MockRunner, w: Script) -> Session<MockRunner, SilentProgress, Script> {
    cli::dispatch(&args(v), r, SilentProgress, w, setup())
}

/// Runs a whole session in `world`; its exit code, and the session as it was left.
fn dispatch(
    world: &mut World,
    v: &[&str],
    r: MockRunner,
    w: Script,
) -> (i32, Session<MockRunner, SilentProgress, Script>) {
    let mut session = start(v, r, w);
    let code = world.run(&mut session);
    (code, session)
}

fn exit_code(v: &[&str]) -> i32 {
    dispatch(&mut World::new(), v, MockRunner::new(), Script::new()).0
}

#[test]
fn cli_unknown_command_exits_64() {
    assert_eq!(exit_code(&["notacommand"]), 64);
}

#[test]
fn an_unknown_command_touches_nothing() {
    let mut world = World::new();
    let (code, s) = dispatch(&mut world, &["notacommand"], MockRunner::new(), Script::new());
    assert_eq!(code, 64);
    assert!(s.app.runner.inner.calls().is_empty());
    assert!(s.wiz.inner.asked.is_empty());
    assert!(world.dirs.is_empty() && world.files.is_empty() && world.saved.is_empty());
}

#[test]
fn a_dry_run_runs_no_command() {
    for v in [["plan", "--workspace", WS], ["--dry-run", "--workspace", WS]] {
        let mut world = World::new();
        let (code, s) = dispatch(&mut world, &v, ready_runner(), Script::full_local());
        assert_eq!(code, 0);
        assert!(s.app.runner.inner.calls().is_empty());
        assert!(world.files.is_empty() && world.reviewed.is_empty());
    }
}

#[test]
fn an_unconfirmed_run_runs_only_what_the_review_tells_of() {
    let mut world = World::new();
    world.outcomes = vec![ReviewOutcome::Cancel];
    let (code, s) = dispatch(
        &mut world,
        &["--workspace", WS],
        ready_runner(),
        Script::full_local(),
    );
    assert_eq!(code, 1);
    let calls = s.app.runner.inner.calls();
    assert_eq!(calls.len(), 1);
    assert_eq!(calls[0].program, "curl");
}

#[test]
fn cli_dispatch_unknown_command_exits_64() {
    assert_eq!(exit_code(&["bogus"]), 64);
}

#[test]
fn version_and_help_exit_zero() {
    assert_eq!(exit_code(&["version"]), 0);
    assert_eq!(exit_code(&["help"]), 0);
}

#[test]
fn version_exits_zero_and_is_semverish() {
    assert_eq!(exit_code(&["version"]), 0);
    // The compiled-in version is x.y.z(-suffix).
    assert!(cli::VERSION.split('.').count() >= 3);
}

#[test]
fn help_text_mentions_fork_and_subcommands() {
    let h = help_text(VERSION);
    assert!(h.contains("AndreKurait/opensearch-migrations"));
    assert!(h.contains("ma-demo plan"));
    assert!(h.contains("--non-interactive"));
}

#[test]
fn help_exits_zero_and_describes_the_harness() {
    assert_eq!(exit_code(&["help"]), 0);
    let h = cli::help_text(VERSION);
    assert!(h.contains("OpenSearch Migration Assistant demo"));
    assert!(h.contains("AndreKurait/opensearch-migrations"));
}

#[test]
fn parse_flags_reads_all_forms() {
    let f = parse_flags(&args(&["-y", "--workspace", "/tmp/ws", "--dry-run"]));
    assert!(f.non_interactive);
    assert!(f.dry_run);
    assert_eq!(f.workspace.as_deref(), Some("/tmp/ws"));

    let f2 = parse_flags(&args(&["--workspace=/x", "--plan"]));
    assert_eq!(f2.workspace.as_deref(), Some("/x"));
    assert!(f2.dry_run);
}

#[test]
fn non_interactive_dry_run_fills_defaults_and_provisions_nothing() {
    let mut world = World::new();
    let (code, s) = dispatch(
        &mut world,
        &["plan", "-y", "--workspace", WS],
        ready_runner(),
        Script::new(),
    );
    assert_eq!(code, 0);
    // Plan was saved.
    assert!(world.has_plan());
    // No kind clusters created (dry run / plan).
    assert!(!s.app.runner.inner.any_call_contains("kind create"));
}

#[test]
fn interactive_wizard_walks_questions_then_provisions() {
    let w = Script::new()
        .with(QuestionId::Target, ans("local"))
        .with(QuestionId::SourceEngine, ans("elasticsearch"))
        .with(QuestionId::SourceVersion, ans("7.10.2"))
        .with(QuestionId::SourcePlugins, many(&["repository-s3"]))
        .with(QuestionId::SnapshotStorage, ans("localstack"))
        .with(QuestionId::TargetMode, ans("leave-to-ma"))
        .with(QuestionId::Clients, many(&["locust"]))
        .with(QuestionId::SeedData, Outcome::Answered(Answer::Bool(true)))
        .with(QuestionId::MaHandoff, ans("install-cli"));
    // `plan` so we stop before provisioning Docker, but after walking the wizard.
    let (code, s) = dispatch(
        &mut World::new(),
        &["plan", "--workspace", WS],
        ready_runner(),
        w,
    );
    assert_eq!(code, 0);
    // The wizard skipped TargetVersion (leave-to-ma).
    let asked = &s.wiz.inner.asked;
    assert!(asked.contains(&QuestionId::Target));
    assert!(asked.contains(&QuestionId::SeedData));
    assert!(!asked.contains(&QuestionId::TargetVersion));
}

#[test]
fn cancelling_wizard_aborts_with_error() {
    let w = Script::new().with(QuestionId::Target, Outcome::Cancelled);
    let (code, s) = dispatch(
        &mut World::new(),
        &["--workspace", WS],
        ready_runner(),
        w,
    );
    assert_eq!(code, 1);
    assert!(!s.app.runner.inner.any_call_contains("kind create"));
}

#[test]
fn clear_removes_workspace() {
    let mut world = World::new();
    world.dirs.insert(WS.to_string());
    world
        .files
        .insert("/tmp/ws/plan.json".to_string(), "{}".to_string());
    let (code, _) = dispatch(
        &mut world,
        &["clear", "--workspace", WS],
        MockRunner::new(),
        Script::new(),
    );
    assert_eq!(code, 0);
    assert!(!world.has_path(WS));
    assert!(world.files.is_empty());
}

#[test]
fn destroy_deletes_both_clusters_and_workspace() {
    let mut world = World::new();
    world.dirs.insert(WS.to_string());
    world
        .files
        .insert("/tmp/ws/plan.json".to_string(), "{}".to_string());
    let (code, s) = dispatch(
        &mut world,
        &["destroy", "--workspace", WS],
        MockRunner::new().with_command("kind"),
        Script::new(),
    );
    assert_eq!(code, 0);
    // Both clusters deleted, workspace gone.
    let r = &s.app.runner.inner;
    assert!(r.any_call_contains("kind delete cluster --name ma-demo-source"));
    assert!(r.any_call_contains("kind delete cluster --name ma-demo-target"));
    assert!(!world.has_path(WS));
}

#[test]
fn destroy_without_kind_skips_cluster_deletion_gracefully() {
    let mut world = World::new();
    world.dirs.insert(WS.to_string());
    // no kind on PATH
    let (code, s) = dispatch(
        &mut world,
        &["destroy", "--workspace", WS],
        MockRunner::new(),
        Script::new(),
    );
    assert_eq!(code, 0);
    assert!(!s.app.runner.inner.any_call_contains("kind delete"));
    assert!(!world.has_path(WS));
}

#[test]
fn full_non_interactive_run_provisions_and_launches() {
    let (code, s) = dispatch(
        &mut World::new(),
        &["-y", "--workspace", WS],
        ready_runner(),
        Script::new(),
    );
    assert_eq!(code, 0);
    // Provisioned: kind clusters + MA install invoked.
    let r = &s.app.runner.inner;
    assert!(r.any_call_contains("kind create cluster --name ma-demo-source"));
    assert!(r.any_call_contains("AndreKurait/opensearch-migrations"));
    // Did NOT exec the MA binary (non-interactive guard).
    assert!(!r.any_call_contains("/migration-assistant"));
}

#[test]
fn plan_subcommand_collects_but_provisions_nothing() {
    let mut world = World::new();
    let (code, s) = dispatch(
        &mut world,
        &["plan", "--workspace", WS],
        ready_runner(),
        Script::full_local(),
    );
    assert_eq!(code, 0);
    // Plan saved, but no kind clusters created.
    assert!(world.has_plan());
    assert!(!s.app.runner.inner.any_call_contains("kind create"));
}

#[test]
fn full_run_provisions_and_installs_ma() {
    let (code, s) = dispatch(
        &mut World::new(),
        &["run", "--no-dashboard", "--workspace", WS],
        ready_runner(),
        Script::full_local(),
    );
    assert_eq!(code, 0);
    let r = &s.app.runner.inner;
    assert!(r.any_call_contains("kind create cluster --name ma-demo-source"));
    assert!(r.any_call_contains("kind create cluster --name ma-demo-target"));
    assert!(r.any_call_contains("AndreKurait/opensearch-migrations"));
}

#[test]
fn aoss_nextgen_target_provisions_via_aws_not_a_second_cluster() {
    let r = ready_runner()
        .with_command("aws")
        .stub(
            "aws",
            &["sts", "get-caller-identity"],
            0,
            "arn:aws:sts::874041194807:assumed-role/IibsAdminAccess-DO-NOT-DELETE/me",
        )
        .stub(
            "aws",
            &["batch-get-collection"],
            0,
            r#"{"collectionDetails":[{"status":"ACTIVE","collectionEndpoint":"https://xyz.aoss.us-east-1.on.aws","id":"xyz"}]}"#,
        );
    let (code, s) = dispatch(
        &mut World::new(),
        &["run", "--no-dashboard", "--workspace", WS],
        r,
        Script::serverless(),
    );
    assert_eq!(code, 0);
    let r = &s.app.runner.inner;
    // Source KIND cluster yes; NO target KIND cluster.
    assert!(r.any_call_contains("kind create cluster --name ma-demo-source"));
    assert!(!r.any_call_contains("kind create cluster --name ma-demo-target"));
    // AOSS NextGen collection provisioned via the aws CLI.
    assert!(r.any_call_contains("create-collection-group"));
    assert!(r.any_call_contains("--generation NEXTGEN"));
    assert!(r.any_call_contains("create-collection"));
}

#[test]
fn local_helm_handoff_deploys_ma_to_kind_and_execs_console() {
    // Non-interactive override → deploy MA locally via helm.
    let (code, s) = dispatch(
        &mut World::new(),
        &[
            "-y",
            "--ma-handoff",
            "deploy-local-helm",
            "--workspace",
            WS,
        ],
        ready_runner().with_command("helm"),
        Script::full_local(),
    );
    assert_eq!(code, 0);
    let r = &s.app.runner.inner;
    // A dedicated MA KIND cluster + helm install of the chart; no CLI download.
    assert!(r.any_call_contains("kind create cluster --name ma-demo-ma"));
    assert!(r.any_call_contains("upgrade --install --create-namespace"));
    assert!(r.any_call_contains("opensearchstaging/opensearch-migrations-console"));
    assert!(!r.any_call_contains("AndreKurait/opensearch-migrations"));
}

#[test]
fn status_without_a_saved_plan_errors() {
    // No saved plan in this fresh workspace → status should error cleanly
    // rather than open a dashboard with nothing to show.
    let mut world = World::new();
    let (code, _) = dispatch(
        &mut world,
        &["status", "--workspace", WS],
        ready_runner(),
        Script::new(),
    );
    assert_eq!(code, 1);
    assert_eq!(world.opened, 0);
}

#[test]
fn preflight_failure_aborts_before_provisioning() {
    // kind missing → preflight fails.
    let r = MockRunner::new()
        .with_command("docker")
        .with_command("kubectl")
        .with_command("curl")
        .stub("docker", &["info"], 0, "ok");
    let (code, s) = dispatch(
        &mut World::new(),
        &["run", "--workspace", WS],
        r,
        Script::full_local(),
    );
    assert_eq!(code, 1);
    assert!(!s.app.runner.inner.any_call_contains("kind create"));
}

#[test]
fn cancel_during_wizard_exits_one() {
    let w = Script::new().with(QuestionId::Target, Outcome::Cancelled);
    let (code, s) = dispatch(
        &mut World::new(),
        &["--workspace", WS],
        ready_runner(),
        w,
    );
    assert_eq!(code, 1);
    assert!(!s.app.runner.inner.any_call_contains("kind create"));
}

#[test]
fn resume_reuses_saved_answers() {
    let mut world = World::new();
    // First pass: plan only (saves answers).
    dispatch(
        &mut world,
        &["plan", "--workspace", WS],
        ready_runner(),
        Script::full_local(),
    );
    // Second pass with an EMPTY script: if resume works, the wizard never asks
    // (all answers are already saved) and the plan run succeeds.
    let (code, s) = dispatch(
        &mut world,
        &["plan", "--workspace", WS],
        ready_runner(),
        Script::new(),
    );
    assert_eq!(code, 0, "resume should not need to ask any question again");
    assert!(s.wiz.inner.asked.is_empty());
}

// --- the command line ---

#[test]
fn the_first_argument_says_what_to_do() {
    for (v, c) in [
        (vec![], Command::Run),
        (vec!["run"], Command::Run),
        (vec!["-y"], Command::Run),
        (vec!["--workspace", "x"], Command::Run),
        (vec!["plan"], Command::Plan),
        (vec!["clear"], Command::Clear),
        (vec!["destroy"], Command::Destroy),
        (vec!["status"], Command::Status),
        (vec!["-V"], Command::Version),
        (vec!["--version"], Command::Version),
        (vec!["-h"], Command::Help),
        (vec!["--help"], Command::Help),
        (vec!["plans"], Command::Unknown),
        (vec![""], Command::Unknown),
    ] {
        assert_eq!(command(&args(&v)), c, "{v:?}");
    }
}

#[test]
fn a_leading_flag_counts_as_a_flag() {
    assert!(flags(&args(&["-y"])).non_interactive);
    assert!(flags(&args(&["run", "-y"])).non_interactive);
    assert_eq!(flags(&args(&["plan"])), Flags::default());
    assert_eq!(flags(&args(&[])), Flags::default());
    assert_eq!(
        split_subcommand(&args(&["plan", "-y"])),
        (Some("plan".to_string()), args(&["-y"]))
    );
    assert_eq!(split_subcommand(&args(&[])), (None, vec![]));
}

#[test]
fn the_last_workspace_wins_and_the_order_of_switches_does_not_matter() {
    assert_eq!(
        parse_flags(&args(&["--workspace", "a", "--workspace=b"])).workspace,
        Some("b".to_string())
    );
    assert_eq!(parse_flags(&args(&["--workspace"])).workspace, None);
    assert_eq!(
        parse_flags(&args(&["--workspace", "-y"])),
        Flags {
            workspace: Some("-y".to_string()),
            ..Flags::default()
        }
    );
    assert_eq!(
        parse_flags(&args(&["-y", "--plan"])),
        parse_flags(&args(&["--plan", "--yes"]))
    );
}

#[test]
fn the_workspace_falls_back_to_the_default() {
    let s = start(&["plan"], MockRunner::new(), Script::new());
    assert_eq!(s.app.state.dir(), "/cwd/migration-demo-workspace");
    assert!(s.dry_run);
    assert_eq!(s.stage, Stage::Greet);
}

// --- what is printed ---

#[test]
fn the_whole_help() {
    assert_eq!(
        help_text("1.2.3"),
        r#"ma-demo — OpenSearch Migration Assistant demo environment setup

Usage:
  ma-demo [flags]            Run the wizard, provision, launch MA (default)
  ma-demo run [flags]        Same as default
  ma-demo plan [flags]       Collect answers + print the plan; provision nothing
  ma-demo clear [flags]      Wipe the local workspace (no Docker/cloud changes)
  ma-demo destroy [flags]    Delete the local KIND clusters + wipe the workspace
  ma-demo version            Print version
  ma-demo help               This help

Flags:
  -y, --non-interactive      Accept defaults; for CI / unattended runs.
  --dry-run, --plan          Stop after printing the plan.
  --workspace DIR            Workspace dir (default ./migration-demo-workspace).

This harness stands up a SOURCE search cluster (Elasticsearch / OpenSearch /
Solr), optional snapshot storage + target OpenSearch, and client apps, locally
via KIND or as Terraform for AWS — then installs and launches the Migration
Assistant CLI (from AndreKurait/opensearch-migrations 3.3.1).

Version: 1.2.3
"#
    );
}

#[test]
fn a_plan_is_printed_line_by_line() {
    let mut a = Answers::new();
    a.target = Some(Target::Local);
    a.source_engine = Some(SourceEngine::Solr);
    a.source_plugins = vec!["dih".into(), "schema-api".into()];
    a.target_mode = Some(TargetMode::LeaveToMa);
    a.clients = vec![ClientApp::Locust];
    a.seed_data = Some(true);
    let lines = print_plan(&a);
    assert_eq!(lines[0], Note::Info(format!("  {}", a.summary())));
    assert!(lines.contains(&Note::Dim("  source          Solr —".to_string())));
    assert!(lines.contains(&Note::Dim(
        "  plugins         dih, schema-api".to_string()
    )));
    assert!(lines.contains(&Note::Dim(format!(
        "  target cluster  {} ",
        TargetMode::LeaveToMa.label()
    ))));
    assert_eq!(
        lines.last(),
        Some(&Note::Dim("  seed data       yes".to_string()))
    );
    assert_eq!(
        print_plan(&Answers::new()).last(),
        Some(&Note::Dim("  seed data       no".to_string()))
    );
}

#[test]
fn endpoints_are_printed_for_what_there_is() {
    let mut a = Answers::new();
    a.target = Some(Target::Local);
    a.target_mode = Some(TargetMode::Provision);
    let p = plan::build(&a);
    assert_eq!(
        print_endpoints(&p, &a),
        vec![
            Note::Step("Provisioned endpoints".to_string()),
            Note::Dim("  source   http://source-elasticsearch:9200  (in-cluster) / http://localhost:19200 (host)".to_string()),
            Note::Dim("  target   http://target-opensearch:9200  (in-cluster) / http://localhost:29200 (host)".to_string()),
        ]
    );
    a.target = Some(Target::Cloud);
    let p = plan::build(&a);
    assert_eq!(
        print_endpoints(&p, &a).last(),
        Some(&Note::Dim(
            "  (cloud) see terraform/ outputs after `terraform apply`".to_string()
        ))
    );
}

#[test]
fn an_unknown_command_prints_the_help_and_the_error() {
    let mut world = World::new();
    dispatch(&mut world, &["bogus"], MockRunner::new(), Script::new());
    assert_eq!(
        world.printed,
        vec![
            Note::Raw(help_text(VERSION)),
            Note::Failure("unknown command".to_string()),
        ]
    );
}

#[test]
fn a_run_begins_with_its_version_and_workspace() {
    let mut world = World::new();
    dispatch(
        &mut world,
        &["plan", "-y", "--workspace", WS],
        ready_runner(),
        Script::new(),
    );
    assert_eq!(
        world.printed[0],
        Note::Banner("Migration Assistant — Demo Environment Setup".to_string())
    );
    assert_eq!(
        world.printed[1],
        Note::Dim("  version=0.1.0-dev  workspace=/tmp/ws".to_string())
    );
    assert_eq!(world.printed[2], Note::Step("Plan".to_string()));
    assert_eq!(
        world.printed.last(),
        Some(&Note::Success("dry run — no resources created".to_string()))
    );
}

#[test]
fn a_cluster_that_cannot_be_deleted_is_a_warning() {
    let mut world = World::new();
    let r = MockRunner::new().with_command("kind").stub_stderr(
        "kind",
        &["ma-demo-target"],
        1,
        " locked \n",
    );
    let (code, _) = dispatch(&mut world, &["destroy", "--workspace", WS], r, Script::new());
    assert_eq!(code, 0);
    assert_eq!(
        world.printed,
        vec![
            Note::Banner("Destroy local demo environment".to_string()),
            Note::Step("kind delete cluster ma-demo-source".to_string()),
            Note::Success("ma-demo-source deleted".to_string()),
            Note::Step("kind delete cluster ma-demo-target".to_string()),
            Note::Warning("could not delete ma-demo-target: locked".to_string()),
            Note::Dim(
                "  (cloud) for an AWS deploy, run `terraform destroy` in terraform/".to_string()
            ),
        ]
    );
}

#[test]
fn clearing_nothing_says_so() {
    let mut world = World::new();
    let (code, _) = dispatch(
        &mut world,
        &["clear", "--workspace", WS],
        MockRunner::new(),
        Script::new(),
    );
    assert_eq!(code, 0);
    assert_eq!(
        world.printed.last(),
        Some(&Note::Info("nothing to clear".to_string()))
    );
}

// --- how sessions end ---

#[test]
fn status_opens_the_dashboard_for_a_saved_plan() {
    let mut world = World::new();
    dispatch(
        &mut world,
        &["plan", "-y", "--workspace", WS],
        ready_runner(),
        Script::new(),
    );
    let (code, s) = dispatch(
        &mut world,
        &["status", "--workspace", WS],
        ready_runner(),
        Script::new(),
    );
    assert_eq!(code, 0);
    assert_eq!(world.opened, 1);
    assert_eq!(s.app.state.plan.answers.target, Some(Target::Local));
}

#[test]
fn an_interactive_run_ends_with_the_status_of_the_assistant() {
    for (status, code) in [(0, 0), (7, 7), (-1, 1)] {
        let r = ready_runner().stub("/tmp/ws/bin/migration-assistant", &[], status, "");
        let (got, s) = dispatch(
            &mut World::new(),
            &["--workspace", WS],
            r,
            Script::full_local(),
        );
        assert_eq!(got, code);
        assert_eq!(s.app.state.plan.step, Step::Ready);
        assert!(s
            .app
            .runner
            .inner
            .any_call_contains("/tmp/ws/bin/migration-assistant"));
    }
}

#[test]
fn an_effect_that_fails_ends_the_session_with_its_code() {
    let mut s = start(&["plan", "-y"], MockRunner::new(), Script::new());
    s.step(Report::Done);
    match s.step(Report::Failed(Error::with_code("disk full", 5))) {
        Effect::Print(notes) => assert_eq!(notes, vec![Note::Failure("disk full".to_string())]),
        other => panic!("expected the error, got {other:?}"),
    }
    assert_eq!(s.step(Report::Done), Effect::Exit(5));
    assert_eq!(s.step(Report::Failed(Error::die("x"))), Effect::Exit(5));
}

#[test]
fn a_failed_wizard_ends_the_run() {
    let mut world = World::new();
    let (code, _) = dispatch(
        &mut world,
        &["--workspace", WS],
        ready_runner(),
        Script::new(),
    );
    assert_eq!(code, 1);
    assert_eq!(
        world.printed.last(),
        Some(&Note::Failure("no scripted answer for Target".to_string()))
    );
    assert!(!world.has_plan());
}

#[test]
fn a_run_starts_over_from_its_saved_answers() {
    let mut world = World::new();
    dispatch(
        &mut world,
        &["-y", "--workspace", WS],
        ready_runner(),
        Script::new(),
    );
    assert_eq!(world.saved["/tmp/ws/plan.json"].step, Step::Ready);
    // Now the checks fail: what is saved keeps its step, and what is in memory starts over.
    let (code, s) = dispatch(
        &mut world,
        &["-y", "--workspace", WS],
        MockRunner::new(),
        Script::new(),
    );
    assert_eq!(code, 1);
    assert_eq!(world.saved["/tmp/ws/plan.json"].step, Step::Ready);
    assert_eq!(s.app.state.plan.step, Step::Planned);
}

// --- the review ---

#[test]
fn an_interactive_run_is_reviewed_before_anything_is_created() {
    let mut world = World::new();
    world.outcomes = vec![ReviewOutcome::Cancel];
    let (code, s) = dispatch(
        &mut world,
        &["run", "--workspace", WS],
        ready_runner(),
        Script::full_local(),
    );
    assert_eq!(code, 1);
    assert_eq!(world.reviewed.len(), 1);
    assert!(!s.app.runner.inner.any_call_contains("kind"));
    assert!(world.files.is_empty());
    assert_eq!(
        world.printed,
        vec![Note::Failure("setup cancelled by user".to_string())]
    );
    let (rows, context) = &world.reviewed[0];
    assert_eq!(rows[0].label, "Where");
    assert_eq!(context.version, VERSION);
    assert_eq!(context.workspace, WS);
    assert!(context.aws.is_empty());
}

#[test]
fn a_saved_plan_is_reviewed_too() {
    let mut world = World::new();
    dispatch(
        &mut world,
        &["plan", "--workspace", WS],
        ready_runner(),
        Script::full_local(),
    );
    world.outcomes = vec![ReviewOutcome::Cancel];
    let (code, s) = dispatch(
        &mut world,
        &["--workspace", WS],
        ready_runner(),
        Script::new(),
    );
    assert_eq!(code, 1);
    assert!(s.wiz.inner.asked.is_empty());
    assert_eq!(world.reviewed.len(), 1);
    assert!(!s.app.runner.inner.any_call_contains("kind create"));
}

#[test]
fn a_question_is_asked_again_from_the_review() {
    let mut world = World::new();
    world.outcomes = vec![
        ReviewOutcome::Edit(QuestionId::SourceEngine),
        ReviewOutcome::Cancel,
    ];
    let (_, s) = dispatch(
        &mut world,
        &["--workspace", WS],
        ready_runner(),
        Script::full_local(),
    );
    let asked = &s.wiz.inner.asked;
    let again = asked
        .iter()
        .filter(|q| **q == QuestionId::SourceEngine)
        .count();
    assert_eq!(again, 2);
    assert_eq!(world.reviewed.len(), 2);
}

#[test]
fn only_a_confirmed_plan_is_carried_out() {
    let mut s = start(&["--workspace", WS], ready_runner(), Script::full_local());
    let mut report = Report::Done;
    loop {
        match s.step(report) {
            Effect::Review { .. } => break,
            _ => report = Report::Done,
        }
    }
    // Whatever else is reported, the run ends.
    match s.step(Report::Done) {
        Effect::Print(notes) => assert_eq!(
            notes,
            vec![Note::Failure("setup cancelled by user".to_string())]
        ),
        other => panic!("expected the end, got {other:?}"),
    }
    assert_eq!(s.step(Report::Done), Effect::Exit(1));
}

#[test]
fn the_review_tells_of_aws_and_of_a_newer_release() {
    let mut world = World::new();
    world.outcomes = vec![ReviewOutcome::Cancel];
    let r = ready_runner()
        .stub("aws", &["sts"], 0, "arn:aws:sts::874041194807:assumed-role/Role/me")
        .stub("curl", &["releases/latest"], 0, r#"{"tag_name":"v9.9.9"}"#);
    dispatch(&mut world, &["--workspace", WS], r, Script::serverless());
    let (_, context) = &world.reviewed[0];
    assert_eq!(
        context.aws,
        vec![
            "AWS profile=default  region=us-east-1".to_string(),
            "identity arn:aws:sts::874041194807:assumed-role/Role/me  (account 874041194807)"
                .to_string(),
        ]
    );
    assert!(!context.aws_warning);
    assert!(context
        .update_hint
        .as_deref()
        .unwrap()
        .contains("A newer ma-demo is available: v9.9.9"));
}

#[test]
fn missing_credentials_are_a_warning() {
    let mut world = World::new();
    world.outcomes = vec![ReviewOutcome::Cancel];
    let r = ready_runner().stub_stderr("aws", &["sts"], 255, "ExpiredToken");
    dispatch(&mut world, &["--workspace", WS], r, Script::serverless());
    let (_, context) = &world.reviewed[0];
    assert!(context.aws_warning);
    assert_eq!(
        context.aws[1],
        "no valid AWS credentials (missing or expired)"
    );
}

// --- the target and the handover ---

fn cloud() -> Script {
    Script::full_local().with(QuestionId::Target, ans("cloud"))
}

#[test]
fn terraform_is_applied_once_the_plan_is_confirmed() {
    let mut world = World::new();
    let (code, s) = dispatch(
        &mut world,
        &["--no-dashboard", "--workspace", WS],
        ready_runner(),
        cloud(),
    );
    assert_eq!(code, 0);
    let calls: Vec<String> = s
        .app
        .runner
        .inner
        .calls_to("terraform")
        .iter()
        .map(|c| c.joined())
        .collect();
    assert_eq!(
        calls,
        vec![
            "-chdir=/tmp/ws/terraform init",
            "-chdir=/tmp/ws/terraform apply -auto-approve",
        ]
    );
    assert!(world.files.contains_key("/tmp/ws/terraform/source.tf"));
}

#[test]
fn a_serverless_target_in_the_cloud_is_left_to_terraform() {
    let mut world = World::new();
    let (code, s) = dispatch(
        &mut world,
        &["--no-dashboard", "--aws-region=eu-west-1", "--workspace", WS],
        ready_runner(),
        Script::serverless().with(QuestionId::Target, ans("cloud")),
    );
    assert_eq!(code, 0);
    let target = &world.files["/tmp/ws/terraform/target.tf"];
    assert!(target.contains("resource \"aws_opensearchserverless_collection\" \"target\""));
    assert!(!target.contains("aws_opensearch_domain"));
    assert!(world.files["/tmp/ws/terraform/providers.tf"].contains("default = \"eu-west-1\""));
    assert!(!s.app.runner.inner.any_call_contains("create-collection"));
}

#[test]
fn terraform_is_left_alone_where_that_is_asked_for() {
    for (v, applied) in [
        (vec!["--no-apply", "--workspace", WS], 0),
        (vec!["-y", "--workspace", WS], 0),
        (vec!["-y", "--apply", "--workspace", WS], 2),
    ] {
        let mut world = World::new();
        dispatch(
            &mut world,
            &["plan", "--workspace", WS],
            ready_runner(),
            cloud(),
        );
        let (code, s) = dispatch(&mut world, &v, ready_runner(), Script::new());
        assert_eq!(code, 0, "{v:?}");
        assert_eq!(
            s.app.runner.inner.calls_to("terraform").len(),
            applied,
            "{v:?}"
        );
    }
}

#[test]
fn a_failed_terraform_ends_the_run() {
    let r = ready_runner().stub_stderr("terraform", &["apply"], 1, "");
    let mut world = World::new();
    let (code, s) = dispatch(&mut world, &["--workspace", WS], r, cloud());
    assert_eq!(code, 1);
    assert_eq!(
        world.printed.last(),
        Some(&Note::Failure("terraform apply failed".to_string()))
    );
    assert!(!s.app.runner.inner.any_call_contains("BIN_DIR"));
}

#[test]
fn a_collection_that_exists_is_kept_and_waited_for() {
    let r = ready_runner()
        .with_command("aws")
        .stub("aws", &["sts"], 0, "arn:aws:sts::1:assumed-role/R/me")
        .stub_stderr("aws", &["create-"], 254, "ConflictException: it exists")
        .stub_stderr_once("aws", &["batch-get-collection"], 1, "not yet", 3)
        .stub(
            "aws",
            &["batch-get-collection"],
            0,
            r#"{"collectionDetails":[{"status":"ACTIVE","collectionEndpoint":"https://x"}]}"#,
        );
    let mut world = World::new();
    let (code, s) = dispatch(
        &mut world,
        &["--no-dashboard", "--workspace", WS],
        r,
        Script::serverless(),
    );
    assert_eq!(code, 0);
    assert_eq!(world.paused, 3);
    assert!(world
        .printed
        .contains(&Note::Dim("  target   https://x  (collection)".to_string())));
    // The endpoint is recorded in the saved plan.
    assert_eq!(
        world.saved["/tmp/ws/plan.json"].target_endpoint.as_deref(),
        Some("https://x")
    );
    let verbs: Vec<String> = s
        .app
        .runner
        .inner
        .calls_to("aws")
        .iter()
        .filter(|c| c.args[1].starts_with("create-"))
        .map(|c| c.args[1].clone())
        .collect();
    assert_eq!(
        verbs,
        vec![
            "create-collection-group",
            "create-security-policy",
            "create-security-policy",
            "create-access-policy",
            "create-collection",
        ]
    );
    assert!(s
        .app
        .runner
        .inner
        .any_call_contains("\"Principal\":[\"arn:aws:sts::1:assumed-role/R/me\"]"));
}

#[test]
fn a_collection_that_never_comes_up_ends_the_run() {
    let r = ready_runner()
        .with_command("aws")
        .stub("aws", &["sts"], 0, "arn:aws:sts::1:assumed-role/R/me");
    let mut world = World::new();
    let (code, _) = dispatch(&mut world, &["--workspace", WS], r, Script::serverless());
    assert_eq!(code, 1);
    assert_eq!(world.paused, 59);
    assert_eq!(
        world.printed.last(),
        Some(&Note::Failure(
            "the target collection did not become active".to_string()
        ))
    );
}

#[test]
fn a_collection_needs_the_aws_cli_and_credentials() {
    for (r, text) in [
        (
            ready_runner(),
            "required tool not found on PATH: aws. Install it and re-run.",
        ),
        (
            ready_runner().with_command("aws"),
            "no valid AWS credentials for profile default",
        ),
        (
            ready_runner()
                .with_command("aws")
                .stub("aws", &["sts"], 0, "arn:aws:sts::1:assumed-role/R/me")
                .stub_stderr("aws", &["create-collection-group"], 1, "denied"),
            "create collection group ma-demo-target failed: denied",
        ),
    ] {
        let mut world = World::new();
        let (code, _) = dispatch(&mut world, &["--workspace", WS], r, Script::serverless());
        assert_eq!(code, 1);
        assert_eq!(
            world.printed.last(),
            Some(&Note::Failure(text.to_string()))
        );
    }
}

#[test]
fn an_interactive_handover_opens_the_console() {
    let w = Script::full_local().with(QuestionId::MaHandoff, ans("deploy-local-helm"));
    let mut world = World::new();
    let (code, s) = dispatch(
        &mut world,
        &["--workspace", WS],
        ready_runner().with_command("helm"),
        w,
    );
    assert_eq!(code, 0);
    assert_eq!(world.opened, 1);
    let last = s.app.runner.inner.calls().pop().unwrap();
    assert_eq!(last.program, "kubectl");
    assert_eq!(
        last.joined(),
        "--context kind-ma-demo-ma -n ma exec -it migration-console-0 -- /bin/bash"
    );
    assert_eq!(world.saved["/tmp/ws/plan.json"].step, Step::Ready);
}

#[test]
fn without_helm_or_the_chart_the_command_line_is_installed() {
    let v = args(&["-y", "--ma-handoff=deploy-local-helm", "--workspace", WS]);
    let bare = Setup {
        chart: None,
        ..setup()
    };
    for (r, setup, text) in [
        (
            ready_runner(),
            setup(),
            "helm not on PATH; installing the Migration Assistant CLI instead",
        ),
        (
            ready_runner().with_command("helm"),
            bare,
            "chart not found (set MA_CHART_PATH); installing the Migration Assistant CLI instead",
        ),
    ] {
        let mut world = World::new();
        let mut s = cli::dispatch(&v, r, SilentProgress, Script::new(), setup);
        assert_eq!(world.run(&mut s), 0);
        assert!(world.printed.contains(&Note::Warning(text.to_string())));
        let r = &s.app.runner.inner;
        assert!(r.any_call_contains("BIN_DIR=/tmp/ws/bin"));
        assert!(!r.any_call_contains("ma-demo-ma"));
        assert!(world
            .printed
            .contains(&Note::Dim("  $ /tmp/ws/bin/migration-assistant".to_string())));
    }
}

#[test]
fn the_other_flags_are_read() {
    let f = parse_flags(&args(&[
        "--no-dashboard",
        "--apply",
        "--ma-handoff",
        "install-cli",
    ]));
    assert!(f.no_dashboard && f.apply && !f.no_apply);
    assert_eq!(f.ma_handoff, Some(MaHandoff::InstallCli));
    assert!(f.applies());
    let f = parse_flags(&args(&["--ma-handoff=nope", "--no-apply"]));
    assert_eq!(f.ma_handoff, None);
    assert!(!f.applies());
    assert!(!parse_flags(&args(&["-y"])).applies());
}

#[test]
fn a_flag_counts_after_one_that_lacks_its_value() {
    for bare in ["--ma-handoff", "--aws-region", "--aws-profile"] {
        let f = parse_flags(&args(&[bare, "-y", "--plan"]));
        assert_eq!(
            f,
            Flags {
                non_interactive: true,
                dry_run: true,
                ..Flags::default()
            }
        );
    }
    let f = parse_flags(&args(&["--ma-handoff", "--workspace", "a"]));
    assert_eq!(f.workspace.as_deref(), Some("a"));
}

#[test]
fn region_and_profile_are_taken_over_into_the_plan() {
    let mut world = World::new();
    for v in [
        ["plan", "-y", "--aws-region", "eu-west-1", "--aws-profile=dev"],
        ["plan", "-y", "--aws-region=eu-west-1", "--aws-profile", "dev"],
    ] {
        let mut v = v.to_vec();
        v.extend(["--workspace", WS]);
        assert_eq!(
            dispatch(&mut world, &v, ready_runner(), Script::new()).0,
            0
        );
        let a = world.saved["/tmp/ws/plan.json"].answers.clone();
        assert_eq!(a.aws_region.as_deref(), Some("eu-west-1"));
        assert_eq!(a.aws_profile.as_deref(), Some("dev"));
    }
    // A plan keeps what it says where no flag says otherwise.
    dispatch(
        &mut world,
        &["plan", "-y", "--aws-profile=ops", "--workspace", WS],
        ready_runner(),
        Script::new(),
    );
    let a = world.saved["/tmp/ws/plan.json"].answers.clone();
    assert_eq!(a.aws_region.as_deref(), Some("eu-west-1"));
    assert_eq!(a.aws_profile.as_deref(), Some("ops"));
}

#[test]
fn questions_are_counted_but_not_when_asked_again() {
    let mut s = start(&["--workspace", WS], ready_runner(), Script::full_local());
    assert_eq!(s.question_step(), None);
    s.stage = Stage::Ask;
    assert_eq!(s.question_step(), Some((1, 11)));
    s.app.state.plan.answers.target = Some(Target::Local);
    assert_eq!(s.question_step(), Some((2, 11)));
    s.stage = Stage::Reask(QuestionId::Target);
    assert_eq!(s.question_step(), None);
}

#[test]
fn a_run_that_asks_nothing_prints_what_a_review_would_tell() {
    let mut world = World::new();
    dispatch(
        &mut world,
        &["plan", "--workspace", WS],
        ready_runner(),
        cloud(),
    );
    world.printed.clear();
    let r = ready_runner().stub("aws", &["sts"], 0, "arn:aws:sts::1:assumed-role/R/me");
    dispatch(&mut world, &["-y", "--workspace", WS], r, Script::new());
    assert!(world.reviewed.is_empty());
    assert!(world.printed.contains(&Note::Dim(
        "  AWS profile=default  region=us-east-1".to_string()
    )));
    assert!(world.printed.contains(&Note::Dim(
        "  identity arn:aws:sts::1:assumed-role/R/me  (account 1)".to_string()
    )));
}

#[test]
fn a_local_deployment_command_by_command() {
    let (_, s) = dispatch(
        &mut World::new(),
        &["-y", "--ma-handoff=deploy-local-helm", "--workspace", WS],
        ready_runner().with_command("helm"),
        Script::new(),
    );
    let r = &s.app.runner.inner;
    assert_eq!(
        r.calls_to("kind").last().unwrap().joined(),
        "create cluster --name ma-demo-ma --image kindest/node:v1.35.0"
    );
    assert!(r.calls_to("helm")[0].joined().starts_with(
        "--kube-context kind-ma-demo-ma upgrade --install --create-namespace --namespace ma ma /charts/migrationAssistantWithArgo --set images.migrationConsole.repository=opensearchstaging/opensearch-migrations-console"
    ));
    assert_eq!(
        r.calls_to("kubectl").last().unwrap().joined(),
        "--context kind-ma-demo-ma -n ma rollout status statefulset/migration-console --timeout=900s"
    );
}

#[test]
fn a_failed_deployment_ends_the_run() {
    let r = ready_runner()
        .with_command("helm")
        .stub_stderr("helm", &["upgrade"], 1, "no such chart\n");
    let mut world = World::new();
    let (code, s) = dispatch(
        &mut world,
        &["-y", "--ma-handoff=deploy-local-helm", "--workspace", WS],
        r,
        Script::new(),
    );
    assert_eq!(code, 1);
    assert_eq!(
        world.printed.last(),
        Some(&Note::Failure(
            "helm install of the Migration Assistant failed: no such chart".to_string()
        ))
    );
    assert_ne!(s.app.state.plan.step, Step::Ready);
}
