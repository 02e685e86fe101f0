//! Carrying a plan out.
//!
//! An [`App`] decides; what it cannot do itself, it hands out as a [`Job`]: to write a file, to make
//! a directory, to save the state. Whoever drives it does the job and comes back, or stops where
//! the job or the app fails. External commands go through the runner.

use crate::error::{fatal, Error, ErrorView};
use crate::journal::{
    continued, lemma_at_rest, lemma_continued_on, lemma_nothing_added, lemma_one_entry,
};
use crate::manifests::NAMESPACE;
use crate::model::{source_cluster_name, target_cluster_name, Answers, AnswersView, Target};
use crate::plan::{
    build, engine_actions, install_script, ma_install_command, ma_launch_argv, ma_program, plan_for,
    role_label, source_actions, start_actions, storage_actions, target_actions, Action, ActionView,
    ClusterRole, ProvisionPlan, ProvisionPlanView, MA_VERSION,
};
use crate::runner::{
    asks, command, grew, group_runner, lemma_passes, lemma_since, since, Ask, CallView,
    CommandRunner, Event, Logged, Output,
};
use crate::state::{path_in, path_under, State, StateView, Step};
use crate::terraform::{file_views, files, files_for, TfFile, TfFileView};
use crate::text::{contains, has_part, occurs_at, same, str_texts, texts, trim, trimmed};
use crate::update::{find_value, law_a_value_is_read_after_its_key, value_after};
use vstd::prelude::*;

verus! {

/// The tools that a local environment needs.
pub const REQUIRED_LOCAL_TOOLS: [&'static str; 4] = ["docker", "kind", "kubectl", "curl"];

/// The context under which `kubectl` knows a KIND cluster.
pub open spec fn context_text(cluster: Seq<char>) -> Seq<char> {
    "kind-"@ + cluster
}

/// The context under which `kubectl` knows a KIND cluster.
pub fn kube_context(cluster: &str) -> (r: String)
    ensures
        r@ == context_text(cluster@),
{
    "kind-".to_string().concat(cluster)
}

/// The endpoint of a serverless collection in its description: there is one once the collection is
/// active.
pub open spec fn endpoint_in(json: Seq<char>) -> Option<Seq<char>> {
    if value_after(json, "\"status\""@) == Some("ACTIVE"@) {
        match value_after(json, "\"collectionEndpoint\""@) {
            Some(e) => if e.len() > 0 {
                Some(e)
            } else {
                None
            },
            None => None,
        }
    } else {
        None
    }
}

/// The endpoint of a serverless collection in its description, once the collection is active.
pub fn parse_aoss_endpoint(json: &str) -> (r: Option<String>)
    ensures
        r is Some <==> endpoint_in(json@) is Some,
        r is Some ==> r->0@ == endpoint_in(json@)->0,
{
    match find_value(json, "\"status\"") {
        Some(status) => if same(status.as_str(), "ACTIVE") {
            match find_value(json, "\"collectionEndpoint\"") {
                Some(e) => if e.unicode_len() > 0 {
                    Some(e)
                } else {
                    None
                },
                None => None,
            }
        } else {
            None
        },
        None => None,
    }
}

// ---------------------------------------------------------------------------
// Progress
// ---------------------------------------------------------------------------

/// Something that was said while a plan is carried out.
pub enum Said {
    Step(Seq<char>),
    Info(Seq<char>),
}

/// Where the progress of a run is told.
pub trait Progress: Sized {
    /// Whether being told `said` can turn `pre` into `post`.
    open spec fn hears(pre: Self, said: Said, post: Self) -> bool {
        true
    }

    /// A step begins.
    fn step(&mut self, msg: &str)
        ensures
            Self::hears(*old(self), Said::Step(msg@), *final(self)),
    ;

    /// A remark on the step.
    fn info(&mut self, msg: &str)
        ensures
            Self::hears(*old(self), Said::Info(msg@), *final(self)),
    ;
}

/// Progress that is told to nobody.
pub struct SilentProgress;

impl Progress for SilentProgress {
    fn step(&mut self, msg: &str) {
    }

    fn info(&mut self, msg: &str) {
    }
}

/// Where progress is told, and what was said. That record is kept for contracts only: it is no part
/// of the running program.
pub struct Told<P: Progress> {
    pub inner: P,
    record: Ghost<Seq<Said>>,
}

impl<P: Progress> Told<P> {
    /// Everything that was said, in order.
    pub closed spec fn said(&self) -> Seq<Said> {
        self.record@
    }

    /// Where progress is told, as it is.
    pub closed spec fn current(&self) -> P {
        self.inner
    }

    /// What being told something can do.
    pub open spec fn course() -> spec_fn(P, Said, P) -> bool {
        |pre: P, said: Said, post: P| P::hears(pre, said, post)
    }

    /// Whether `post` is this after being told what the record of `post` holds more, and nothing
    /// else.
    pub open spec fn leads_to(self, post: Self) -> bool {
        continued(Self::course(), self.current(), self.said(), post.current(), post.said())
    }

    /// Nothing said yet.
    pub fn new(inner: P) -> (r: Self)
        ensures
            r.current() == inner,
            r.said() == Seq::<Said>::empty(),
    {
        Told { inner, record: Ghost(Seq::empty()) }
    }

    /// A step begins.
    pub fn step(&mut self, msg: &str)
        ensures
            P::hears(old(self).current(), Said::Step(msg@), final(self).current()),
            final(self).said() == old(self).said().push(Said::Step(msg@)),
            old(self).leads_to(*final(self)),
    {
        let ghost before = *self;
        self.inner.step(msg);
        self.record = Ghost(self.record@.push(Said::Step(msg@)));
        proof {
            let said = Said::Step(msg@);
            lemma_one_entry(Self::course(), before.inner, before.said(), said, self.inner);
        }
    }

    /// A remark on the step.
    pub fn info(&mut self, msg: &str)
        ensures
            P::hears(old(self).current(), Said::Info(msg@), final(self).current()),
            final(self).said() == old(self).said().push(Said::Info(msg@)),
            old(self).leads_to(*final(self)),
    {
        let ghost before = *self;
        self.inner.info(msg);
        self.record = Ghost(self.record@.push(Said::Info(msg@)));
        proof {
            let said = Said::Info(msg@);
            lemma_one_entry(Self::course(), before.inner, before.said(), said, self.inner);
        }
    }
}

/// Where nothing is told, nothing changes.
pub broadcast proof fn lemma_progress_at_rest<P: Progress>(pre: Told<P>, post: Told<P>)
    requires
        pre == post,
    ensures
        #[trigger] pre.leads_to(post),
{
    lemma_at_rest(Told::<P>::course(), pre.current(), pre.said());
}

/// What is told goes on with what is told next.
pub broadcast proof fn lemma_progress_goes_on<P: Progress>(a: Told<P>, b: Told<P>, c: Told<P>)
    requires
        #[trigger] a.leads_to(b),
        #[trigger] b.leads_to(c),
    ensures
        a.leads_to(c),
{
    lemma_continued_on(
        Told::<P>::course(),
        a.current(),
        a.said(),
        b.current(),
        b.said(),
        c.current(),
        c.said(),
    );
}

/// Where nothing was said, what progress is told to is what it was.
pub proof fn law_who_is_told_nothing_stays<P: Progress>(pre: Told<P>, post: Told<P>)
    requires
        pre.leads_to(post),
        pre.said().len() == post.said().len(),
    ensures
        pre.current() == post.current(),
{
    lemma_nothing_added(
        Told::<P>::course(),
        pre.current(),
        pre.said(),
        post.current(),
        post.said(),
    );
}

pub broadcast group group_progress {
    lemma_progress_at_rest,
    lemma_progress_goes_on,
}

// ---------------------------------------------------------------------------
// The app
// ---------------------------------------------------------------------------

/// A runner, the state of a run, and where its progress is told.
pub struct App<R: CommandRunner, P: Progress> {
    pub runner: Logged<R>,
    pub state: State,
    pub progress: Told<P>,
    /// Whether Terraform files are going to be applied.
    pub apply: bool,
}

/// What is to be done outside the library before an app goes on.
#[derive(Debug, Clone, PartialEq, Eq)]
pub enum Job {
    /// Make a directory, with those above it.
    MakeDir { path: String },
    /// Write a file, making the directories above it.
    Write { path: String, body: String },
    /// Save the state.
    Save,
    /// Nothing: the work is done.
    Done,
}

/// What a [`Job`] holds.
#[verifier::ext_equal]
pub enum JobView {
    MakeDir { path: Seq<char> },
    Write { path: Seq<char>, body: Seq<char> },
    Save,
    Done,
}

impl View for Job {
    type V = JobView;

    open spec fn view(&self) -> JobView {
        match self {
            Job::MakeDir { path } => JobView::MakeDir { path: path@ },
            Job::Write { path, body } => JobView::Write { path: path@, body: body@ },
            Job::Save => JobView::Save,
            Job::Done => JobView::Done,
        }
    }
}

impl<R: CommandRunner, P: Progress> App<R, P> {
    /// An app with a fresh state for the workspace.
    pub fn new(runner: R, workspace: &str, progress: P) -> (r: Self)
        ensures
            r.runner.current() == runner,
            r.runner.events() == Seq::<Event>::empty(),
            r.state@ == StateView::fresh(workspace@),
            r.progress.current() == progress,
            r.progress.said() == Seq::<Said>::empty(),
            !r.apply,
    {
        App {
            runner: Logged::new(runner),
            state: State::new(workspace),
            progress: Told::new(progress),
            apply: false,
        }
    }
}

// ---------------------------------------------------------------------------
// Preflight
// ---------------------------------------------------------------------------

/// The first tool from place `i` on that was looked up and not found.
pub open spec fn first_missing(log: Seq<Event>, i: int) -> Option<int>
    decreases 4 - i,
{
    if i < 0 || i >= 4 {
        None
    } else if !log[i].found() {
        Some(i)
    } else {
        first_missing(log, i + 1)
    }
}

/// Looking up the first `n` tools.
pub open spec fn tool_lookups(n: int) -> Seq<Ask> {
    Seq::new(n as nat, |i: int| Ask::Find(REQUIRED_LOCAL_TOOLS@[i]@))
}

/// The command that asks whether Docker answers.
pub open spec fn docker_query() -> CallView {
    command("docker"@, seq!["info"@])
}

/// What the checks before provisioning ask: a local environment needs its tools, up to the first
/// that is missing, and then Docker itself; any other needs nothing.
pub open spec fn preflight_asks(a: AnswersView, log: Seq<Event>) -> Seq<Ask> {
    if a.target != Some(Target::Local) {
        seq![]
    } else {
        match first_missing(log, 0) {
            Some(i) => tool_lookups(i + 1),
            None => tool_lookups(4).push(Ask::Run(docker_query())),
        }
    }
}

/// What the checks find wrong.
pub open spec fn preflight_error(a: AnswersView, log: Seq<Event>) -> Option<ErrorView> {
    if a.target != Some(Target::Local) {
        None
    } else {
        match first_missing(log, 0) {
            Some(i) => Some(
                fatal(
                    "required tool not found on PATH: "@ + REQUIRED_LOCAL_TOOLS@[i]@
                        + ". Install it and re-run."@,
                ),
            ),
            None => if log[4].output().ok() {
                None
            } else {
                Some(
                    fatal(
                        "Docker is installed but the daemon is not responding. Start Docker and re-run."@,
                    ),
                )
            },
        }
    }
}

/// What is said about the checks; `apply` is whether Terraform files are going to be applied.
pub open spec fn preflight_says(a: AnswersView, apply: bool, log: Seq<Event>) -> Seq<Said> {
    let start = seq![Said::Step("Preflight checks"@)];
    if preflight_error(a, log) is Some {
        start
    } else if a.target == Some(Target::Local) {
        start.push(Said::Info("all local tools present; docker daemon up"@))
    } else if apply {
        start.push(Said::Info("cloud target: terraform will be emitted and applied"@))
    } else {
        start.push(Said::Info("cloud target: terraform will be emitted for you to apply"@))
    }
}

impl<R: CommandRunner, P: Progress> App<R, P> {
    /// Checks that a local environment has its tools and that Docker answers. The state advances if
    /// all is well; it is then to be saved.
    pub fn preflight(&mut self, answers: &Answers) -> (r: Result<(), Error>)
        ensures
            grew(old(self).runner.events(), final(self).runner.events()),
            old(self).runner.leads_to(final(self).runner),
            old(self).progress.leads_to(final(self).progress),
            asks(since(old(self).runner.events(), final(self).runner.events())) == preflight_asks(
                answers@,
                since(old(self).runner.events(), final(self).runner.events()),
            ),
            match r {
                Ok(_) => preflight_error(
                    answers@,
                    since(old(self).runner.events(), final(self).runner.events()),
                ) is None,
                Err(e) => preflight_error(
                    answers@,
                    since(old(self).runner.events(), final(self).runner.events()),
                ) == Some(e@),
            },
            final(self).state@ == if r is Ok {
                old(self).state@.advanced(Step::PreflightDone)
            } else {
                old(self).state@
            },
            final(self).apply == old(self).apply,
            final(self).progress.said() == old(self).progress.said() + preflight_says(
                answers@,
                old(self).apply,
                since(old(self).runner.events(), final(self).runner.events()),
            ),
    {
        broadcast use {group_runner, group_progress};

        let ghost before = self.runner.events();
        let ghost said = self.progress.said();
        self.progress.step("Preflight checks");
        if answers.target != Some(Target::Local) {
            self.progress.info(
                if self.apply {
                    "cloud target: terraform will be emitted and applied"
                } else {
                    "cloud target: terraform will be emitted for you to apply"
                },
            );
            self.state.advance(Step::PreflightDone);
            proof {
                lemma_since(before, seq![]);
                assert(before + seq![] =~= before);
                assert(asks(seq![]) =~= seq![]);
                assert(self.progress.said() =~= said + preflight_says(answers@, self.apply, seq![]));
            }
            return Ok(());
        }
        let ghost mut log: Seq<Event> = seq![];
        assert(before + log =~= before);
        for i in 0..REQUIRED_LOCAL_TOOLS.len()
            invariant
                answers@.target == Some(Target::Local),
                log.len() == i,
                self.runner.events() == before + log,
                old(self).runner.leads_to(self.runner),
                old(self).progress.leads_to(self.progress),
                asks(log) == tool_lookups(i as int),
                forall|j: int| 0 <= j < i ==> (#[trigger] log[j]).found(),
                self.state@ == old(self).state@,
                self.apply == old(self).apply,
                said == old(self).progress.said(),
                before == old(self).runner.events(),
                self.progress.said() == said.push(Said::Step("Preflight checks"@)),
        {
            broadcast use group_runner;

            let tool = REQUIRED_LOCAL_TOOLS[i];
            let found = self.runner.has_command(tool);
            proof {
                let e = Event::Looked(tool@, found);
                assert(asks(log.push(e)) =~= asks(log).push(e.ask()));
                assert(tool_lookups(i + 1) =~= tool_lookups(i as int).push(Ask::Find(tool@)));
                assert(before + log.push(e) =~= (before + log).push(e));
                log = log.push(e);
            }
            if !found {
                proof {
                    lemma_since(before, log);
                    lemma_first_missing(log, i as int);
                    assert(self.progress.said() =~= said + preflight_says(answers@, self.apply, log));
                }
                let message = "required tool not found on PATH: ".to_string().concat(tool).concat(
                    ". Install it and re-run.",
                );
                return Err(Error::die(message.as_str()));
            }
        }
        let args: [&str; 1] = ["info"];
        let up = self.runner.run_ok("docker", &args);
        proof {
            let e = self.runner.events().last();
            assert(str_texts(args@) =~= docker_query().args);
            assert(before + log.push(e) =~= (before + log).push(e));
            assert(asks(log.push(e)) =~= asks(log).push(e.ask()));
            log = log.push(e);
            lemma_since(before, log);
            lemma_none_missing(log);
        }
        if !up {
            proof {
                assert(self.progress.said() =~= said + preflight_says(answers@, self.apply, log));
            }
            return Err(
                Error::die(
                    "Docker is installed but the daemon is not responding. Start Docker and re-run.",
                ),
            );
        }
        self.progress.info("all local tools present; docker daemon up");
        self.state.advance(Step::PreflightDone);
        proof {
            assert(self.progress.said() =~= said + preflight_says(answers@, self.apply, log));
        }
        Ok(())
    }
}

proof fn lemma_first_missing(log: Seq<Event>, i: int)
    requires
        0 <= i < 4,
        !log[i].found(),
        forall|j: int| 0 <= j < i ==> (#[trigger] log[j]).found(),
    ensures
        first_missing(log, 0) == Some(i),
{
    reveal_with_fuel(first_missing, 5);
}

proof fn lemma_none_missing(log: Seq<Event>)
    requires
        forall|j: int| 0 <= j < 4 ==> (#[trigger] log[j]).found(),
    ensures
        first_missing(log, 0) is None,
{
    reveal_with_fuel(first_missing, 5);
}

// ---------------------------------------------------------------------------
// One action
// ---------------------------------------------------------------------------

/// The name of the cluster that plays a role.
pub open spec fn cluster_text(role: ClusterRole) -> Seq<char> {
    match role {
        ClusterRole::Source => source_cluster_name(),
        ClusterRole::Target => target_cluster_name(),
    }
}

/// The file that an action needs, where it needs one.
pub open spec fn artifact_of(action: ActionView) -> Option<TfFileView> {
    match action {
        ActionView::CreateKindCluster { name, config, .. } => Some(
            TfFileView { path: "kind-"@ + name + ".yaml"@, body: config },
        ),
        ActionView::ApplyManifest { role, name, body } => Some(
            TfFileView { path: role.text() + "-"@ + name + ".yaml"@, body },
        ),
        ActionView::WaitReady { .. } => None,
    }
}

/// The command that creates a cluster.
pub open spec fn create_call(name: Seq<char>, config: Seq<char>) -> CallView {
    command("kind"@, seq!["create"@, "cluster"@, "--name"@, name, "--config"@, config])
}

/// The command that applies a manifest.
pub open spec fn apply_call(context: Seq<char>, manifest: Seq<char>) -> CallView {
    command("kubectl"@, seq!["--context"@, context, "apply"@, "-f"@, manifest])
}

/// The command that deletes what a manifest describes.
pub open spec fn delete_call(context: Seq<char>, manifest: Seq<char>) -> CallView {
    command(
        "kubectl"@,
        seq![
            "--context"@,
            context,
            "delete"@,
            "-f"@,
            manifest,
            "--ignore-not-found"@,
            "--wait=true"@,
        ],
    )
}

/// The command that waits for the pods of a cluster.
pub open spec fn wait_call(context: Seq<char>) -> CallView {
    command(
        "kubectl"@,
        seq![
            "--context"@,
            context,
            "wait"@,
            "--for=condition=ready"@,
            "pod"@,
            "--all"@,
            "--namespace"@,
            NAMESPACE@,
            "--timeout=300s"@,
        ],
    )
}

/// Whether a message says that the cluster exists already.
pub open spec fn exists_already(stderr: Seq<char>) -> bool {
    contains(stderr, "already exist"@)
}

/// Whether a message says that a field cannot be changed.
pub open spec fn immutable(stderr: Seq<char>) -> bool {
    ||| contains(stderr, "field is immutable"@)
    ||| contains(stderr, "may not be changed"@)
    ||| contains(stderr, "updates to"@) && contains(stderr, "are forbidden"@)
}

/// What is asked to carry an action out. A manifest that cannot be changed in place is deleted and
/// applied anew.
pub open spec fn perform_asks(action: ActionView, dir: Seq<char>, log: Seq<Event>) -> Seq<Ask> {
    match action {
        ActionView::CreateKindCluster { name, .. } => seq![
            Ask::Run(create_call(name, path_in(dir, artifact_of(action)->0.path))),
        ],
        ActionView::ApplyManifest { role, .. } => {
            let context = context_text(cluster_text(role));
            let path = path_in(dir, artifact_of(action)->0.path);
            if !log[0].output().ok() && immutable(log[0].output().stderr) {
                seq![
                    Ask::Run(apply_call(context, path)),
                    Ask::Run(delete_call(context, path)),
                    Ask::Run(apply_call(context, path)),
                ]
            } else {
                seq![Ask::Run(apply_call(context, path))]
            }
        },
        ActionView::WaitReady { role, .. } => seq![
            Ask::Run(wait_call(context_text(cluster_text(role)))),
        ],
    }
}

/// What goes wrong when an action is carried out. A cluster that exists is as good as one that was
/// created, and a wait that ends too early is not an error.
pub open spec fn perform_error(action: ActionView, log: Seq<Event>) -> Option<ErrorView> {
    let out = log[0].output();
    match action {
        ActionView::CreateKindCluster { name, .. } => if out.ok() || exists_already(out.stderr) {
            None
        } else {
            Some(fatal("kind create cluster "@ + name + " failed: "@ + trimmed(out.stderr)))
        },
        ActionView::ApplyManifest { name, .. } => if out.ok() {
            None
        } else if immutable(out.stderr) {
            if log[2].output().ok() {
                None
            } else {
                Some(
                    fatal(
                        "kubectl apply "@ + name + " failed after delete+retry: "@ + trimmed(
                            log[2].output().stderr,
                        ),
                    ),
                )
            }
        } else {
            Some(fatal("kubectl apply "@ + name + " failed: "@ + trimmed(out.stderr)))
        },
        ActionView::WaitReady { .. } => None,
    }
}

/// The step that is reached with an action, if it is a milestone.
pub open spec fn milestone(action: ActionView) -> Option<Step> {
    match action {
        ActionView::WaitReady { role: ClusterRole::Source, .. } => Some(Step::SourceUp),
        ActionView::WaitReady { role: ClusterRole::Target, .. } => Some(Step::TargetUp),
        ActionView::ApplyManifest { name, .. } => if name == "localstack"@ {
            Some(Step::SnapshotUp)
        } else if name == "data-seed"@ {
            Some(Step::DataSeeded)
        } else if name == "locust"@ || name == "sample-search-app"@ {
            Some(Step::ClientsUp)
        } else {
            None
        },
        ActionView::CreateKindCluster { .. } => None,
    }
}

/// The state after an action.
pub open spec fn after_action(s: StateView, action: ActionView) -> StateView {
    match milestone(action) {
        Some(step) => s.advanced(step),
        None => s,
    }
}

/// Whether a message says that the cluster exists already.
pub fn already_exists(stderr: &str) -> (r: bool)
    ensures
        r == exists_already(stderr@),
{
    has_part(stderr, "already exist")
}

/// Whether a message says that a field cannot be changed.
pub fn is_immutable_error(stderr: &str) -> (r: bool)
    ensures
        r == immutable(stderr@),
{
    has_part(stderr, "field is immutable") || has_part(stderr, "may not be changed") || (has_part(
        stderr,
        "updates to",
    ) && has_part(stderr, "are forbidden"))
}

fn artifact(action: &Action) -> (r: Option<(String, String)>)
    ensures
        r is Some <==> artifact_of(action@) is Some,
        r is Some ==> artifact_of(action@) == Some(
            TfFileView { path: (r->0).0@, body: (r->0).1@ },
        ),
{
    match action {
        Action::CreateKindCluster { name, config, .. } => Some(
            (
                "kind-".to_string().concat(name.as_str()).concat(".yaml"),
                config.clone(),
            ),
        ),
        Action::ApplyManifest { role, name, body } => Some(
            (
                role_label(*role).to_string().concat("-").concat(name.as_str()).concat(".yaml"),
                body.clone(),
            ),
        ),
        Action::WaitReady { .. } => None,
    }
}

fn failure(what: &str, name: &str, how: &str, stderr: &str) -> (r: Error)
    ensures
        r@ == fatal(what@ + name@ + how@ + trimmed(stderr@)),
{
    let message = what.to_string().concat(name).concat(how).concat(trim(stderr));
    Error::die(message.as_str())
}

impl<R: CommandRunner, P: Progress> App<R, P> {
    /// The context of the cluster that plays a role.
    pub fn context_for(&self, role: ClusterRole) -> (r: String)
        ensures
            r@ == context_text(cluster_text(role)),
    {
        let cluster = match role {
            ClusterRole::Source => self.state.plan.answers.source_cluster(),
            ClusterRole::Target => self.state.plan.answers.target_cluster(),
        };
        kube_context(cluster.as_str())
    }

    fn apply_manifest(&mut self, context: &str, path: &str) -> (r: Output)
        ensures
            final(self).runner.events() == old(self).runner.events().push(
                Event::Ran(apply_call(context@, path@), r@),
            ),
            old(self).runner.leads_to(final(self).runner),
            final(self).state == old(self).state,
            final(self).progress == old(self).progress,
            final(self).apply == old(self).apply,
    {
        let args: [&str; 5] = ["--context", context, "apply", "-f", path];
        let out = self.runner.run("kubectl", &args);
        assert(str_texts(args@) =~= apply_call(context@, path@).args);
        out
    }

    fn delete_manifest(&mut self, context: &str, path: &str) -> (r: Output)
        ensures
            final(self).runner.events() == old(self).runner.events().push(
                Event::Ran(delete_call(context@, path@), r@),
            ),
            old(self).runner.leads_to(final(self).runner),
            final(self).state == old(self).state,
            final(self).progress == old(self).progress,
            final(self).apply == old(self).apply,
    {
        let args: [&str; 7] = [
            "--context",
            context,
            "delete",
            "-f",
            path,
            "--ignore-not-found",
            "--wait=true",
        ];
        let out = self.runner.run("kubectl", &args);
        assert(str_texts(args@) =~= delete_call(context@, path@).args);
        out
    }

    /// Carries one action out. Its artifact has been written to the workspace.
    pub fn perform(&mut self, action: &Action) -> (r: Result<(), Error>)
        ensures
            grew(old(self).runner.events(), final(self).runner.events()),
            old(self).runner.leads_to(final(self).runner),
            asks(since(old(self).runner.events(), final(self).runner.events())) == perform_asks(
                action@,
                old(self).state@.dir,
                since(old(self).runner.events(), final(self).runner.events()),
            ),
            match r {
                Ok(_) => perform_error(
                    action@,
                    since(old(self).runner.events(), final(self).runner.events()),
                ) is None,
                Err(e) => perform_error(
                    action@,
                    since(old(self).runner.events(), final(self).runner.events()),
                ) == Some(e@),
            },
            final(self).state == old(self).state,
            final(self).progress == old(self).progress,
            final(self).apply == old(self).apply,
    {
        broadcast use {group_runner, group_progress};

        let ghost before = self.runner.events();
        let path = match artifact(action) {
            Some((name, _)) => path_under(self.state.dir(), name.as_str()),
            None => String::new(),
        };
        match action {
            Action::CreateKindCluster { name, .. } => {
                let args: [&str; 6] = [
                    "create",
                    "cluster",
                    "--name",
                    name.as_str(),
                    "--config",
                    path.as_str(),
                ];
                let out = self.runner.run("kind", &args);
                proof {
                    let call = create_call(name@, path@);
                    assert(str_texts(args@) =~= call.args);
                    let e = Event::Ran(call, out@);
                    lemma_since(before, seq![e]);
                    assert(before + seq![e] =~= before.push(e));
                    assert(asks(seq![e]) =~= seq![Ask::Run(call)]);
                }
                if !out.success() && !already_exists(out.stderr.as_str()) {
                    return Err(
                        failure(
                            "kind create cluster ",
                            name.as_str(),
                            " failed: ",
                            out.stderr.as_str(),
                        ),
                    );
                }
                Ok(())
            },
            Action::ApplyManifest { role, name, .. } => {
                let context = self.context_for(*role);
                let out = self.apply_manifest(context.as_str(), path.as_str());
                let ghost e0 = Event::Ran(apply_call(context@, path@), out@);
                let recover = !out.success() && is_immutable_error(out.stderr.as_str());
                if !recover {
                    proof {
                        lemma_since(before, seq![e0]);
                        assert(before + seq![e0] =~= before.push(e0));
                        assert(asks(seq![e0]) =~= seq![e0.ask()]);
                    }
                    if out.success() {
                        return Ok(());
                    }
                    return Err(
                        failure(
                            "kubectl apply ",
                            name.as_str(),
                            " failed: ",
                            out.stderr.as_str(),
                        ),
                    );
                }
                let gone = self.delete_manifest(context.as_str(), path.as_str());
                let retry = self.apply_manifest(context.as_str(), path.as_str());
                proof {
                    let e1 = Event::Ran(delete_call(context@, path@), gone@);
                    let e2 = Event::Ran(apply_call(context@, path@), retry@);
                    let log = seq![e0, e1, e2];
                    lemma_since(before, log);
                    assert(before + log =~= before.push(e0).push(e1).push(e2));
                    assert(asks(log) =~= seq![e0.ask(), e1.ask(), e2.ask()]);
                }
                if retry.success() {
                    return Ok(());
                }
                Err(
                    failure(
                        "kubectl apply ",
                        name.as_str(),
                        " failed after delete+retry: ",
                        retry.stderr.as_str(),
                    ),
                )
            },
            Action::WaitReady { role, .. } => {
                let context = self.context_for(*role);
                let args: [&str; 9] = [
                    "--context",
                    context.as_str(),
                    "wait",
                    "--for=condition=ready",
                    "pod",
                    "--all",
                    "--namespace",
                    NAMESPACE,
                    "--timeout=300s",
                ];
                let out = self.runner.run("kubectl", &args);
                proof {
                    let call = wait_call(context@);
                    assert(str_texts(args@) =~= call.args);
                    let e = Event::Ran(call, out@);
                    lemma_since(before, seq![e]);
                    assert(before + seq![e] =~= before.push(e));
                    assert(asks(seq![e]) =~= seq![Ask::Run(call)]);
                }
                Ok(())
            },
        }
    }

    /// Notes the step that an action reaches, if it is a milestone.
    pub fn advance_for(&mut self, action: &Action)
        ensures
            final(self).state@ == after_action(old(self).state@, action@),
            final(self).runner == old(self).runner,
            final(self).progress == old(self).progress,
            final(self).apply == old(self).apply,
    {
        match action {
            Action::WaitReady { role, .. } => {
                match role {
                    ClusterRole::Source => self.state.advance(Step::SourceUp),
                    ClusterRole::Target => self.state.advance(Step::TargetUp),
                }
            },
            Action::ApplyManifest { name, .. } => {
                if same(name.as_str(), "localstack") {
                    self.state.advance(Step::SnapshotUp);
                } else if same(name.as_str(), "data-seed") {
                    self.state.advance(Step::DataSeeded);
                } else if same(name.as_str(), "locust") || same(
                    name.as_str(),
                    "sample-search-app",
                ) {
                    self.state.advance(Step::ClientsUp);
                }
            },
            Action::CreateKindCluster { .. } => {},
        }
    }
}

// ---------------------------------------------------------------------------
// A whole plan
// ---------------------------------------------------------------------------

/// How far a plan has been carried out.
#[derive(Debug, Clone, PartialEq, Eq)]
pub struct Provision {
    pub plan: ProvisionPlan,
    /// The files to write; for an environment in the cloud they are all there is to do.
    pub files: Vec<TfFile>,
    /// Whether the environment is in the cloud.
    pub cloud: bool,
    /// How many actions are done, or files handed out.
    pub at: usize,
    /// Whether the artifact of the next action has been handed out, or all the files have.
    pub written: bool,
    /// Whether the files are going to be applied; if not, it is said how that is done.
    pub apply: bool,
}

/// What a [`Provision`] holds.
#[verifier::ext_equal]
pub struct ProvisionView {
    pub plan: ProvisionPlanView,
    pub files: Seq<TfFileView>,
    pub cloud: bool,
    pub at: int,
    pub written: bool,
    pub apply: bool,
}

impl View for Provision {
    type V = ProvisionView;

    open spec fn view(&self) -> ProvisionView {
        ProvisionView {
            plan: self.plan@,
            files: file_views(self.files@),
            cloud: self.cloud,
            at: self.at as int,
            written: self.written,
            apply: self.apply,
        }
    }
}

impl ProvisionView {
    /// Nothing is done yet.
    pub open spec fn start(a: AnswersView) -> ProvisionView {
        ProvisionView {
            plan: plan_for(a),
            files: if a.target == Some(Target::Cloud) {
                files_for(a)
            } else {
                seq![]
            },
            cloud: a.target == Some(Target::Cloud),
            at: 0,
            written: false,
            apply: false,
        }
    }

    /// Whether an action is left.
    pub open spec fn pending(self) -> bool {
        !self.cloud && self.at < self.plan.actions.len()
    }

    /// The next action.
    pub open spec fn action(self) -> ActionView {
        self.plan.actions[self.at]
    }

    /// Whether the next action can be carried out at once: its artifact is written, or it needs none.
    pub open spec fn performs(self) -> bool {
        self.pending() && (self.written || artifact_of(self.action()) is None)
    }

    /// What is asked to go on.
    pub open spec fn asks(self, dir: Seq<char>, log: Seq<Event>) -> Seq<Ask> {
        if self.performs() {
            perform_asks(self.action(), dir, log)
        } else {
            seq![]
        }
    }

    /// What goes wrong when going on.
    pub open spec fn error(self, log: Seq<Event>) -> Option<ErrorView> {
        if self.performs() {
            perform_error(self.action(), log)
        } else {
            None
        }
    }

    /// What is handed out next, if nothing goes wrong.
    pub open spec fn job(self, dir: Seq<char>) -> JobView {
        if self.cloud {
            if self.at < self.files.len() {
                JobView::Write {
                    path: path_in(dir, self.files[self.at].path),
                    body: self.files[self.at].body,
                }
            } else {
                JobView::Done
            }
        } else if !self.pending() {
            JobView::Done
        } else if self.performs() {
            JobView::Save
        } else {
            let f = artifact_of(self.action())->0;
            JobView::Write { path: path_in(dir, f.path), body: f.body }
        }
    }

    /// How far the plan is after going on.
    pub open spec fn next(self, log: Seq<Event>) -> ProvisionView {
        if self.cloud {
            if self.at < self.files.len() {
                ProvisionView { at: self.at + 1, ..self }
            } else {
                ProvisionView { written: true, ..self }
            }
        } else if !self.pending() || self.error(log) is Some {
            self
        } else if self.performs() {
            ProvisionView { at: self.at + 1, written: false, ..self }
        } else {
            ProvisionView { written: true, ..self }
        }
    }

    /// The state after going on.
    pub open spec fn state(self, s: StateView, log: Seq<Event>) -> StateView {
        if self.performs() && self.error(log) is None {
            after_action(s, self.action())
        } else {
            s
        }
    }

    /// What is said when going on.
    pub open spec fn says(self) -> Seq<Said> {
        if self.cloud {
            if 0 < self.at <= self.files.len() && !self.written {
                let wrote = seq![Said::Info("wrote "@ + self.files[self.at - 1].path)];
                if self.at == self.files.len() && !self.apply {
                    wrote.push(
                        Said::Info(
                            "review the terraform/ files, then run `terraform init && terraform apply`"@,
                        ),
                    )
                } else {
                    wrote
                }
            } else {
                seq![]
            }
        } else if self.pending() && !self.written {
            seq![Said::Step(self.action().description())]
        } else {
            seq![]
        }
    }

    /// How much is left to do.
    pub open spec fn left(self) -> int {
        if self.cloud {
            self.files.len() - self.at + if self.written {
                0int
            } else {
                1
            }
        } else {
            2 * (self.plan.actions.len() - self.at) - if self.written {
                1int
            } else {
                0
            }
        }
    }

    /// The counter has not run past the end.
    pub open spec fn wf(self) -> bool {
        if self.cloud {
            0 <= self.at <= self.files.len() && (self.written ==> self.at == self.files.len())
        } else {
            0 <= self.at <= self.plan.actions.len() && (self.written ==> self.pending())
        }
    }
}

impl<R: CommandRunner, P: Progress> App<R, P> {
    /// Begins to carry out the plan for `answers`.
    pub fn provision(&mut self, answers: &Answers) -> (r: Provision)
        ensures
            r@ == (ProvisionView { apply: old(self).apply, ..ProvisionView::start(answers@) }),
            r@.wf(),
            final(self).apply == old(self).apply,
            final(self).runner == old(self).runner,
            final(self).state == old(self).state,
            old(self).progress.leads_to(final(self).progress),
            final(self).progress.said() == old(self).progress.said() + (if r@.cloud {
                seq![Said::Step("Emitting Terraform (cloud)"@)]
            } else {
                seq![]
            }),
    {
        broadcast use {group_runner, group_progress};

        let cloud = answers.target == Some(Target::Cloud);
        let ghost said = self.progress.said();
        let mut list: Vec<TfFile> = Vec::new();
        assert(file_views(list@) =~= seq![]);
        if cloud {
            self.progress.step("Emitting Terraform (cloud)");
            list = files(answers);
            assert(self.progress.said() =~= said + seq![
                Said::Step("Emitting Terraform (cloud)"@),
            ]);
        } else {
            assert(said =~= said + seq![]);
        }
        Provision {
            plan: build(answers),
            files: list,
            cloud,
            at: 0,
            written: false,
            apply: self.apply,
        }
    }

    /// Goes on with a plan, the last job being done. An action is announced, its artifact is handed
    /// out to be written, the action is carried out, and the state is handed out to be saved.
    pub fn proceed(&mut self, p: &mut Provision) -> (r: Result<Job, Error>)
        requires
            old(p)@.wf(),
        ensures
            grew(old(self).runner.events(), final(self).runner.events()),
            old(self).runner.leads_to(final(self).runner),
            old(self).progress.leads_to(final(self).progress),
            asks(since(old(self).runner.events(), final(self).runner.events())) == old(p)@.asks(
                old(self).state@.dir,
                since(old(self).runner.events(), final(self).runner.events()),
            ),
            match r {
                Ok(job) => job@ == old(p)@.job(old(self).state@.dir) && old(p)@.error(
                    since(old(self).runner.events(), final(self).runner.events()),
                ) is None,
                Err(e) => old(p)@.error(
                    since(old(self).runner.events(), final(self).runner.events()),
                ) == Some(e@),
            },
            final(p)@ == old(p)@.next(
                since(old(self).runner.events(), final(self).runner.events()),
            ),
            final(p)@.wf(),
            final(self).state@ == old(p)@.state(
                old(self).state@,
                since(old(self).runner.events(), final(self).runner.events()),
            ),
            final(self).apply == old(self).apply,
            final(self).progress.said() == old(self).progress.said() + old(p)@.says(),
    {
        broadcast use {group_runner, group_progress};

        let ghost before = self.runner.events();
        let ghost said = self.progress.said();
        let ghost start = p@;
        proof {
            lemma_since(before, seq![]);
            assert(before + seq![] =~= before);
            assert(asks(seq![]) =~= seq![]);
            assert(said =~= said + seq![]);
        }
        assert(p@.files.len() == p.files@.len());
        assert(p@.plan.actions.len() == p.plan.actions@.len());
        if p.cloud {
            return Ok(self.emit(p));
        }
        if p.at >= p.plan.actions.len() {
            return Ok(Job::Done);
        }
        assert(start.action() == p.plan.actions@[p.at as int]@);
        if !p.written {
            let text = p.plan.actions[p.at].describe();
            self.progress.step(text.as_str());
            assert(self.progress.said() =~= said + start.says());
            if let Some((name, body)) = artifact(&p.plan.actions[p.at]) {
                p.written = true;
                assert(p@ =~= start.next(seq![]));
                return Ok(Job::Write { path: path_under(self.state.dir(), name.as_str()), body });
            }
        }
        match self.perform(&p.plan.actions[p.at]) {
            Ok(_) => {
                self.advance_for(&p.plan.actions[p.at]);
                p.at = p.at + 1;
                p.written = false;
                assert(p@ =~= start.next(since(before, self.runner.events())));
                Ok(Job::Save)
            },
            Err(e) => Err(e),
        }
    }

    fn emit(&mut self, p: &mut Provision) -> (r: Job)
        requires
            old(p)@.wf(),
            old(p)@.cloud,
        ensures
            r@ == old(p)@.job(old(self).state@.dir),
            final(p)@ == old(p)@.next(seq![]),
            final(self).runner == old(self).runner,
            final(self).state == old(self).state,
            old(self).progress.leads_to(final(self).progress),
            final(self).apply == old(self).apply,
            final(self).progress.said() == old(self).progress.said() + old(p)@.says(),
    {
        broadcast use {group_runner, group_progress};

        let ghost said = self.progress.said();
        let ghost start = p@;
        assert(p@.files.len() == p.files@.len());
        assert(said =~= said + seq![]);
        let n: usize = p.files.len();
        if p.at > 0 && !p.written {
            assert(start.files[p.at - 1] == p.files@[p.at - 1]@);
            let text = "wrote ".to_string().concat(p.files[p.at - 1].path.as_str());
            self.progress.info(text.as_str());
            if p.at == n && !p.apply {
                self.progress.info(
                    "review the terraform/ files, then run `terraform init && terraform apply`",
                );
            }
            assert(self.progress.said() =~= said + start.says());
        }
        if p.at < n {
            assert(start.files[p.at as int] == p.files@[p.at as int]@);
            let path = path_under(self.state.dir(), p.files[p.at].path.as_str());
            let body = p.files[p.at].body.clone();
            p.at = p.at + 1;
            assert(p@ =~= start.next(seq![]));
            Job::Write { path, body }
        } else {
            p.written = true;
            assert(p@ =~= start.next(seq![]));
            Job::Done
        }
    }
}

// ---------------------------------------------------------------------------
// Installing the Migration Assistant
// ---------------------------------------------------------------------------

/// How far the installation of the Migration Assistant is.
#[derive(Debug, Clone, Copy, PartialEq, Eq, Structural)]
pub enum Install {
    /// Nothing is done.
    Begin,
    /// The directory for it is made.
    DirMade,
    /// It is installed.
    Installed,
    /// It is installed, and that was said.
    Finished,
}

/// The directory that the Migration Assistant is installed into.
pub open spec fn bin_dir(dir: Seq<char>) -> Seq<char> {
    path_in(dir, "bin"@)
}

/// The command that installs the Migration Assistant.
pub open spec fn install_call(dir: Seq<char>) -> CallView {
    command("bash"@, seq!["-c"@, install_script(bin_dir(dir))])
}

impl Install {
    /// How far this is.
    pub open spec fn place(self) -> int {
        match self {
            Install::Begin => 0,
            Install::DirMade => 1,
            Install::Installed => 2,
            Install::Finished => 3,
        }
    }

    /// What is asked to go on.
    pub open spec fn asks(self, dir: Seq<char>) -> Seq<Ask> {
        if self == Install::DirMade {
            seq![Ask::Run(install_call(dir))]
        } else {
            seq![]
        }
    }

    /// What goes wrong when going on.
    pub open spec fn error(self, log: Seq<Event>) -> Option<ErrorView> {
        if self == Install::DirMade && !log[0].output().ok() {
            Some(
                fatal(
                    "Migration Assistant install failed: "@ + trimmed(log[0].output().stderr),
                ),
            )
        } else {
            None
        }
    }

    /// What is handed out next, if nothing goes wrong.
    pub open spec fn job(self, dir: Seq<char>) -> JobView {
        match self {
            Install::Begin => JobView::MakeDir { path: bin_dir(dir) },
            Install::DirMade => JobView::Save,
            Install::Installed => JobView::Done,
            Install::Finished => JobView::Done,
        }
    }

    /// How far the installation is after going on.
    pub open spec fn next(self, log: Seq<Event>) -> Install {
        match self {
            Install::Begin => Install::DirMade,
            Install::DirMade => if self.error(log) is Some {
                self
            } else {
                Install::Installed
            },
            Install::Installed => Install::Finished,
            Install::Finished => Install::Finished,
        }
    }

    /// The state after going on.
    pub open spec fn state(self, s: StateView, log: Seq<Event>) -> StateView {
        if self == Install::DirMade && self.error(log) is None {
            s.advanced(Step::Ready)
        } else {
            s
        }
    }

    /// What is said when going on.
    pub open spec fn says(self, dir: Seq<char>) -> Seq<Said> {
        match self {
            Install::Begin => seq![Said::Step("Installing Migration Assistant CLI"@)],
            Install::Installed => seq![
                Said::Info(
                    "Migration Assistant "@ + MA_VERSION@ + " installed at "@ + ma_program(
                        bin_dir(dir),
                    ),
                ),
            ],
            _ => seq![],
        }
    }
}

impl<R: CommandRunner, P: Progress> App<R, P> {
    /// The directory that the Migration Assistant is installed into.
    fn bin(&self) -> (r: String)
        ensures
            r@ == bin_dir(self.state@.dir),
    {
        path_under(self.state.dir(), "bin")
    }

    /// Goes on with the installation of the Migration Assistant, the last job being done: the
    /// directory for it is handed out to be made, it is installed, the state is handed out to be
    /// saved, and that is said.
    pub fn install_ma(&mut self, stage: &mut Install) -> (r: Result<Job, Error>)
        ensures
            grew(old(self).runner.events(), final(self).runner.events()),
            old(self).runner.leads_to(final(self).runner),
            old(self).progress.leads_to(final(self).progress),
            asks(since(old(self).runner.events(), final(self).runner.events())) == old(stage).asks(
                old(self).state@.dir,
            ),
            match r {
                Ok(job) => job@ == old(stage).job(old(self).state@.dir) && old(stage).error(
                    since(old(self).runner.events(), final(self).runner.events()),
                ) is None,
                Err(e) => old(stage).error(
                    since(old(self).runner.events(), final(self).runner.events()),
                ) == Some(e@),
            },
            *final(stage) == old(stage).next(
                since(old(self).runner.events(), final(self).runner.events()),
            ),
            final(self).state@ == old(stage).state(
                old(self).state@,
                since(old(self).runner.events(), final(self).runner.events()),
            ),
            final(self).apply == old(self).apply,
            final(self).progress.said() == old(self).progress.said() + old(stage).says(
                old(self).state@.dir,
            ),
    {
        broadcast use {group_runner, group_progress};

        let ghost before = self.runner.events();
        let ghost said = self.progress.said();
        proof {
            lemma_since(before, seq![]);
            assert(before + seq![] =~= before);
            assert(asks(seq![]) =~= seq![]);
            assert(said =~= said + seq![]);
        }
        match *stage {
            Install::Begin => {
                self.progress.step("Installing Migration Assistant CLI");
                *stage = Install::DirMade;
                assert(self.progress.said() =~= said + seq![
                    Said::Step("Installing Migration Assistant CLI"@),
                ]);
                Ok(Job::MakeDir { path: self.bin() })
            },
            Install::DirMade => {
                let script = ma_install_command(self.bin().as_str());
                let args: [&str; 2] = ["-c", script.as_str()];
                let out = self.runner.run("bash", &args);
                proof {
                    let call = install_call(self.state@.dir);
                    assert(str_texts(args@) =~= call.args);
                    let e = Event::Ran(call, out@);
                    lemma_since(before, seq![e]);
                    assert(before + seq![e] =~= before.push(e));
                    assert(asks(seq![e]) =~= seq![Ask::Run(call)]);
                }
                if !out.success() {
                    let message = "Migration Assistant install failed: ".to_string().concat(
                        trim(out.stderr.as_str()),
                    );
                    return Err(Error::die(message.as_str()));
                }
                self.state.advance(Step::Ready);
                *stage = Install::Installed;
                Ok(Job::Save)
            },
            Install::Installed => {
                let text = "Migration Assistant ".to_string().concat(MA_VERSION).concat(
                    " installed at ",
                ).concat(self.bin().as_str()).concat("/migration-assistant");
                self.progress.info(text.as_str());
                *stage = Install::Finished;
                assert(text@ =~= "Migration Assistant "@ + MA_VERSION@ + " installed at "@
                    + ma_program(bin_dir(self.state@.dir)));
                assert(self.progress.said() =~= said + seq![Said::Info(text@)]);
                Ok(Job::Done)
            },
            Install::Finished => Ok(Job::Done),
        }
    }

    /// The command line that starts the installed Migration Assistant.
    pub fn launch_argv(&self) -> (r: Vec<String>)
        ensures
            texts(r@) == seq![ma_program(bin_dir(self.state@.dir))],
    {
        ma_launch_argv(self.bin().as_str())
    }
}

// ---------------------------------------------------------------------------
// What holds of every run
// ---------------------------------------------------------------------------

/// A plan that goes on without failing comes to its end: there is always less left to do.
pub proof fn law_every_plan_comes_to_an_end(p: ProvisionView, dir: Seq<char>, log: Seq<Event>)
    requires
        p.wf(),
        p.error(log) is None,
    ensures
        p.next(log).wf(),
        p.left() >= 0,
        p.job(dir) != JobView::Done ==> p.next(log).left() < p.left(),
{
}

/// A command is given the file that was handed out to be written for it.
pub proof fn law_commands_use_what_was_written(
    p: ProvisionView,
    dir: Seq<char>,
    none: Seq<Event>,
    log: Seq<Event>,
)
    requires
        p.wf(),
        p.pending(),
        !p.performs(),
    ensures
        p.job(dir) is Write,
        p.job(dir)->body == artifact_of(p.action())->0.body,
        p.next(none).performs(),
        p.next(none).asks(dir, log)[0] == match p.action() {
            ActionView::CreateKindCluster { name, .. } => Ask::Run(
                create_call(name, p.job(dir)->Write_path),
            ),
            _ => Ask::Run(
                apply_call(
                    context_text(cluster_text(p.action().role())),
                    p.job(dir)->Write_path,
                ),
            ),
        },
{
}

/// After every action that is carried out the state is saved; where one fails, the plan does not go
/// on and the state stays as it was.
pub proof fn law_actions_are_saved_or_stop_the_plan(
    p: ProvisionView,
    dir: Seq<char>,
    s: StateView,
    log: Seq<Event>,
)
    requires
        p.performs(),
    ensures
        p.error(log) is None ==> p.job(dir) == JobView::Save && p.next(log).at == p.at + 1,
        p.error(log) is Some ==> p.next(log) == p && p.state(s, log) == s,
{
}

/// For an environment in the cloud nothing is run: files are written, and that is all.
pub proof fn law_nothing_is_run_for_the_cloud(
    a: AnswersView,
    p: ProvisionView,
    dir: Seq<char>,
    log: Seq<Event>,
)
    requires
        p.cloud,
    ensures
        p.asks(dir, log).len() == 0,
        p.error(log) is None,
        p.job(dir) is Write || p.job(dir) is Done,
        p.next(log).cloud,
        ProvisionView::start(a).cloud <==> a.target == Some(Target::Cloud),
{
}

/// The state after the first `n` actions of a list.
pub open spec fn after_actions(s: StateView, actions: Seq<ActionView>, n: int) -> StateView
    decreases n,
{
    if n <= 0 || n > actions.len() {
        s
    } else {
        after_action(after_actions(s, actions, n - 1), actions[n - 1])
    }
}

/// Whatever milestone stands in a plan has been reached when the plan is carried out.
pub proof fn law_milestones_are_reached(s: StateView, actions: Seq<ActionView>, n: int, i: int)
    requires
        0 <= i < n <= actions.len(),
        milestone(actions[i]) is Some,
    ensures
        after_actions(s, actions, n).plan.step.place() >= (milestone(actions[i])->0).place(),
        after_actions(s, actions, n).plan.answers == s.plan.answers,
    decreases n,
{
    if i < n - 1 {
        law_milestones_are_reached(s, actions, n - 1, i);
    } else {
        lemma_answers_stay(s, actions, n - 1);
    }
}

proof fn lemma_answers_stay(s: StateView, actions: Seq<ActionView>, n: int)
    requires
        0 <= n <= actions.len(),
    ensures
        after_actions(s, actions, n).plan.answers == s.plan.answers,
    decreases n,
{
    if n > 0 {
        lemma_answers_stay(s, actions, n - 1);
    }
}

/// A local plan that is carried out has its source up, and its target where one is provisioned in a
/// cluster.
pub proof fn law_a_finished_plan_is_up(s: StateView, a: AnswersView)
    requires
        a.target == Some(Target::Local),
    ensures
        ({
            let actions = plan_for(a).actions;
            let end = after_actions(s, actions, actions.len() as int);
            &&& end.plan.step.place() >= Step::SourceUp.place()
            &&& a.local_target() ==> end.plan.step.place() >= Step::TargetUp.place()
        }),
{
    let actions = plan_for(a).actions;
    let n = actions.len() as int;
    let src = source_actions(a);
    let first = start_actions(a) + storage_actions(a);
    let i = first.len() + 1;
    assert(engine_actions(a)[1] == src[i as int]);
    assert(actions[i as int] == src[i as int]);
    law_milestones_are_reached(s, actions, n, i as int);
    if a.local_target() {
        assert(actions[n - 1] == target_actions(a)[3]);
        law_milestones_are_reached(s, actions, n, n - 1);
    }
}

/// The first command for an action.
pub open spec fn first_call(action: ActionView, dir: Seq<char>, log: Seq<Event>) -> CallView {
    perform_asks(action, dir, log)[0]->Run_0
}

/// A command does what its action says: a cluster is created under its name from the file that was
/// written for it, a manifest is applied from its file in the cluster that it is for, and what is
/// waited for is in that cluster.
pub proof fn law_commands_do_what_their_actions_say(
    action: ActionView,
    dir: Seq<char>,
    log: Seq<Event>,
)
    ensures
        ({
            let call = first_call(action, dir, log);
            let cluster = match action.role() {
                ClusterRole::Source => "ma-demo"@ + "-source"@,
                ClusterRole::Target => "ma-demo"@ + "-target"@,
            };
            let context = "kind-"@ + cluster;
            &&& perform_asks(action, dir, log).len() > 0
            &&& perform_asks(action, dir, log)[0] == Ask::Run(call)
            &&& match action {
                ActionView::CreateKindCluster { name, .. } => {
                    &&& call.program == "kind"@
                    &&& call.passes("create"@, "cluster"@)
                    &&& call.passes("--name"@, name)
                    &&& call.passes("--config"@, path_in(dir, "kind-"@ + name + ".yaml"@))
                },
                ActionView::ApplyManifest { role, name, .. } => {
                    &&& call.program == "kubectl"@
                    &&& call.passes("--context"@, context)
                    &&& call.args.contains("apply"@)
                    &&& call.passes(
                        "-f"@,
                        path_in(
                            dir,
                            (if role == ClusterRole::Source {
                                "source"@
                            } else {
                                "target"@
                            }) + "-"@ + name + ".yaml"@,
                        ),
                    )
                },
                ActionView::WaitReady { .. } => {
                    &&& call.program == "kubectl"@
                    &&& call.passes("--context"@, context)
                    &&& call.passes("wait"@, "--for=condition=ready"@)
                    &&& call.passes("pod"@, "--all"@)
                    &&& call.passes("--namespace"@, "ma-demo"@)
                    &&& call.args.last() == "--timeout=300s"@
                },
            }
        }),
{
    let call = first_call(action, dir, log);
    match action {
        ActionView::CreateKindCluster { name, .. } => {
            lemma_passes(call, 0, "create"@, "cluster"@);
            lemma_passes(call, 2, "--name"@, name);
            lemma_passes(call, 4, "--config"@, call.args[5]);
        },
        ActionView::ApplyManifest { .. } => {
            lemma_passes(call, 0, "--context"@, call.args[1]);
            lemma_passes(call, 3, "-f"@, call.args[4]);
            assert(call.args[2] == "apply"@);
        },
        ActionView::WaitReady { .. } => {
            lemma_passes(call, 0, "--context"@, call.args[1]);
            lemma_passes(call, 6, "--namespace"@, "ma-demo"@);
            lemma_passes(call, 2, "wait"@, "--for=condition=ready"@);
            lemma_passes(call, 4, "pod"@, "--all"@);
        },
    }
}

/// A manifest that was refused because it cannot be changed in place is deleted, in the same cluster
/// and from the same file, and then applied once more; one that was taken, or refused for another
/// reason, is not tried again.
pub proof fn law_what_cannot_be_changed_is_replaced(
    role: ClusterRole,
    name: Seq<char>,
    body: Seq<char>,
    dir: Seq<char>,
    log: Seq<Event>,
)
    ensures
        ({
            let action = ActionView::ApplyManifest { role, name, body };
            let all = perform_asks(action, dir, log);
            let first = first_call(action, dir, log);
            let out = log[0].output();
            let refused = out.status != 0 && (contains(out.stderr, "field is immutable"@) || contains(
                out.stderr,
                "may not be changed"@,
            ) || (contains(out.stderr, "updates to"@) && contains(out.stderr, "are forbidden"@)));
            &&& all.len() == if refused {
                3int
            } else {
                1
            }
            &&& refused ==> {
                let second = all[1]->Run_0;
                &&& all[1] == Ask::Run(second)
                &&& second.program == "kubectl"@
                &&& second.args.contains("delete"@)
                &&& second.passes("--context"@, first.args[1])
                &&& second.passes("-f"@, first.args[4])
                &&& second.passes("--ignore-not-found"@, "--wait=true"@)
                &&& all[2] == Ask::Run(first)
            }
        }),
{
    let action = ActionView::ApplyManifest { role, name, body };
    let all = perform_asks(action, dir, log);
    if all.len() == 3 {
        let second = all[1]->Run_0;
        lemma_passes(second, 0, "--context"@, second.args[1]);
        lemma_passes(second, 3, "-f"@, second.args[4]);
        lemma_passes(second, 5, "--ignore-not-found"@, "--wait=true"@);
        assert(second.args[2] == "delete"@);
    }
}

/// What ends a plan: a cluster that cannot be created and is not there already, and a manifest that
/// cannot be applied, not even anew; never that something is not ready in time. The error names what
/// failed and says why.
pub proof fn law_what_ends_a_plan(action: ActionView, log: Seq<Event>)
    ensures
        ({
            let out = log[0].output();
            let e = perform_error(action, log);
            &&& e is Some ==> (e->0).code == 1
            &&& match action {
                ActionView::CreateKindCluster { name, .. } => {
                    &&& e is None <==> out.status == 0 || contains(out.stderr, "already exist"@)
                    &&& e is Some ==> (e->0).message == "kind create cluster "@ + name
                        + " failed: "@ + trimmed(out.stderr)
                },
                ActionView::ApplyManifest { name, .. } => {
                    &&& out.status == 0 ==> e is None
                    &&& out.status != 0 && immutable(out.stderr) ==> (e is None
                        <==> log[2].output().status == 0)
                    &&& out.status != 0 && !immutable(out.stderr) ==> e is Some && (e->0).message
                        == "kubectl apply "@ + name + " failed: "@ + trimmed(out.stderr)
                    &&& out.status != 0 && immutable(out.stderr) && e is Some ==> (e->0).message
                        == "kubectl apply "@ + name + " failed after delete+retry: "@ + trimmed(
                        log[2].output().stderr,
                    )
                },
                ActionView::WaitReady { .. } => e is None,
            }
        }),
{
}

/// The file of an action holds what the action describes, under a name that tells the role and the
/// name of what it is for.
pub proof fn law_the_file_of_an_action(action: ActionView)
    ensures
        match action {
            ActionView::CreateKindCluster { name, config, .. } => artifact_of(action) == Some(
                TfFileView { path: "kind-"@ + name + ".yaml"@, body: config },
            ),
            ActionView::ApplyManifest { role, name, body } => artifact_of(action) is Some && (
            artifact_of(action)->0).body == body && (artifact_of(action)->0).path == (match role {
                ClusterRole::Source => "source"@,
                ClusterRole::Target => "target"@,
            }) + "-"@ + name + ".yaml"@,
            ActionView::WaitReady { .. } => artifact_of(action) is None,
        },
{
}

/// The milestones: the source is up once it was waited for, the target likewise; snapshots, client
/// applications and sample data are there once they were applied. Nothing else is a milestone.
pub proof fn law_the_milestones(action: ActionView)
    ensures
        match action {
            ActionView::WaitReady { role, .. } => milestone(action) == Some(
                if role == ClusterRole::Source {
                    Step::SourceUp
                } else {
                    Step::TargetUp
                },
            ),
            ActionView::ApplyManifest { name, .. } => {
                &&& name == "localstack"@ ==> milestone(action) == Some(Step::SnapshotUp)
                &&& name == "data-seed"@ ==> milestone(action) == Some(Step::DataSeeded)
                &&& name == "locust"@ ==> milestone(action) == Some(Step::ClientsUp)
                &&& name == "sample-search-app"@ ==> milestone(action) == Some(Step::ClientsUp)
                &&& name == "source"@ || name == "target"@ || name == "namespace"@ ==> milestone(
                    action,
                ) is None
            },
            ActionView::CreateKindCluster { .. } => milestone(action) is None,
        },
{
    reveal_strlit("localstack");
    reveal_strlit("data-seed");
    reveal_strlit("locust");
    reveal_strlit("sample-search-app");
    reveal_strlit("source");
    reveal_strlit("target");
    reveal_strlit("namespace");
    assert("localstack"@.len() == 10 && "data-seed"@.len() == 9 && "locust"@.len() == 6);
    assert("sample-search-app"@.len() == 17 && "source"@.len() == 6 && "target"@.len() == 6);
    assert("namespace"@.len() == 9 && "namespace"@[0] == 'n' && "data-seed"@[0] == 'd');
    assert("locust"@[0] == 'l' && "source"@[0] == 's' && "target"@[0] == 't');
}

/// A local environment needs docker, kind, kubectl and curl, which are looked for in that order up to
/// the first that is missing, and Docker itself, which is asked last. The first tool that is missing
/// is the one that the error names. An environment in the cloud needs none of them.
pub proof fn law_what_a_local_environment_needs(a: AnswersView, log: Seq<Event>)
    ensures
        ({
            let all = preflight_asks(a, log);
            let e = preflight_error(a, log);
            let f = |i: int| log[i].found();
            let missing = |name: Seq<char>|
                Some(fatal("required tool not found on PATH: "@ + name + ". Install it and re-run."@));
            &&& a.target != Some(Target::Local) ==> all.len() == 0 && e is None
            &&& a.target == Some(Target::Local) ==> {
                &&& all.len() > 0 && all[0] == Ask::Find("docker"@)
                &&& !f(0) ==> all.len() == 1 && e == missing("docker"@)
                &&& f(0) ==> all.len() > 1 && all[1] == Ask::Find("kind"@)
                &&& f(0) && !f(1) ==> all.len() == 2 && e == missing("kind"@)
                &&& f(0) && f(1) ==> all.len() > 2 && all[2] == Ask::Find("kubectl"@)
                &&& f(0) && f(1) && !f(2) ==> all.len() == 3 && e == missing("kubectl"@)
                &&& f(0) && f(1) && f(2) ==> all.len() > 3 && all[3] == Ask::Find("curl"@)
                &&& f(0) && f(1) && f(2) && !f(3) ==> all.len() == 4 && e == missing("curl"@)
                &&& f(0) && f(1) && f(2) && f(3) ==> all.len() == 5 && all[4] == Ask::Run(
                    command("docker"@, seq!["info"@]),
                ) && (e is None <==> log[4].output().status == 0)
            }
        }),
{
    reveal_with_fuel(first_missing, 5);
    assert(tool_lookups(4).push(Ask::Run(docker_query())).len() == 5);
}

/// The Migration Assistant is installed by the script for the directory of this workspace, after that
/// directory was made; a script that fails ends the run with what it said, and one that succeeds has
/// the plan recorded as ready.
pub proof fn law_the_assistant_is_installed_here(dir: Seq<char>, s: StateView, log: Seq<Event>)
    ensures
        Install::Begin.job(dir) == (JobView::MakeDir { path: path_in(dir, "bin"@) }),
        Install::DirMade.asks(dir) == seq![
            Ask::Run(command("bash"@, seq!["-c"@, install_script(path_in(dir, "bin"@))])),
        ],
        Install::DirMade.error(log) is None <==> log[0].output().status == 0,
        Install::DirMade.error(log) is Some ==> (Install::DirMade.error(log)->0).message
            == "Migration Assistant install failed: "@ + trimmed(log[0].output().stderr),
        log[0].output().status == 0 ==> Install::DirMade.state(s, log).plan.step == Step::Ready
            && Install::DirMade.job(dir) == JobView::Save && Install::DirMade.next(log)
            == Install::Installed,
        log[0].output().status != 0 ==> Install::DirMade.state(s, log) == s,
        Install::Begin.asks(dir).len() == 0 && Install::Installed.asks(dir).len() == 0
            && Install::Finished.asks(dir).len() == 0,
        Install::Begin.next(log) == Install::DirMade && Install::Installed.next(log)
            == Install::Finished,
{
}

/// A collection is reached at the endpoint of its description once it is active, and not before.
pub proof fn law_a_collection_is_reached_once_active(
    status: Seq<char>,
    endpoint: Seq<char>,
    rest: Seq<char>,
)
    requires
        status == "ACTIVE"@ || status == "CREATING"@ || status == "DELETING"@ || status
            == "FAILED"@,
        !endpoint.contains('"'),
        endpoint.len() > 0,
    ensures
        endpoint_in(
            "{\"collectionDetails\":[{"@ + "\"status\""@ + ":\""@ + status + "\","@
                + "\"collectionEndpoint\""@ + ":\""@ + endpoint + "\""@ + rest,
        ) == if status == "ACTIVE"@ {
            Some(endpoint)
        } else {
            None
        },
{
    let open = "{\"collectionDetails\":[{"@;
    let k1 = "\"status\""@;
    let k2 = "\"collectionEndpoint\""@;
    let q = ":\""@;
    let json = open + k1 + q + status + "\","@ + k2 + q + endpoint + "\""@ + rest;
    lemma_collection_literals();
    let e = Seq::<char>::empty();
    let after1 = ","@ + k2 + q + endpoint + "\""@ + rest;
    reveal_strlit("\"");
    reveal_strlit(",");
    assert("\","@ =~= "\""@ + ","@) by {
        reveal_strlit("\",");
    }
    assert(json =~= open + k1 + q + status + "\""@ + after1);
    assert forall|i: int| 0 <= i < open.len() implies !occurs_at(json, k1, i) by {
        assert(json[i] == open[i] && json[i + 1] == (open + k1)[i + 1]);
        if occurs_at(json, k1, i) {
            assert(json.subrange(i, i + k1.len())[0] == json[i]);
            assert(json.subrange(i, i + k1.len())[1] == json[i + 1]);
        }
    }
    law_a_value_is_read_after_its_key(open, k1, status, after1);
    let front = open + k1 + q + status + "\","@;
    let after2 = rest;
    assert(json =~= front + k2 + q + endpoint + "\""@ + after2);
    assert forall|i: int| 0 <= i < front.len() implies !occurs_at(json, k2, i) by {
        assert(json[i] == front[i] && json[i + 1] == (front + k2)[i + 1]);
        if occurs_at(json, k2, i) {
            let cut = json.subrange(i, i + k2.len());
            assert(cut[0] == json[i] && cut[1] == json[i + 1] && cut[11] == json[i + 11]);
            lemma_collection_front(status, i);
        }
    }
    law_a_value_is_read_after_its_key(front, k2, endpoint, after2);
    assert(status == "ACTIVE"@ || status != "ACTIVE"@);
}

proof fn lemma_collection_literals()
    ensures
        "{\"collectionDetails\":[{"@.len() == 23,
        forall|i: int|
            0 <= i < 23 && #[trigger] "{\"collectionDetails\":[{"@[i] == '"' ==> i == 1 || i == 19,
        "{\"collectionDetails\":[{"@[2] == 'c',
        "{\"collectionDetails\":[{"@[20] == ':',
        "{\"collectionDetails\":[{"@[12] == 'D',
        "\"status\""@.len() == 8,
        "\"status\""@[0] == '"' && "\"status\""@[1] == 's',
        "\"collectionEndpoint\""@.len() == 20,
        "\"collectionEndpoint\""@[0] == '"' && "\"collectionEndpoint\""@[1] == 'c'
            && "\"collectionEndpoint\""@[11] == 'E',
        !"ACTIVE"@.contains('"') && !"CREATING"@.contains('"') && !"DELETING"@.contains('"')
            && !"FAILED"@.contains('"'),
{
    reveal_strlit("{\"collectionDetails\":[{");
    reveal_strlit("\"status\"");
    reveal_strlit("\"collectionEndpoint\"");
    reveal_strlit("ACTIVE");
    reveal_strlit("CREATING");
    reveal_strlit("DELETING");
    reveal_strlit("FAILED");
}

/// Before the endpoint of a description no quoted word begins as its key does.
proof fn lemma_collection_front(status: Seq<char>, i: int)
    requires
        status == "ACTIVE"@ || status == "CREATING"@ || status == "DELETING"@ || status
            == "FAILED"@,
        0 <= i < ("{\"collectionDetails\":[{"@ + "\"status\""@ + ":\""@ + status + "\","@).len(),
    ensures
        ({
            let front = "{\"collectionDetails\":[{"@ + "\"status\""@ + ":\""@ + status + "\","@;
            let more = front + "\"collectionEndpoint\""@;
            !(more[i] == '"' && more[i + 1] == 'c' && more[i + 11] == 'E')
        }),
{
    reveal_strlit("{\"collectionDetails\":[{");
    reveal_strlit("\"status\"");
    reveal_strlit(":\"");
    reveal_strlit("\",");
    reveal_strlit("\"collectionEndpoint\"");
    reveal_strlit("ACTIVE");
    reveal_strlit("CREATING");
    reveal_strlit("DELETING");
    reveal_strlit("FAILED");
}

} // verus!
