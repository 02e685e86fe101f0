//! A run of the program, from its command line to its exit code.
//!
//! A [`Session`] goes forward in steps. Each step ends in an [`Effect`] that is to be brought about
//! outside the library: to print something, to read or save the plan, to write a file, to have the
//! plan reviewed, to look for the workspace or remove it, to open the dashboard, to exit. The next
//! step is told in a [`Report`] how that went.

use crate::app::{
    bin_dir, endpoint_in, group_progress, law_every_plan_comes_to_an_end,
    law_who_is_told_nothing_stays, parse_aoss_endpoint, preflight_asks,
    preflight_error, preflight_says, App, Install, Job, JobView, Progress, Provision,
    ProvisionView, Said,
};
use crate::aws::{caller_identity, identity_in, identity_query};
use crate::cli::{
    answers_after, ask_question, asking_error, command_of, endpoint_notes, flag_args, flags_of,
    help_of, help_text, law_a_wizard_that_is_not_asked_stays, lemma_wizard_at_rest, launch_call, launch_error, launch_ma, overridden, override_answers,
    plan_notes, preselection,
    print_endpoints, print_plan, session_for, Command, Flags, FlagsView, Heard, Setup, SetupView,
    Wizardish,
};
use crate::collection::{collection_errands, provisioning, MAX_POLLS};
use crate::context::{context_asks, context_notes, context_of, gather, print_context};
use crate::errand::{errand_views, Errand, ErrandView};
use crate::error::{fatal, Error, ErrorView};
use crate::handoff::{console_argv, console_command, deploy_errands, deployment};
use crate::model::{source_cluster_name, target_cluster_name, Answers, AnswersView, Target};
use crate::plan::{aoss_batch_get_args, collection_query, ma_program};
use crate::runner::{
    asks, command, group_runner, grew, law_a_log_that_stays_tells_of_nothing, lemma_since, since, Ask,
    CallView, CommandRunner, Event, Logged, OutputView,
};
use crate::state::{path_in, Plan, PlanView, StateView, Step};
use crate::terraform::{application, apply_errands};
use crate::text::{join, joined, str_texts, texts, trim, trimmed};
use crate::tui::{OutcomeView, ReviewContext, ReviewContextView, ReviewOutcome};
use crate::ui::{add_note, note_views, Note, NoteView};
use crate::wizard::{
    fill_defaults, filled, law_defaults_complete_the_plan,
    law_next_question_is_the_first_open_one, next_of, next_question_id, question,
    review_rows, review_upto, row_views, step_number, step_of, QuestionId, ReviewRow, ReviewRowView,
};
use vstd::prelude::*;

verus! {

broadcast use {group_runner, group_progress, lemma_wizard_at_rest};

/// Where a session stands.
#[derive(Debug, Clone, Copy, PartialEq, Eq, Structural)]
pub enum Stage {
    /// A run says what it is.
    Greet,
    /// The saved plan is asked for.
    Read,
    /// The saved plan has come back.
    Loaded,
    /// Questions are asked.
    Ask,
    /// The answers are being saved.
    Kept,
    /// What is told before a plan is carried out is found out.
    Gather,
    /// The plan was reviewed.
    Reviewed,
    /// A question is asked again.
    Reask(QuestionId),
    /// The plan is to be carried out.
    Shown,
    /// The checks have passed, and that is being saved.
    Checked,
    /// The plan is being carried out.
    Provision,
    /// The plan was carried out.
    Raised,
    /// The Terraform files are applied.
    Terraform,
    /// The caller at AWS is asked for.
    Identify,
    /// The target collection is created.
    Collection,
    /// The target collection is waited for; it was asked for so often before.
    Await(u64),
    /// The target collection is active, and where it is reached is being saved.
    Reached,
    /// The environment is up.
    Handoff,
    /// The Migration Assistant is being deployed.
    Deploy,
    /// The Migration Assistant is being installed.
    Install,
    /// The Migration Assistant is there.
    Settled,
    /// The dashboard was open.
    Watched,
    /// The Migration Assistant was announced.
    Announced,
    /// Clearing says what it is.
    ClearGreet,
    /// The workspace is looked for.
    ClearLook,
    /// The workspace was looked for.
    ClearLooked,
    /// The workspace is being removed.
    ClearRemoved,
    /// Destroying says what it is.
    DestroyGreet,
    /// The tool for clusters is looked for.
    DestroyFind,
    /// The source cluster is deleted.
    DestroySource,
    /// The target cluster is deleted.
    DestroyTarget,
    /// The workspace is looked for.
    DestroyLook,
    /// The workspace was looked for.
    DestroyLooked,
    /// The workspace is being removed.
    DestroyRemoved,
    /// The saved plan is asked for, to show what is running.
    StatusRead,
    /// The saved plan has come back.
    StatusLoaded,
    /// The dashboard is open.
    StatusShown,
    /// Version, help, or a command that is not known.
    Tell,
    /// The session is over.
    Leave(i32),
}

/// What is to be brought about before the next step.
#[derive(Debug, Clone, PartialEq, Eq)]
pub enum Effect {
    /// Print these notes.
    Print(Vec<Note>),
    /// Read the saved plan.
    Load { path: String },
    /// Save the state.
    Save,
    /// Do a job of the app.
    Do(Job),
    /// Find out whether a path exists.
    Look { path: String },
    /// Remove a directory and all that is in it.
    Remove { path: String },
    /// Have the plan reviewed.
    Review { rows: Vec<ReviewRow>, context: ReviewContext },
    /// Open the dashboard, until it is closed.
    Dashboard,
    /// Wait a moment.
    Pause,
    /// Nothing.
    Again,
    /// Exit with a code.
    Exit(i32),
}

/// What an [`Effect`] holds.
#[verifier::ext_equal]
pub enum EffectView {
    Print(Seq<NoteView>),
    Load { path: Seq<char> },
    Save,
    Do(JobView),
    Look { path: Seq<char> },
    Remove { path: Seq<char> },
    Review { rows: Seq<ReviewRowView>, context: ReviewContextView },
    Dashboard,
    Pause,
    Again,
    Exit(i32),
}

impl View for Effect {
    type V = EffectView;

    open spec fn view(&self) -> EffectView {
        match self {
            Effect::Print(v) => EffectView::Print(note_views(v@)),
            Effect::Load { path } => EffectView::Load { path: path@ },
            Effect::Save => EffectView::Save,
            Effect::Do(job) => EffectView::Do(job@),
            Effect::Look { path } => EffectView::Look { path: path@ },
            Effect::Remove { path } => EffectView::Remove { path: path@ },
            Effect::Review { rows, context } => EffectView::Review {
                rows: row_views(rows@),
                context: context@,
            },
            Effect::Dashboard => EffectView::Dashboard,
            Effect::Pause => EffectView::Pause,
            Effect::Again => EffectView::Again,
            Effect::Exit(code) => EffectView::Exit(*code),
        }
    }
}

/// How an effect went.
#[derive(Debug, PartialEq, Eq)]
pub enum Report {
    /// It was brought about.
    Done,
    /// The saved plan, where there is one.
    Loaded(Option<Plan>),
    /// Whether the path exists.
    Exists(bool),
    /// How the review ended.
    Reviewed(ReviewOutcome),
    /// It failed.
    Failed(Error),
}

/// What a [`Report`] holds.
#[verifier::ext_equal]
pub enum ReportView {
    Done,
    Loaded(Option<PlanView>),
    Exists(bool),
    Reviewed(ReviewOutcome),
    Failed(ErrorView),
}

impl View for Report {
    type V = ReportView;

    open spec fn view(&self) -> ReportView {
        match self {
            Report::Done => ReportView::Done,
            Report::Loaded(p) => ReportView::Loaded(
                match p {
                    Some(x) => Some(x@),
                    None => None,
                },
            ),
            Report::Exists(b) => ReportView::Exists(*b),
            Report::Reviewed(o) => ReportView::Reviewed(*o),
            Report::Failed(e) => ReportView::Failed(e@),
        }
    }
}

/// A run of the program.
pub struct Session<R: CommandRunner, P: Progress, W: Wizardish> {
    pub app: App<R, P>,
    pub wiz: Heard<W>,
    pub command: Command,
    pub flags: Flags,
    /// Nothing is done beyond printing the plan.
    pub dry_run: bool,
    pub setup: Setup,
    pub stage: Stage,
    pub task: Provision,
    pub install: Install,
    /// The commands that have to succeed at this stage.
    pub errands: Vec<Errand>,
    /// How many of them did.
    pub done: usize,
    /// The Migration Assistant runs in a cluster of its own.
    pub deployed: bool,
}

/// What a [`Session`] holds, but for its runner, its wizard and its progress.
#[verifier::ext_equal]
pub struct SessionView {
    pub state: StateView,
    pub command: Command,
    pub flags: FlagsView,
    pub dry_run: bool,
    pub setup: SetupView,
    pub stage: Stage,
    pub task: ProvisionView,
    pub install: Install,
    pub errands: Seq<ErrandView>,
    pub done: int,
    pub deployed: bool,
}

impl<R: CommandRunner, P: Progress, W: Wizardish> View for Session<R, P, W> {
    type V = SessionView;

    open spec fn view(&self) -> SessionView {
        SessionView {
            state: self.app.state@,
            command: self.command,
            flags: self.flags@,
            dry_run: self.dry_run,
            setup: self.setup@,
            stage: self.stage,
            task: self.task@,
            install: self.install,
            errands: errand_views(self.errands@),
            done: self.done as int,
            deployed: self.deployed,
        }
    }
}

/// The stage that a command starts at.
pub open spec fn first_stage(c: Command) -> Stage {
    match c {
        Command::Run => Stage::Greet,
        Command::Plan => Stage::Greet,
        Command::Clear => Stage::ClearGreet,
        Command::Destroy => Stage::DestroyGreet,
        Command::Status => Stage::StatusRead,
        Command::Version => Stage::Tell,
        Command::Help => Stage::Tell,
        Command::Unknown => Stage::Tell,
    }
}

// ---------------------------------------------------------------------------
// What a step does
// ---------------------------------------------------------------------------

/// The command that deletes a cluster.
pub open spec fn delete_cluster_call(name: Seq<char>) -> CallView {
    command("kind"@, seq!["delete"@, "cluster"@, "--name"@, name])
}

/// The note that a cluster is about to be deleted.
pub open spec fn deleting(name: Seq<char>) -> NoteView {
    NoteView::Step("kind delete cluster "@ + name)
}

/// The note on how deleting a cluster went. A cluster that is not there is no failure.
pub open spec fn deleted(name: Seq<char>, out: OutputView) -> NoteView {
    if out.ok() {
        NoteView::Success(name + " deleted"@)
    } else {
        NoteView::Warning("could not delete "@ + name + ": "@ + trimmed(out.stderr))
    }
}

/// The endpoint of a collection in the outcome of asking for it, once it is active.
pub open spec fn active_endpoint(out: OutputView) -> Option<Seq<char>> {
    if out.ok() {
        endpoint_in(out.stdout)
    } else {
        None
    }
}

/// The error that a tool is missing.
pub open spec fn missing_tool(program: Seq<char>) -> ErrorView {
    fatal("required tool not found on PATH: "@ + program + ". Install it and re-run."@)
}

/// The note on environments in the cloud that ends a destruction.
pub open spec fn cloud_note() -> NoteView {
    NoteView::Dim("  (cloud) for an AWS deploy, run `terraform destroy` in terraform/"@)
}

impl SessionView {
    /// The session at another stage.
    pub open spec fn at(self, stage: Stage) -> SessionView {
        SessionView { stage, ..self }
    }

    /// The end of a session that failed: the error is shown, and its code is the exit code.
    pub open spec fn failed(self, e: ErrorView) -> (SessionView, EffectView) {
        (self.at(Stage::Leave(e.code)), EffectView::Print(seq![NoteView::Failure(e.message)]))
    }

    /// The session with another plan.
    pub open spec fn with_plan(self, plan: PlanView) -> SessionView {
        SessionView { state: StateView { plan, ..self.state }, ..self }
    }

    /// The session with other answers.
    pub open spec fn with_answers(self, a: AnswersView) -> SessionView {
        self.with_plan(PlanView { answers: a, ..self.state.plan })
    }

    /// The session with errands to do, none of them done.
    pub open spec fn with_errands(self, errands: Seq<ErrandView>) -> SessionView {
        SessionView { errands, done: 0, ..self }
    }

    /// The answers so far.
    pub open spec fn answers(self) -> AnswersView {
        self.state.plan.answers
    }

    /// Where the plan is saved.
    pub open spec fn plan_file(self) -> Seq<char> {
        path_in(self.state.dir, "plan.json"@)
    }

    /// The state that a plan is carried out from: the answers, and nothing done.
    pub open spec fn from_scratch(self) -> StateView {
        StateView {
            plan: PlanView { answers: self.answers(), ..PlanView::fresh() },
            ..self.state
        }
    }

    /// Whether the plan is reviewed before it is carried out.
    pub open spec fn reviews(self) -> bool {
        !self.flags.non_interactive && !self.dry_run
    }

    /// Whether the target collection is provisioned: a local environment that has one as its target.
    pub open spec fn needs_collection(self) -> bool {
        self.answers().target == Some(Target::Local) && self.answers().aoss_target()
    }

    /// Whether the Migration Assistant is deployed into a cluster of its own.
    pub open spec fn deploys(self) -> bool {
        self.answers().target == Some(Target::Local) && self.answers().local_ma()
    }

    /// Whether the session fails because the last effect did. One that is over stays over.
    pub open spec fn heeds(self, report: ReportView) -> bool {
        report is Failed && !(self.stage is Leave)
    }

    /// The question that a step puts to the operator.
    pub open spec fn asking(self, report: ReportView) -> Option<QuestionId> {
        let q = match self.stage {
            Stage::Ask => next_of(self.answers()),
            Stage::Reask(q) => q,
            _ => QuestionId::Review,
        };
        if self.heeds(report) || q == QuestionId::Review {
            None
        } else {
            Some(q)
        }
    }

    /// Which question of how many the next step asks. One that is asked again is not counted.
    pub open spec fn question_step(self) -> Option<(usize, usize)> {
        if self.stage == Stage::Ask {
            step_number(next_of(self.answers()))
        } else {
            None
        }
    }

    /// The command line that starts the Migration Assistant.
    pub open spec fn launch_line(self) -> Seq<Seq<char>> {
        if self.deployed {
            console_command()
        } else {
            seq![ma_program(bin_dir(self.state.dir))]
        }
    }

    /// The command that asks for the target collection.
    pub open spec fn collection_call(self) -> CallView {
        command("aws"@, collection_query(target_cluster_name(), self.answers().region()))
    }

    /// Whether errands are done at this stage.
    pub open spec fn on_errands(self) -> bool {
        self.stage == Stage::Terraform || self.stage == Stage::Collection || self.stage
            == Stage::Deploy
    }

    /// What a step asks the runner.
    pub open spec fn asks(self, report: ReportView, log: Seq<Event>) -> Seq<Ask> {
        if self.heeds(report) {
            seq![]
        } else if self.on_errands() {
            if self.done < self.errands.len() {
                seq![self.errands[self.done].ask()]
            } else {
                seq![]
            }
        } else {
            match self.stage {
                Stage::Gather => context_asks(self.answers(), self.quiet(), log),
                Stage::Shown => preflight_asks(self.answers(), log),
                Stage::Provision => self.task.asks(self.state.dir, log),
                Stage::Identify => if log[0].found() {
                    seq![
                        Ask::Find("aws"@),
                        Ask::Run(
                            identity_query(self.answers().profile(), self.answers().region()),
                        ),
                    ]
                } else {
                    seq![Ask::Find("aws"@)]
                },
                Stage::Await(_) => seq![Ask::Run(self.collection_call())],
                Stage::Handoff => if self.deploys() {
                    seq![Ask::Find("helm"@)]
                } else {
                    seq![]
                },
                Stage::Install => self.install.asks(self.state.dir),
                Stage::Announced => seq![Ask::Stream(launch_call(self.launch_line()))],
                Stage::DestroyFind => seq![Ask::Find("kind"@)],
                Stage::DestroySource => seq![Ask::Run(delete_cluster_call(source_cluster_name()))],
                Stage::DestroyTarget => seq![Ask::Run(delete_cluster_call(target_cluster_name()))],
                _ => seq![],
            }
        }
    }

    /// What a step says of its progress.
    pub open spec fn says(self, report: ReportView, log: Seq<Event>) -> Seq<Said> {
        if self.heeds(report) {
            seq![]
        } else if self.on_errands() {
            if self.done < self.errands.len() {
                seq![Said::Step(self.errands[self.done].title)]
            } else {
                seq![]
            }
        } else {
            match self.stage {
                Stage::Shown => preflight_says(self.answers(), self.flags.applies(), log),
                Stage::Checked => if ProvisionView::start(self.answers()).cloud {
                    seq![Said::Step("Emitting Terraform (cloud)"@)]
                } else {
                    seq![]
                },
                Stage::Provision => self.task.says(),
                Stage::Install => self.install.says(self.state.dir),
                _ => seq![],
            }
        }
    }

    /// Whether newer releases are not asked for: only a run that asks does so.
    pub open spec fn quiet(self) -> bool {
        self.setup.no_update_check || self.flags.non_interactive
    }

    /// The first words of a run that is not reviewed.
    pub open spec fn greeting(self) -> Seq<NoteView> {
        seq![
            NoteView::Banner("Migration Assistant — Demo Environment Setup"@),
            NoteView::Dim("  version="@ + self.setup.version + "  workspace="@ + self.state.dir),
        ]
    }

    /// The plan, and that this is all where nothing is to be created.
    pub open spec fn plan_shown(self) -> Seq<NoteView> {
        let notes = seq![NoteView::Step("Plan"@)] + plan_notes(self.answers());
        if self.dry_run {
            notes.push(NoteView::Success("dry run — no resources created"@))
        } else {
            notes
        }
    }

    /// That everything is ready, and how the Migration Assistant is started.
    pub open spec fn ready_notes(self) -> Seq<NoteView> {
        let notes = seq![
            NoteView::Success("Environment ready. Launching the Migration Assistant…"@),
            NoteView::Dim("  $ "@ + joined(self.launch_line(), " "@)),
        ];
        if self.flags.non_interactive {
            notes.push(
                NoteView::Dim(
                    "  non-interactive: not launching the TUI; run the command above to start."@,
                ),
            )
        } else {
            notes
        }
    }

    /// A run that is not reviewed says what it is.
    #[verifier::opaque]
    pub open spec fn greet_turn(self) -> (SessionView, EffectView) {
        (
            self.at(Stage::Read),
            if self.reviews() {
                EffectView::Again
            } else {
                EffectView::Print(self.greeting())
            },
        )
    }

    /// The saved plan has come back: it is taken up with what the flags say in its place, and what
    /// it leaves open is filled in or asked.
    #[verifier::opaque]
    pub open spec fn loaded_turn(self, report: ReportView) -> (SessionView, EffectView) {
        let v = match report {
            ReportView::Loaded(Some(plan)) => self.with_plan(plan),
            _ => self,
        };
        let w = v.with_answers(overridden(v.answers(), self.flags));
        if self.flags.non_interactive {
            (w.with_answers(filled(w.answers())).at(Stage::Kept), EffectView::Save)
        } else {
            (w.at(Stage::Ask), EffectView::Again)
        }
    }

    /// A question is asked, or the answers are saved where none is left.
    #[verifier::opaque]
    pub open spec fn ask_turn(self, reply: Result<OutcomeView, ErrorView>) -> (
        SessionView,
        EffectView,
    ) {
        let q = next_of(self.answers());
        if q == QuestionId::Review {
            (self.at(Stage::Kept), EffectView::Save)
        } else {
            let v = self.with_answers(answers_after(self.answers(), q, reply));
            match asking_error(reply) {
                Some(e) => v.failed(e),
                None => (v, EffectView::Again),
            }
        }
    }

    /// A dry run shows the plan and ends.
    #[verifier::opaque]
    pub open spec fn kept_turn(self) -> (SessionView, EffectView) {
        if self.dry_run {
            (self.at(Stage::Leave(0)), EffectView::Print(self.plan_shown()))
        } else {
            (self.at(Stage::Gather), EffectView::Again)
        }
    }

    /// The plan is handed out to be reviewed, with what is told above it. A run that asks nothing
    /// prints both and goes on.
    #[verifier::opaque]
    pub open spec fn gather_turn(self, log: Seq<Event>) -> (SessionView, EffectView) {
        let context = context_of(
            self.answers(),
            self.setup.version,
            self.state.dir,
            self.quiet(),
            log,
        );
        if self.flags.non_interactive {
            (
                self.at(Stage::Shown),
                EffectView::Print(self.plan_shown() + context_notes(context)),
            )
        } else {
            (
                self.at(Stage::Reviewed),
                EffectView::Review { rows: review_upto(self.answers(), 11), context },
            )
        }
    }

    /// Only a plan that was confirmed is carried out.
    #[verifier::opaque]
    pub open spec fn reviewed_turn(self, report: ReportView) -> (SessionView, EffectView) {
        match report {
            ReportView::Reviewed(ReviewOutcome::Confirm) => (
                self.at(Stage::Shown),
                EffectView::Print(self.plan_shown()),
            ),
            ReportView::Reviewed(ReviewOutcome::Edit(q)) => (
                self.at(Stage::Reask(q)),
                EffectView::Again,
            ),
            _ => self.failed(fatal("setup cancelled by user"@)),
        }
    }

    /// A question is asked again; what its answer leaves open is asked next.
    #[verifier::opaque]
    pub open spec fn reask_turn(self, q: QuestionId, reply: Result<OutcomeView, ErrorView>) -> (
        SessionView,
        EffectView,
    ) {
        if q == QuestionId::Review {
            (self.at(Stage::Ask), EffectView::Again)
        } else {
            let v = self.with_answers(answers_after(self.answers(), q, reply));
            match asking_error(reply) {
                Some(e) => v.failed(e),
                None => (v.at(Stage::Ask), EffectView::Again),
            }
        }
    }

    /// The checks are made.
    #[verifier::opaque]
    pub open spec fn check_turn(self, log: Seq<Event>) -> (SessionView, EffectView) {
        let s = self.from_scratch();
        match preflight_error(self.answers(), log) {
            Some(e) => SessionView { state: s, ..self }.failed(e),
            None => (
                SessionView { state: s.advanced(Step::PreflightDone), ..self }.at(Stage::Checked),
                EffectView::Save,
            ),
        }
    }

    /// The plan for the answers is begun.
    #[verifier::opaque]
    pub open spec fn begin_turn(self) -> (SessionView, EffectView) {
        let task = ProvisionView {
            apply: self.flags.applies(),
            ..ProvisionView::start(self.answers())
        };
        (SessionView { task, ..self }.at(Stage::Provision), EffectView::Again)
    }

    /// The plan is carried on.
    #[verifier::opaque]
    pub open spec fn provision_turn(self, log: Seq<Event>) -> (SessionView, EffectView) {
        let v = SessionView {
            task: self.task.next(log),
            state: self.task.state(self.state, log),
            ..self
        };
        match self.task.error(log) {
            Some(e) => v.failed(e),
            None => match self.task.job(self.state.dir) {
                JobView::Done => (v.at(Stage::Raised), EffectView::Again),
                job => (v, EffectView::Do(job)),
            },
        }
    }

    /// What is left of the environment is begun: Terraform files are applied, or the target
    /// collection is provisioned; else the environment is up.
    #[verifier::opaque]
    pub open spec fn raised_turn(self) -> (SessionView, EffectView) {
        if self.task.cloud && self.task.apply {
            (
                self.with_errands(application(self.state.dir)).at(Stage::Terraform),
                EffectView::Again,
            )
        } else if self.needs_collection() {
            (self.at(Stage::Identify), EffectView::Again)
        } else {
            self.up()
        }
    }

    /// The environment is up: it is said where everything is reached.
    pub open spec fn up(self) -> (SessionView, EffectView) {
        (
            self.at(Stage::Handoff),
            EffectView::Print(endpoint_notes(self.task.plan, self.answers())),
        )
    }

    /// One more errand is done; after the last one the session goes on as `after` says.
    #[verifier::opaque]
    pub open spec fn errand_turn(self, log: Seq<Event>, after: (SessionView, EffectView)) -> (
        SessionView,
        EffectView,
    ) {
        if self.done < self.errands.len() {
            match self.errands[self.done].error(log[0].output()) {
                Some(e) => self.failed(e),
                None => (SessionView { done: self.done + 1, ..self }, EffectView::Again),
            }
        } else {
            after
        }
    }

    /// The caller at AWS has been asked for.
    #[verifier::opaque]
    pub open spec fn identify_turn(self, log: Seq<Event>) -> (SessionView, EffectView) {
        let a = self.answers();
        if !log[0].found() {
            self.failed(missing_tool("aws"@))
        } else {
            match identity_in(log[1].output()) {
                Some(arn) => (
                    self.with_errands(
                        provisioning(target_cluster_name(), a.profile(), a.region(), arn),
                    ).at(Stage::Collection),
                    EffectView::Again,
                ),
                None => self.failed(
                    fatal("no valid AWS credentials for profile "@ + a.profile()),
                ),
            }
        }
    }

    /// The target collection has been asked for once more: where it is reached is recorded once it
    /// is active.
    #[verifier::opaque]
    pub open spec fn await_turn(self, polls: u64, log: Seq<Event>) -> (SessionView, EffectView) {
        match active_endpoint(log[0].output()) {
            Some(endpoint) => (
                SessionView {
                    state: self.state.with_target(endpoint).advanced(Step::TargetUp),
                    ..self
                }.at(Stage::Reached),
                EffectView::Save,
            ),
            None => if polls + 1 < MAX_POLLS {
                (self.at(Stage::Await((polls + 1) as u64)), EffectView::Pause)
            } else {
                self.failed(fatal("the target collection did not become active"@))
            },
        }
    }

    /// The target collection is active: it is said where everything is reached, the collection too.
    #[verifier::opaque]
    pub open spec fn reached_turn(self) -> (SessionView, EffectView) {
        let notes = endpoint_notes(self.task.plan, self.answers());
        (
            self.at(Stage::Handoff),
            EffectView::Print(
                match self.state.plan.target_endpoint {
                    Some(endpoint) => notes.push(
                        NoteView::Dim("  target   "@ + endpoint + "  (collection)"@),
                    ),
                    None => notes,
                },
            ),
        )
    }

    /// The Migration Assistant is installed, for want of what deploying it needs.
    pub open spec fn falls_back(self, why: Seq<char>) -> (SessionView, EffectView) {
        (
            SessionView { install: Install::Begin, ..self }.at(Stage::Install),
            EffectView::Print(seq![NoteView::Warning(why)]),
        )
    }

    /// The environment is up, and the Migration Assistant is handed over to: it is deployed where
    /// that is wanted and can be done, and else its command line is installed.
    #[verifier::opaque]
    pub open spec fn handoff_turn(self, log: Seq<Event>) -> (SessionView, EffectView) {
        if !self.deploys() {
            (
                SessionView { install: Install::Begin, ..self }.at(Stage::Install),
                EffectView::Again,
            )
        } else if !log[0].found() {
            self.falls_back("helm not on PATH; installing the Migration Assistant CLI instead"@)
        } else {
            match self.setup.chart {
                Some(chart) => (
                    self.with_errands(deployment(chart)).at(Stage::Deploy),
                    EffectView::Again,
                ),
                None => self.falls_back(
                    "chart not found (set MA_CHART_PATH); installing the Migration Assistant CLI instead"@,
                ),
            }
        }
    }

    /// The installation is carried on.
    #[verifier::opaque]
    pub open spec fn install_turn(self, log: Seq<Event>) -> (SessionView, EffectView) {
        let v = SessionView {
            install: self.install.next(log),
            state: self.install.state(self.state, log),
            ..self
        };
        match self.install.error(log) {
            Some(e) => v.failed(e),
            None => match self.install.job(self.state.dir) {
                JobView::Done => (v.at(Stage::Settled), EffectView::Again),
                job => (v, EffectView::Do(job)),
            },
        }
    }

    /// The Migration Assistant is there, and that is said.
    pub open spec fn ready(self) -> (SessionView, EffectView) {
        (
            self.at(
                if self.flags.non_interactive {
                    Stage::Leave(0)
                } else {
                    Stage::Announced
                },
            ),
            EffectView::Print(self.ready_notes()),
        )
    }

    /// The dashboard is opened first, unless nothing is asked or it is not wanted.
    #[verifier::opaque]
    pub open spec fn settled_turn(self) -> (SessionView, EffectView) {
        if self.flags.non_interactive || self.flags.no_dashboard {
            self.ready()
        } else {
            (self.at(Stage::Watched), EffectView::Dashboard)
        }
    }

    /// The Migration Assistant is started.
    #[verifier::opaque]
    pub open spec fn launch_turn(self, log: Seq<Event>) -> (SessionView, EffectView) {
        match launch_error(log[0].output().status) {
            Some(e) => self.failed(e),
            None => (self.at(Stage::Leave(0)), EffectView::Again),
        }
    }

    /// What a step of a run leads to.
    pub open spec fn run_turn(
        self,
        report: ReportView,
        log: Seq<Event>,
        reply: Result<OutcomeView, ErrorView>,
    ) -> (SessionView, EffectView) {
        match self.stage {
            Stage::Greet => self.greet_turn(),
            Stage::Read => (self.at(Stage::Loaded), EffectView::Load { path: self.plan_file() }),
            Stage::Loaded => self.loaded_turn(report),
            Stage::Ask => self.ask_turn(reply),
            Stage::Kept => self.kept_turn(),
            Stage::Gather => self.gather_turn(log),
            Stage::Reviewed => self.reviewed_turn(report),
            Stage::Reask(q) => self.reask_turn(q, reply),
            Stage::Shown => self.check_turn(log),
            Stage::Checked => self.begin_turn(),
            Stage::Provision => self.provision_turn(log),
            Stage::Raised => self.raised_turn(),
            Stage::Terraform => self.errand_turn(log, self.up()),
            Stage::Identify => self.identify_turn(log),
            Stage::Collection => self.errand_turn(
                log,
                (self.at(Stage::Await(0)), EffectView::Again),
            ),
            Stage::Await(polls) => self.await_turn(polls, log),
            Stage::Reached => self.reached_turn(),
            Stage::Handoff => self.handoff_turn(log),
            Stage::Deploy => self.errand_turn(
                log,
                (
                    SessionView {
                        state: self.state.advanced(Step::Ready),
                        deployed: true,
                        ..self
                    }.at(Stage::Settled),
                    EffectView::Save,
                ),
            ),
            Stage::Install => self.install_turn(log),
            Stage::Settled => self.settled_turn(),
            Stage::Watched => self.ready(),
            Stage::Announced => self.launch_turn(log),
            _ => (self, EffectView::Again),
        }
    }

    /// What a step that is no part of a run leads to.
    pub open spec fn other_turn(self, report: ReportView, log: Seq<Event>) -> (
        SessionView,
        EffectView,
    ) {
        match self.stage {
            Stage::ClearGreet => (
                self.at(Stage::ClearLook),
                EffectView::Print(
                    seq![
                        NoteView::Banner("Clear workspace: "@ + self.state.dir),
                        NoteView::Dim("  this does NOT delete KIND clusters or cloud resources"@),
                    ],
                ),
            ),
            Stage::ClearLook => (
                self.at(Stage::ClearLooked),
                EffectView::Look { path: self.state.dir },
            ),
            Stage::ClearLooked => if report == ReportView::Exists(true) {
                (self.at(Stage::ClearRemoved), EffectView::Remove { path: self.state.dir })
            } else {
                (
                    self.at(Stage::Leave(0)),
                    EffectView::Print(seq![NoteView::Info("nothing to clear"@)]),
                )
            },
            Stage::ClearRemoved => (
                self.at(Stage::Leave(0)),
                EffectView::Print(seq![NoteView::Success("workspace cleared"@)]),
            ),
            Stage::DestroyGreet => (
                self.at(Stage::DestroyFind),
                EffectView::Print(seq![NoteView::Banner("Destroy local demo environment"@)]),
            ),
            Stage::DestroyFind => if log[0].found() {
                (
                    self.at(Stage::DestroySource),
                    EffectView::Print(seq![deleting(source_cluster_name())]),
                )
            } else {
                (
                    self.at(Stage::DestroyLook),
                    EffectView::Print(
                        seq![
                            NoteView::Warning("kind not on PATH; skipping cluster deletion"@),
                        ],
                    ),
                )
            },
            Stage::DestroySource => (
                self.at(Stage::DestroyTarget),
                EffectView::Print(
                    seq![
                        deleted(source_cluster_name(), log[0].output()),
                        deleting(target_cluster_name()),
                    ],
                ),
            ),
            Stage::DestroyTarget => (
                self.at(Stage::DestroyLook),
                EffectView::Print(seq![deleted(target_cluster_name(), log[0].output())]),
            ),
            Stage::DestroyLook => (
                self.at(Stage::DestroyLooked),
                EffectView::Look { path: self.state.dir },
            ),
            Stage::DestroyLooked => if report == ReportView::Exists(true) {
                (self.at(Stage::DestroyRemoved), EffectView::Remove { path: self.state.dir })
            } else {
                (self.at(Stage::Leave(0)), EffectView::Print(seq![cloud_note()]))
            },
            Stage::DestroyRemoved => (
                self.at(Stage::Leave(0)),
                EffectView::Print(seq![NoteView::Success("workspace cleared"@), cloud_note()]),
            ),
            Stage::StatusRead => (
                self.at(Stage::StatusLoaded),
                EffectView::Load { path: self.plan_file() },
            ),
            Stage::StatusLoaded => match report {
                ReportView::Loaded(Some(plan)) => (
                    self.with_plan(plan).at(Stage::StatusShown),
                    EffectView::Dashboard,
                ),
                _ => self.failed(
                    fatal("no saved plan in this workspace; run `ma-demo` first"@),
                ),
            },
            Stage::StatusShown => (self.at(Stage::Leave(0)), EffectView::Again),
            Stage::Tell => match self.command {
                Command::Version => (
                    self.at(Stage::Leave(0)),
                    EffectView::Print(seq![NoteView::Info(self.setup.version)]),
                ),
                Command::Help => (
                    self.at(Stage::Leave(0)),
                    EffectView::Print(seq![NoteView::Raw(help_of(self.setup.version))]),
                ),
                _ => (
                    self.at(Stage::Leave(64)),
                    EffectView::Print(
                        seq![
                            NoteView::Raw(help_of(self.setup.version)),
                            NoteView::Failure("unknown command"@),
                        ],
                    ),
                ),
            },
            Stage::Leave(code) => (self, EffectView::Exit(code)),
            _ => (self, EffectView::Again),
        }
    }

    /// Whether a stage belongs to a run.
    pub open spec fn running(self) -> bool {
        match self.stage {
            Stage::ClearGreet | Stage::ClearLook | Stage::ClearLooked | Stage::ClearRemoved => false,
            Stage::DestroyGreet | Stage::DestroyFind | Stage::DestroySource => false,
            Stage::DestroyTarget | Stage::DestroyLook | Stage::DestroyLooked => false,
            Stage::DestroyRemoved => false,
            Stage::StatusRead | Stage::StatusLoaded | Stage::StatusShown => false,
            Stage::Tell | Stage::Leave(_) => false,
            _ => true,
        }
    }

    /// The plan being carried out and the errands have not run past their ends.
    pub open spec fn wf(self) -> bool {
        self.task.wf() && 0 <= self.done <= self.errands.len()
    }

    /// What a step leads to.
    pub open spec fn turn(
        self,
        report: ReportView,
        log: Seq<Event>,
        reply: Result<OutcomeView, ErrorView>,
    ) -> (SessionView, EffectView) {
        if self.heeds(report) {
            self.failed(report->Failed_0)
        } else if self.running() {
            self.run_turn(report, log, reply)
        } else {
            self.other_turn(report, log)
        }
    }
}

// ---------------------------------------------------------------------------
// Steps
// ---------------------------------------------------------------------------

impl<R: CommandRunner, P: Progress, W: Wizardish> Session<R, P, W> {
    /// `post` and `effect` are what one step with `report` makes of this session. The runner, the
    /// progress and the wizard are what the exchanges with them made of them, and nothing else.
    pub open spec fn stepped(self, post: Self, report: ReportView, effect: EffectView) -> bool {
        let log = since(self.app.runner.events(), post.app.runner.events());
        let heard = post.wiz.exchanges();
        &&& grew(self.app.runner.events(), post.app.runner.events())
        &&& self.app.runner.leads_to(post.app.runner)
        &&& self.app.progress.leads_to(post.app.progress)
        &&& self.wiz.leads_to(post.wiz)
        &&& asks(log) == self@.asks(report, log)
        &&& post.app.progress.said() == self.app.progress.said() + self@.says(report, log)
        &&& match self@.asking(report) {
            Some(q) => {
                &&& heard == self.wiz.exchanges().push(heard.last())
                &&& heard.last().question == question(q, self@.answers())
                &&& heard.last().preselect == preselection(q, self@.answers())
            },
            None => heard == self.wiz.exchanges(),
        }
        &&& (post@, effect) == self@.turn(report, log, heard.last().reply)
    }

    /// Ends the session with an error.
    fn fail(&mut self, e: Error) -> (r: Effect)
        ensures
            (final(self)@, r@) == old(self)@.failed(e@),
            final(self).app == old(self).app,
            final(self).wiz == old(self).wiz,
    {
        self.stage = Stage::Leave(e.code);
        let mut notes: Vec<Note> = Vec::new();
        add_note(&mut notes, Note::Failure(e.message));
        assert(note_views(notes@) =~= seq![NoteView::Failure(e@.message)]);
        Effect::Print(notes)
    }

    fn greet(&mut self) -> (r: Effect)
        requires
            old(self)@.stage == Stage::Greet,
            old(self)@.wf(),
        ensures
            old(self).stepped(*final(self), ReportView::Done, r@),
            final(self)@.wf(),
    {
        proof {
            reveal(SessionView::greet_turn);
            lemma_quiet(self.app.runner.events(), self.app.progress.said());
        }
        if !self.flags.non_interactive && !self.dry_run {
            self.stage = Stage::Read;
            return Effect::Again;
        }
        let place = "  version=".to_string().concat(self.setup.version.as_str()).concat(
            "  workspace=",
        ).concat(self.app.state.dir());
        let mut notes: Vec<Note> = Vec::new();
        add_note(
            &mut notes,
            Note::Banner("Migration Assistant — Demo Environment Setup".to_string()),
        );
        add_note(&mut notes, Note::Dim(place));
        assert(note_views(notes@) =~= self@.greeting());
        self.stage = Stage::Read;
        Effect::Print(notes)
    }

    fn loaded(&mut self, report: Report) -> (r: Effect)
        requires
            old(self)@.stage == Stage::Loaded,
            !(report@ is Failed),
            old(self)@.wf(),
        ensures
            old(self).stepped(*final(self), report@, r@),
            final(self)@.wf(),
    {
        proof {
            reveal(SessionView::loaded_turn);
            lemma_quiet(self.app.runner.events(), self.app.progress.said());
        }
        if let Report::Loaded(Some(plan)) = report {
            self.app.state.plan = plan;
        }
        override_answers(&mut self.app.state.plan.answers, &self.flags);
        if self.flags.non_interactive {
            fill_defaults(&mut self.app.state.plan.answers);
            self.stage = Stage::Kept;
            Effect::Save
        } else {
            self.stage = Stage::Ask;
            Effect::Again
        }
    }

    fn ask(&mut self) -> (r: Effect)
        requires
            old(self)@.stage == Stage::Ask,
            old(self)@.wf(),
        ensures
            old(self).stepped(*final(self), ReportView::Done, r@),
            final(self)@.wf(),
    {
        proof {
            reveal(SessionView::ask_turn);
            lemma_quiet(self.app.runner.events(), self.app.progress.said());
        }
        let q = next_question_id(&self.app.state.plan.answers);
        if q == QuestionId::Review {
            self.stage = Stage::Kept;
            return Effect::Save;
        }
        match ask_question(&mut self.wiz, &mut self.app.state.plan.answers, q) {
            Ok(_) => Effect::Again,
            Err(e) => self.fail(e),
        }
    }

    fn reask(&mut self, q: QuestionId) -> (r: Effect)
        requires
            old(self)@.stage == Stage::Reask(q),
            old(self)@.wf(),
        ensures
            old(self).stepped(*final(self), ReportView::Done, r@),
            final(self)@.wf(),
    {
        proof {
            reveal(SessionView::reask_turn);
            lemma_quiet(self.app.runner.events(), self.app.progress.said());
        }
        if q == QuestionId::Review {
            self.stage = Stage::Ask;
            return Effect::Again;
        }
        match ask_question(&mut self.wiz, &mut self.app.state.plan.answers, q) {
            Ok(_) => {
                self.stage = Stage::Ask;
                Effect::Again
            },
            Err(e) => self.fail(e),
        }
    }

    /// The plan in print.
    fn plan_printed(&self) -> (r: Vec<Note>)
        ensures
            note_views(r@) == self@.plan_shown(),
    {
        let mut notes: Vec<Note> = Vec::new();
        add_note(&mut notes, Note::Step("Plan".to_string()));
        let ghost first = note_views(notes@);
        assert(first =~= seq![NoteView::Step("Plan"@)]);
        let mut plan = print_plan(&self.app.state.plan.answers);
        let ghost more = plan@;
        notes.append(&mut plan);
        assert(note_views(notes@) =~= first + note_views(more));
        if self.dry_run {
            add_note(&mut notes, Note::Success("dry run — no resources created".to_string()));
        }
        notes
    }

    fn kept(&mut self) -> (r: Effect)
        requires
            old(self)@.stage == Stage::Kept,
            old(self)@.wf(),
        ensures
            old(self).stepped(*final(self), ReportView::Done, r@),
            final(self)@.wf(),
    {
        proof {
            reveal(SessionView::kept_turn);
            lemma_quiet(self.app.runner.events(), self.app.progress.said());
        }
        if self.dry_run {
            let notes = self.plan_printed();
            self.stage = Stage::Leave(0);
            Effect::Print(notes)
        } else {
            self.stage = Stage::Gather;
            Effect::Again
        }
    }

    fn gather_context(&mut self) -> (r: Effect)
        requires
            old(self)@.stage == Stage::Gather,
            old(self)@.wf(),
        ensures
            old(self).stepped(*final(self), ReportView::Done, r@),
            final(self)@.wf(),
    {
        proof {
            reveal(SessionView::gather_turn);
            lemma_quiet(self.app.runner.events(), self.app.progress.said());
        }
        let quiet = self.setup.no_update_check || self.flags.non_interactive;
        let context = gather(
            &mut self.app.runner,
            &self.app.state.plan.answers,
            self.setup.version.as_str(),
            self.app.state.dir(),
            quiet,
        );
        if self.flags.non_interactive {
            let mut notes = self.plan_printed();
            let ghost first = note_views(notes@);
            let mut told = print_context(&context);
            let ghost more = told@;
            notes.append(&mut told);
            assert(note_views(notes@) =~= first + note_views(more));
            self.stage = Stage::Shown;
            Effect::Print(notes)
        } else {
            let rows = review_rows(&self.app.state.plan.answers);
            self.stage = Stage::Reviewed;
            Effect::Review { rows, context }
        }
    }

    fn reviewed(&mut self, report: Report) -> (r: Effect)
        requires
            old(self)@.stage == Stage::Reviewed,
            !(report@ is Failed),
            old(self)@.wf(),
        ensures
            old(self).stepped(*final(self), report@, r@),
            final(self)@.wf(),
    {
        proof {
            reveal(SessionView::reviewed_turn);
            lemma_quiet(self.app.runner.events(), self.app.progress.said());
        }
        match report {
            Report::Reviewed(ReviewOutcome::Confirm) => {
                let notes = self.plan_printed();
                self.stage = Stage::Shown;
                Effect::Print(notes)
            },
            Report::Reviewed(ReviewOutcome::Edit(q)) => {
                self.stage = Stage::Reask(q);
                Effect::Again
            },
            _ => self.fail(Error::die("setup cancelled by user")),
        }
    }

    fn check(&mut self) -> (r: Effect)
        requires
            old(self)@.stage == Stage::Shown,
            old(self)@.wf(),
        ensures
            old(self).stepped(*final(self), ReportView::Done, r@),
            final(self)@.wf(),
    {
        proof {
            reveal(SessionView::check_turn);
        }
        let answers = self.app.state.plan.answers.clone();
        self.app.state.plan = Plan { answers: answers.clone(), ..Plan::default() };
        self.app.apply = self.flags.applies();
        assert(self.app.state@ =~= old(self)@.from_scratch());
        match self.app.preflight(&answers) {
            Ok(_) => {
                self.stage = Stage::Checked;
                Effect::Save
            },
            Err(e) => self.fail(e),
        }
    }

    fn begin(&mut self) -> (r: Effect)
        requires
            old(self)@.stage == Stage::Checked,
            old(self)@.wf(),
        ensures
            old(self).stepped(*final(self), ReportView::Done, r@),
            final(self)@.wf(),
    {
        proof {
            reveal(SessionView::begin_turn);
            lemma_quiet(self.app.runner.events(), self.app.progress.said());
        }
        let answers = self.app.state.plan.answers.clone();
        self.app.apply = self.flags.applies();
        self.task = self.app.provision(&answers);
        self.stage = Stage::Provision;
        Effect::Again
    }

    fn provision(&mut self) -> (r: Effect)
        requires
            old(self)@.stage == Stage::Provision,
            old(self)@.wf(),
        ensures
            old(self).stepped(*final(self), ReportView::Done, r@),
            final(self)@.wf(),
    {
        proof {
            reveal(SessionView::provision_turn);
        }
        match self.app.proceed(&mut self.task) {
            Ok(Job::Done) => {
                self.stage = Stage::Raised;
                Effect::Again
            },
            Ok(job) => Effect::Do(job),
            Err(e) => self.fail(e),
        }
    }

    fn raised(&mut self) -> (r: Effect)
        requires
            old(self)@.stage == Stage::Raised,
            old(self)@.wf(),
        ensures
            old(self).stepped(*final(self), ReportView::Done, r@),
            final(self)@.wf(),
    {
        proof {
            reveal(SessionView::raised_turn);
            lemma_quiet(self.app.runner.events(), self.app.progress.said());
        }
        if self.task.cloud && self.task.apply {
            self.errands = apply_errands(self.app.state.dir());
            self.done = 0;
            self.stage = Stage::Terraform;
            return Effect::Again;
        }
        let local = self.app.state.plan.answers.target == Some(Target::Local);
        if local && self.app.state.plan.answers.provisions_aoss_target() {
            self.stage = Stage::Identify;
            return Effect::Again;
        }
        self.stage = Stage::Handoff;
        Effect::Print(print_endpoints(&self.task.plan, &self.app.state.plan.answers))
    }

    /// Does one more errand. Whether one was left is returned.
    fn errand(&mut self) -> (r: Result<bool, Error>)
        requires
            old(self)@.on_errands(),
            old(self)@.wf(),
        ensures
            ({
                let log = since(old(self).app.runner.events(), final(self).app.runner.events());
                let v = old(self)@;
                &&& grew(old(self).app.runner.events(), final(self).app.runner.events())
                &&& old(self).app.runner.leads_to(final(self).app.runner)
                &&& old(self).app.progress.leads_to(final(self).app.progress)
                &&& asks(log) == v.asks(ReportView::Done, log)
                &&& final(self).app.progress.said() == old(self).app.progress.said() + v.says(
                    ReportView::Done,
                    log,
                )
                &&& match r {
                    Ok(more) => more == (v.done < v.errands.len()) && (more
                        ==> v.errands[v.done].error(log[0].output()) is None),
                    Err(e) => v.done < v.errands.len() && v.errands[v.done].error(log[0].output())
                        == Some(e@),
                }
                &&& final(self)@ == if r == Ok::<bool, Error>(true) {
                    SessionView { done: v.done + 1, ..v }
                } else {
                    v
                }
            }),
            final(self).wiz == old(self).wiz,
    {
        let ghost said = self.app.progress.said();
        proof {
            lemma_quiet(self.app.runner.events(), said);
        }
        assert(self@.errands.len() == self.errands@.len());
        if self.done >= self.errands.len() {
            return Ok(false);
        }
        assert(self@.errands[self@.done] == self.errands@[self.done as int]@);
        let e = self.errands[self.done].clone();
        self.app.progress.step(e.title.as_str());
        assert(self.app.progress.said() =~= said + seq![Said::Step(e@.title)]);
        match e.perform(&mut self.app.runner) {
            Ok(_) => {
                self.done = self.done + 1;
                Ok(true)
            },
            Err(x) => Err(x),
        }
    }

    fn apply(&mut self) -> (r: Effect)
        requires
            old(self)@.stage == Stage::Terraform,
            old(self)@.wf(),
        ensures
            old(self).stepped(*final(self), ReportView::Done, r@),
            final(self)@.wf(),
    {
        proof {
            reveal(SessionView::errand_turn);
        }
        match self.errand() {
            Ok(more) => if more {
                Effect::Again
            } else {
                self.stage = Stage::Handoff;
                Effect::Print(print_endpoints(&self.task.plan, &self.app.state.plan.answers))
            },
            Err(e) => self.fail(e),
        }
    }

    fn identify(&mut self) -> (r: Effect)
        requires
            old(self)@.stage == Stage::Identify,
            old(self)@.wf(),
        ensures
            old(self).stepped(*final(self), ReportView::Done, r@),
            final(self)@.wf(),
    {
        proof {
            reveal(SessionView::identify_turn);
            lemma_quiet(self.app.runner.events(), self.app.progress.said());
        }
        let answers = self.app.state.plan.answers.clone();
        let profile = answers.effective_aws_profile();
        let region = answers.effective_aws_region();
        match ask_for_caller(&mut self.app.runner, profile, region) {
            Ok(arn) => {
                self.errands = collection_errands(
                    answers.aoss_collection_name().as_str(),
                    profile,
                    region,
                    arn.as_str(),
                );
                self.done = 0;
                self.stage = Stage::Collection;
                Effect::Again
            },
            Err(e) => self.fail(e),
        }
    }

    fn collect(&mut self) -> (r: Effect)
        requires
            old(self)@.stage == Stage::Collection,
            old(self)@.wf(),
        ensures
            old(self).stepped(*final(self), ReportView::Done, r@),
            final(self)@.wf(),
    {
        proof {
            reveal(SessionView::errand_turn);
        }
        match self.errand() {
            Ok(more) => {
                if !more {
                    self.stage = Stage::Await(0);
                }
                Effect::Again
            },
            Err(e) => self.fail(e),
        }
    }

    fn poll(&mut self, polls: u64) -> (r: Effect)
        requires
            old(self)@.stage == Stage::Await(polls),
            old(self)@.wf(),
        ensures
            old(self).stepped(*final(self), ReportView::Done, r@),
            final(self)@.wf(),
    {
        let ghost before = self.app.runner.events();
        proof {
            reveal(SessionView::await_turn);
            lemma_quiet(before, self.app.progress.said());
        }
        let answers = &self.app.state.plan.answers;
        let query = aoss_batch_get_args(
            answers.aoss_collection_name().as_str(),
            answers.effective_aws_region(),
        );
        let mut args: Vec<&str> = Vec::new();
        for i in 0..query.len()
            invariant
                args@.len() == i,
                forall|j: int| 0 <= j < i ==> (#[trigger] args@[j])@ == query@[j]@,
        {
            args.push(query[i].as_str());
        }
        assert(str_texts(args@) =~= texts(query@));
        let out = self.app.runner.run("aws", args.as_slice());
        proof {
            let e = Event::Ran(self@.collection_call(), out@);
            lemma_since(before, seq![e]);
            assert(before + seq![e] =~= before.push(e));
            assert(asks(seq![e]) =~= seq![Ask::Run(self@.collection_call())]);
        }
        let endpoint = if out.success() {
            parse_aoss_endpoint(out.stdout.as_str())
        } else {
            None
        };
        match endpoint {
            Some(endpoint) => {
                self.app.state.record_target(endpoint.as_str());
                self.app.state.advance(Step::TargetUp);
                self.stage = Stage::Reached;
                Effect::Save
            },
            None => {
                if polls < MAX_POLLS - 1 {
                    self.stage = Stage::Await(polls + 1);
                    Effect::Pause
                } else {
                    self.fail(Error::die("the target collection did not become active"))
                }
            },
        }
    }

    fn reached(&mut self) -> (r: Effect)
        requires
            old(self)@.stage == Stage::Reached,
            old(self)@.wf(),
        ensures
            old(self).stepped(*final(self), ReportView::Done, r@),
            final(self)@.wf(),
    {
        proof {
            reveal(SessionView::reached_turn);
            lemma_quiet(self.app.runner.events(), self.app.progress.said());
        }
        let mut notes = print_endpoints(&self.task.plan, &self.app.state.plan.answers);
        if let Some(endpoint) = &self.app.state.plan.target_endpoint {
            let text = "  target   ".to_string().concat(endpoint.as_str()).concat("  (collection)");
            add_note(&mut notes, Note::Dim(text));
        }
        self.stage = Stage::Handoff;
        Effect::Print(notes)
    }

    fn hand_over(&mut self) -> (r: Effect)
        requires
            old(self)@.stage == Stage::Handoff,
            old(self)@.wf(),
        ensures
            old(self).stepped(*final(self), ReportView::Done, r@),
            final(self)@.wf(),
    {
        let ghost before = self.app.runner.events();
        proof {
            reveal(SessionView::handoff_turn);
            lemma_quiet(before, self.app.progress.said());
        }
        if !self.deploys_locally() {
            self.install = Install::Begin;
            self.stage = Stage::Install;
            return Effect::Again;
        }
        let found = self.app.runner.has_command("helm");
        proof {
            let e = Event::Looked("helm"@, found);
            lemma_since(before, seq![e]);
            assert(before + seq![e] =~= before.push(e));
            assert(asks(seq![e]) =~= seq![Ask::Find("helm"@)]);
        }
        if !found {
            return self.fall_back(
                "helm not on PATH; installing the Migration Assistant CLI instead",
            );
        }
        match &self.setup.chart {
            Some(chart) => {
                self.errands = deploy_errands(chart.as_str());
                self.done = 0;
                self.stage = Stage::Deploy;
                Effect::Again
            },
            None => self.fall_back(
                "chart not found (set MA_CHART_PATH); installing the Migration Assistant CLI instead",
            ),
        }
    }

    fn fall_back(&mut self, why: &str) -> (r: Effect)
        ensures
            (final(self)@, r@) == old(self)@.falls_back(why@),
            final(self).app == old(self).app,
            final(self).wiz == old(self).wiz,
    {
        self.install = Install::Begin;
        self.stage = Stage::Install;
        let mut notes: Vec<Note> = Vec::new();
        add_note(&mut notes, Note::Warning(why.to_string()));
        assert(note_views(notes@) =~= seq![NoteView::Warning(why@)]);
        Effect::Print(notes)
    }

    fn deploys_locally(&self) -> (r: bool)
        ensures
            r == self@.deploys(),
    {
        let a = &self.app.state.plan.answers;
        a.target == Some(Target::Local) && a.deploys_ma_locally()
    }

    fn deploy(&mut self) -> (r: Effect)
        requires
            old(self)@.stage == Stage::Deploy,
            old(self)@.wf(),
        ensures
            old(self).stepped(*final(self), ReportView::Done, r@),
            final(self)@.wf(),
    {
        proof {
            reveal(SessionView::errand_turn);
        }
        match self.errand() {
            Ok(more) => if more {
                Effect::Again
            } else {
                self.app.state.advance(Step::Ready);
                self.deployed = true;
                self.stage = Stage::Settled;
                Effect::Save
            },
            Err(e) => self.fail(e),
        }
    }

    fn install(&mut self) -> (r: Effect)
        requires
            old(self)@.stage == Stage::Install,
            old(self)@.wf(),
        ensures
            old(self).stepped(*final(self), ReportView::Done, r@),
            final(self)@.wf(),
    {
        proof {
            reveal(SessionView::install_turn);
        }
        match self.app.install_ma(&mut self.install) {
            Ok(Job::Done) => {
                self.stage = Stage::Settled;
                Effect::Again
            },
            Ok(job) => Effect::Do(job),
            Err(e) => self.fail(e),
        }
    }

    /// The command line that starts the Migration Assistant.
    fn launch_argv(&self) -> (r: Vec<String>)
        ensures
            texts(r@) == self@.launch_line(),
    {
        if self.deployed {
            console_argv()
        } else {
            self.app.launch_argv()
        }
    }

    fn announce(&mut self) -> (r: Effect)
        ensures
            (final(self)@, r@) == old(self)@.ready(),
            final(self).app == old(self).app,
            final(self).wiz == old(self).wiz,
    {
        let argv = self.launch_argv();
        let mut notes: Vec<Note> = Vec::new();
        add_note(
            &mut notes,
            Note::Success("Environment ready. Launching the Migration Assistant…".to_string()),
        );
        add_note(&mut notes, Note::Dim("  $ ".to_string().concat(join(&argv, " ").as_str())));
        if self.flags.non_interactive {
            add_note(
                &mut notes,
                Note::Dim(
                    "  non-interactive: not launching the TUI; run the command above to start.".to_string(),
                ),
            );
            self.stage = Stage::Leave(0);
        } else {
            self.stage = Stage::Announced;
        }
        assert(note_views(notes@) =~= old(self)@.ready_notes());
        Effect::Print(notes)
    }

    fn settled(&mut self) -> (r: Effect)
        requires
            old(self)@.stage == Stage::Settled || old(self)@.stage == Stage::Watched,
            old(self)@.wf(),
        ensures
            old(self).stepped(*final(self), ReportView::Done, r@),
            final(self)@.wf(),
    {
        proof {
            reveal(SessionView::settled_turn);
            lemma_quiet(self.app.runner.events(), self.app.progress.said());
        }
        let first = self.stage == Stage::Settled;
        if first && !self.flags.non_interactive && !self.flags.no_dashboard {
            self.stage = Stage::Watched;
            return Effect::Dashboard;
        }
        self.announce()
    }

    fn launch(&mut self) -> (r: Effect)
        requires
            old(self)@.stage == Stage::Announced,
            old(self)@.wf(),
        ensures
            old(self).stepped(*final(self), ReportView::Done, r@),
            final(self)@.wf(),
    {
        proof {
            reveal(SessionView::launch_turn);
            lemma_quiet(self.app.runner.events(), self.app.progress.said());
        }
        let argv = self.launch_argv();
        assert(texts(argv@).len() == argv@.len());
        match launch_ma(&mut self.app.runner, &argv) {
            Ok(_) => {
                self.stage = Stage::Leave(0);
                Effect::Again
            },
            Err(e) => self.fail(e),
        }
    }

    fn clear(&mut self, report: Report) -> (r: Effect)
        requires
            match old(self)@.stage {
                Stage::ClearGreet | Stage::ClearLook | Stage::ClearLooked | Stage::ClearRemoved => true,
                _ => false,
            },
            !(report@ is Failed),
        ensures
            old(self).stepped(*final(self), report@, r@),
    {
        proof {
            lemma_quiet(self.app.runner.events(), self.app.progress.said());
        }
        let mut notes: Vec<Note> = Vec::new();
        match self.stage {
            Stage::ClearGreet => {
                add_note(
                    &mut notes,
                    Note::Banner("Clear workspace: ".to_string().concat(self.app.state.dir())),
                );
                add_note(
                    &mut notes,
                    Note::Dim(
                        "  this does NOT delete KIND clusters or cloud resources".to_string(),
                    ),
                );
                assert(note_views(notes@) =~= seq![
                    NoteView::Banner("Clear workspace: "@ + self@.state.dir),
                    NoteView::Dim("  this does NOT delete KIND clusters or cloud resources"@),
                ]);
                self.stage = Stage::ClearLook;
                Effect::Print(notes)
            },
            Stage::ClearLook => {
                self.stage = Stage::ClearLooked;
                Effect::Look { path: self.app.state.dir().to_string() }
            },
            Stage::ClearLooked => {
                if let Report::Exists(true) = report {
                    self.stage = Stage::ClearRemoved;
                    Effect::Remove { path: self.app.state.dir().to_string() }
                } else {
                    add_note(&mut notes, Note::Info("nothing to clear".to_string()));
                    assert(note_views(notes@) =~= seq![NoteView::Info("nothing to clear"@)]);
                    self.stage = Stage::Leave(0);
                    Effect::Print(notes)
                }
            },
            _ => {
                add_note(&mut notes, Note::Success("workspace cleared".to_string()));
                assert(note_views(notes@) =~= seq![NoteView::Success("workspace cleared"@)]);
                self.stage = Stage::Leave(0);
                Effect::Print(notes)
            },
        }
    }

    fn destroy(&mut self, report: Report) -> (r: Effect)
        requires
            match old(self)@.stage {
                Stage::DestroyGreet | Stage::DestroyLook => true,
                Stage::DestroyLooked | Stage::DestroyRemoved => true,
                _ => false,
            },
            !(report@ is Failed),
        ensures
            old(self).stepped(*final(self), report@, r@),
    {
        proof {
            lemma_quiet(self.app.runner.events(), self.app.progress.said());
        }
        let mut notes: Vec<Note> = Vec::new();
        match self.stage {
            Stage::DestroyGreet => {
                add_note(&mut notes, Note::Banner("Destroy local demo environment".to_string()));
                assert(note_views(notes@) =~= seq![
                    NoteView::Banner("Destroy local demo environment"@),
                ]);
                self.stage = Stage::DestroyFind;
                Effect::Print(notes)
            },
            Stage::DestroyLook => {
                self.stage = Stage::DestroyLooked;
                Effect::Look { path: self.app.state.dir().to_string() }
            },
            Stage::DestroyLooked => {
                if let Report::Exists(true) = report {
                    self.stage = Stage::DestroyRemoved;
                    Effect::Remove { path: self.app.state.dir().to_string() }
                } else {
                    add_cloud_note(&mut notes);
                    assert(note_views(notes@) =~= seq![cloud_note()]);
                    self.stage = Stage::Leave(0);
                    Effect::Print(notes)
                }
            },
            _ => {
                add_note(&mut notes, Note::Success("workspace cleared".to_string()));
                add_cloud_note(&mut notes);
                assert(note_views(notes@) =~= seq![
                    NoteView::Success("workspace cleared"@),
                    cloud_note(),
                ]);
                self.stage = Stage::Leave(0);
                Effect::Print(notes)
            },
        }
    }

    fn find_kind(&mut self) -> (r: Effect)
        requires
            old(self)@.stage == Stage::DestroyFind,
        ensures
            old(self).stepped(*final(self), ReportView::Done, r@),
    {
        let ghost before = self.app.runner.events();
        let mut notes: Vec<Note> = Vec::new();
        let found = self.app.runner.has_command("kind");
        proof {
            let e = Event::Looked("kind"@, found);
            lemma_quiet(before, self.app.progress.said());
            lemma_since(before, seq![e]);
            assert(before + seq![e] =~= before.push(e));
            assert(asks(seq![e]) =~= seq![Ask::Find("kind"@)]);
        }
        if found {
            add_deleting(&mut notes, Answers::new().source_cluster().as_str());
            assert(note_views(notes@) =~= seq![deleting(source_cluster_name())]);
            self.stage = Stage::DestroySource;
        } else {
            add_note(
                &mut notes,
                Note::Warning("kind not on PATH; skipping cluster deletion".to_string()),
            );
            assert(note_views(notes@) =~= seq![
                NoteView::Warning("kind not on PATH; skipping cluster deletion"@),
            ]);
            self.stage = Stage::DestroyLook;
        }
        Effect::Print(notes)
    }

    fn delete_cluster(&mut self) -> (r: Effect)
        requires
            old(self)@.stage == Stage::DestroySource || old(self)@.stage == Stage::DestroyTarget,
        ensures
            old(self).stepped(*final(self), ReportView::Done, r@),
    {
        let ghost before = self.app.runner.events();
        let first = self.stage == Stage::DestroySource;
        let answers = Answers::new();
        let name = if first {
            answers.source_cluster()
        } else {
            answers.target_cluster()
        };
        let args: [&str; 4] = ["delete", "cluster", "--name", name.as_str()];
        let out = self.app.runner.run("kind", &args);
        proof {
            let call = delete_cluster_call(name@);
            assert(str_texts(args@) =~= call.args);
            let e = Event::Ran(call, out@);
            lemma_quiet(before, self.app.progress.said());
            lemma_since(before, seq![e]);
            assert(before + seq![e] =~= before.push(e));
            assert(asks(seq![e]) =~= seq![Ask::Run(call)]);
        }
        let mut notes: Vec<Note> = Vec::new();
        if out.success() {
            add_note(&mut notes, Note::Success(name.clone().concat(" deleted")));
        } else {
            add_note(
                &mut notes,
                Note::Warning(
                    "could not delete ".to_string().concat(name.as_str()).concat(": ").concat(
                        trim(out.stderr.as_str()),
                    ),
                ),
            );
        }
        assert(note_views(notes@) =~= seq![deleted(name@, out@)]);
        if first {
            add_deleting(&mut notes, answers.target_cluster().as_str());
            assert(note_views(notes@) =~= seq![
                deleted(name@, out@),
                deleting(target_cluster_name()),
            ]);
            self.stage = Stage::DestroyTarget;
        } else {
            self.stage = Stage::DestroyLook;
        }
        Effect::Print(notes)
    }

    fn status(&mut self, report: Report) -> (r: Effect)
        requires
            match old(self)@.stage {
                Stage::StatusRead | Stage::StatusLoaded | Stage::StatusShown => true,
                _ => false,
            },
            !(report@ is Failed),
        ensures
            old(self).stepped(*final(self), report@, r@),
    {
        proof {
            lemma_quiet(self.app.runner.events(), self.app.progress.said());
        }
        match self.stage {
            Stage::StatusRead => {
                self.stage = Stage::StatusLoaded;
                Effect::Load { path: self.app.state.plan_path() }
            },
            Stage::StatusLoaded => if let Report::Loaded(Some(plan)) = report {
                self.app.state.plan = plan;
                self.stage = Stage::StatusShown;
                Effect::Dashboard
            } else {
                self.fail(Error::die("no saved plan in this workspace; run `ma-demo` first"))
            },
            _ => {
                self.stage = Stage::Leave(0);
                Effect::Again
            },
        }
    }

    fn tell(&mut self) -> (r: Effect)
        requires
            old(self)@.stage == Stage::Tell,
        ensures
            old(self).stepped(*final(self), ReportView::Done, r@),
    {
        proof {
            lemma_quiet(self.app.runner.events(), self.app.progress.said());
        }
        let mut notes: Vec<Note> = Vec::new();
        match self.command {
            Command::Version => {
                add_note(&mut notes, Note::Info(self.setup.version.clone()));
                assert(note_views(notes@) =~= seq![NoteView::Info(self@.setup.version)]);
                self.stage = Stage::Leave(0);
            },
            Command::Help => {
                add_note(&mut notes, Note::Raw(help_text(self.setup.version.as_str())));
                assert(note_views(notes@) =~= seq![NoteView::Raw(help_of(self@.setup.version))]);
                self.stage = Stage::Leave(0);
            },
            _ => {
                add_note(&mut notes, Note::Raw(help_text(self.setup.version.as_str())));
                add_note(&mut notes, Note::Failure("unknown command".to_string()));
                assert(note_views(notes@) =~= seq![
                    NoteView::Raw(help_of(self@.setup.version)),
                    NoteView::Failure("unknown command"@),
                ]);
                self.stage = Stage::Leave(64);
            },
        }
        Effect::Print(notes)
    }

    /// Which question of how many the next step asks. One that is asked again is not counted.
    pub fn question_step(&self) -> (r: Option<(usize, usize)>)
        ensures
            r == self@.question_step(),
    {
        match self.stage {
            Stage::Ask => step_of(next_question_id(&self.app.state.plan.answers)),
            _ => None,
        }
    }

    /// Goes on, the last effect being brought about as `report` says.
    pub fn step(&mut self, report: Report) -> (r: Effect)
        requires
            old(self)@.wf(),
        ensures
            old(self).stepped(*final(self), report@, r@),
            final(self)@.wf(),
    {
        proof {
            lemma_quiet(self.app.runner.events(), self.app.progress.said());
        }
        if let Stage::Leave(code) = self.stage {
            return Effect::Exit(code);
        }
        if let Report::Failed(e) = report {
            return self.fail(e);
        }
        match self.stage {
            Stage::Greet => self.greet(),
            Stage::Read => {
                self.stage = Stage::Loaded;
                Effect::Load { path: self.app.state.plan_path() }
            },
            Stage::Loaded => self.loaded(report),
            Stage::Ask => self.ask(),
            Stage::Kept => self.kept(),
            Stage::Gather => self.gather_context(),
            Stage::Reviewed => self.reviewed(report),
            Stage::Reask(q) => self.reask(q),
            Stage::Shown => self.check(),
            Stage::Checked => self.begin(),
            Stage::Provision => self.provision(),
            Stage::Raised => self.raised(),
            Stage::Terraform => self.apply(),
            Stage::Identify => self.identify(),
            Stage::Collection => self.collect(),
            Stage::Await(polls) => self.poll(polls),
            Stage::Reached => self.reached(),
            Stage::Handoff => self.hand_over(),
            Stage::Deploy => self.deploy(),
            Stage::Install => self.install(),
            Stage::Settled => self.settled(),
            Stage::Watched => self.settled(),
            Stage::Announced => self.launch(),
            Stage::ClearGreet => self.clear(report),
            Stage::ClearLook => self.clear(report),
            Stage::ClearLooked => self.clear(report),
            Stage::ClearRemoved => self.clear(report),
            Stage::DestroyGreet => self.destroy(report),
            Stage::DestroyFind => self.find_kind(),
            Stage::DestroySource => self.delete_cluster(),
            Stage::DestroyTarget => self.delete_cluster(),
            Stage::DestroyLook => self.destroy(report),
            Stage::DestroyLooked => self.destroy(report),
            Stage::DestroyRemoved => self.destroy(report),
            Stage::StatusRead => self.status(report),
            Stage::StatusLoaded => self.status(report),
            Stage::StatusShown => self.status(report),
            Stage::Tell => self.tell(),
            Stage::Leave(code) => Effect::Exit(code),
        }
    }
}

fn tool_error(program: &str) -> (r: Error)
    ensures
        r@ == missing_tool(program@),
{
    let message = "required tool not found on PATH: ".to_string().concat(program).concat(
        ". Install it and re-run.",
    );
    Error::die(message.as_str())
}

fn add_deleting(v: &mut Vec<Note>, name: &str)
    ensures
        note_views(final(v)@) == note_views(old(v)@).push(deleting(name@)),
{
    add_note(v, Note::Step("kind delete cluster ".to_string().concat(name)));
}

fn add_cloud_note(v: &mut Vec<Note>)
    ensures
        note_views(final(v)@) == note_views(old(v)@).push(cloud_note()),
{
    add_note(
        v,
        Note::Dim(
            "  (cloud) for an AWS deploy, run `terraform destroy` in terraform/".to_string(),
        ),
    );
}

/// Asks for the caller at AWS. That the tool is missing, or that there are no credentials that hold,
/// is an error.
fn ask_for_caller<R: CommandRunner>(runner: &mut Logged<R>, profile: &str, region: &str) -> (r:
    Result<String, Error>)
    ensures
        old(runner).leads_to(*final(runner)),
        grew(old(runner).events(), final(runner).events()),
        ({
            let log = since(old(runner).events(), final(runner).events());
            let found = log[0].found();
            &&& asks(log) == if found {
                seq![Ask::Find("aws"@), Ask::Run(identity_query(profile@, region@))]
            } else {
                seq![Ask::Find("aws"@)]
            }
            &&& match r {
                Ok(arn) => found && identity_in(log[1].output()) == Some(arn@),
                Err(e) => if found {
                    identity_in(log[1].output()) is None && e@ == fatal(
                        "no valid AWS credentials for profile "@ + profile@,
                    )
                } else {
                    e@ == missing_tool("aws"@)
                },
            }
        }),
{
    let ghost before = runner.events();
    let found = runner.has_command("aws");
    let ghost first = Event::Looked("aws"@, found);
    if !found {
        proof {
            lemma_since(before, seq![first]);
            assert(before + seq![first] =~= before.push(first));
            assert(asks(seq![first]) =~= seq![Ask::Find("aws"@)]);
        }
        return Err(tool_error("aws"));
    }
    let identity = caller_identity(runner, profile, region);
    proof {
        let log = seq![first, runner.events().last()];
        lemma_since(before, log);
        assert(before + log =~= before.push(first).push(log[1]));
        assert(asks(log) =~= seq![
            Ask::Find("aws"@),
            Ask::Run(identity_query(profile@, region@)),
        ]);
    }
    match identity {
        Some(arn) => Ok(arn),
        None => {
            let message = "no valid AWS credentials for profile ".to_string().concat(profile);
            Err(Error::die(message.as_str()))
        },
    }
}

proof fn lemma_quiet(events: Seq<Event>, said: Seq<Said>)
    ensures
        grew(events, events),
        since(events, events) == Seq::<Event>::empty(),
        asks(Seq::<Event>::empty()) == Seq::<Ask>::empty(),
        said + Seq::<Said>::empty() == said,
{
    lemma_since(events, seq![]);
    assert(events + Seq::<Event>::empty() =~= events);
    assert(asks(Seq::<Event>::empty()) =~= Seq::<Ask>::empty());
    assert(said + Seq::<Said>::empty() =~= said);
}

// ---------------------------------------------------------------------------
// What holds of every session
// ---------------------------------------------------------------------------

/// A session that is over stays as it is, and exits with its code however often it is asked.
pub proof fn law_a_session_that_is_over_stays_over(
    v: SessionView,
    report: ReportView,
    log: Seq<Event>,
    reply: Result<OutcomeView, ErrorView>,
)
    requires
        v.stage is Leave,
    ensures
        v.turn(report, log, reply) == (v, EffectView::Exit(v.stage->Leave_0)),
        v.asks(report, log) == Seq::<Ask>::empty(),
        v.asking(report) is None,
{
}

/// An effect that fails ends the session: its error is shown, and its code is the exit code.
pub proof fn law_failures_end_the_session(
    v: SessionView,
    e: ErrorView,
    log: Seq<Event>,
    reply: Result<OutcomeView, ErrorView>,
)
    requires
        !(v.stage is Leave),
    ensures
        v.turn(ReportView::Failed(e), log, reply) == (
            v.at(Stage::Leave(e.code)),
            EffectView::Print(seq![NoteView::Failure(e.message)]),
        ),
        v.asks(ReportView::Failed(e), log) == Seq::<Ask>::empty(),
{
}

/// A command that is not known prints the help and exits with 64. It asks nothing and touches
/// nothing.
pub proof fn law_unknown_commands_exit_with_64(
    args: Seq<Seq<char>>,
    setup: SetupView,
    log: Seq<Event>,
    reply: Result<OutcomeView, ErrorView>,
)
    requires
        command_of(args) == Command::Unknown,
    ensures
        ({
            let v = session_for(args, setup);
            let (w, effect) = v.turn(ReportView::Done, log, reply);
            &&& w.stage == Stage::Leave(64)
            &&& effect == EffectView::Print(
                seq![
                    NoteView::Raw(help_of(setup.version)),
                    NoteView::Failure("unknown command"@),
                ],
            )
            &&& v.asks(ReportView::Done, log) == Seq::<Ask>::empty()
            &&& w.turn(ReportView::Done, log, reply).1 == EffectView::Exit(64)
        }),
{
}

/// A step that asks nothing of the runner leaves the runner as it was, and one that puts no question
/// or says nothing leaves the wizard or the progress as it was: nothing is done behind the records.
pub proof fn law_what_is_not_asked_is_not_touched<R: CommandRunner, P: Progress, W: Wizardish>(
    pre: Session<R, P, W>,
    post: Session<R, P, W>,
    report: ReportView,
    effect: EffectView,
)
    requires
        pre.stepped(post, report, effect),
    ensures
        ({
            let log = since(pre.app.runner.events(), post.app.runner.events());
            &&& pre@.asks(report, log).len() == 0 ==> post.app.runner.current()
                == pre.app.runner.current()
            &&& pre@.says(report, log).len() == 0 ==> post.app.progress.current()
                == pre.app.progress.current()
            &&& pre@.asking(report) is None ==> post.wiz.current() == pre.wiz.current()
        }),
{
    let log = since(pre.app.runner.events(), post.app.runner.events());
    assert(asks(log).len() == log.len());
    if log.len() == 0 {
        law_a_log_that_stays_tells_of_nothing(pre.app.runner, post.app.runner);
    }
    if pre@.says(report, log).len() == 0 {
        law_who_is_told_nothing_stays(pre.app.progress, post.app.progress);
    }
    if pre@.asking(report) is None {
        law_a_wizard_that_is_not_asked_stays(pre.wiz, post.wiz);
    }
}

/// A command that is not known leaves the runner, the progress and the wizard as they were, and the
/// session then exits with 64.
pub proof fn law_unknown_commands_touch_nothing<R: CommandRunner, P: Progress, W: Wizardish>(
    args: Seq<Seq<char>>,
    setup: SetupView,
    first: Session<R, P, W>,
    second: Session<R, P, W>,
    third: Session<R, P, W>,
    told: EffectView,
    last: EffectView,
)
    requires
        command_of(args) == Command::Unknown,
        first@ == session_for(args, setup),
        first.stepped(second, ReportView::Done, told),
        second.stepped(third, ReportView::Done, last),
    ensures
        last == EffectView::Exit(64),
        third.app.runner.current() == first.app.runner.current(),
        third.app.progress.current() == first.app.progress.current(),
        third.wiz.current() == first.wiz.current(),
{
    law_what_is_not_asked_is_not_touched(first, second, ReportView::Done, told);
    law_what_is_not_asked_is_not_touched(second, third, ReportView::Done, last);
}

/// Nothing beyond the plan is reached.
pub open spec fn only_plans(v: SessionView) -> bool {
    v.dry_run && match v.stage {
        Stage::Greet | Stage::Read | Stage::Loaded | Stage::Ask | Stage::Kept => true,
        Stage::Leave(_) => true,
        _ => false,
    }
}

/// A dry run, and the command `plan`, run no command, write nothing but the plan and remove nothing:
/// they begin before the plan is shown, and no step of theirs leads further.
pub proof fn law_dry_runs_create_nothing(
    args: Seq<Seq<char>>,
    setup: SetupView,
    v: SessionView,
    report: ReportView,
    log: Seq<Event>,
    reply: Result<OutcomeView, ErrorView>,
)
    requires
        only_plans(v),
    ensures
        command_of(args) == Command::Plan || command_of(args) == Command::Run && flags_of(
            flag_args(args),
        ).dry_run ==> only_plans(session_for(args, setup)),
        ({
            let (w, effect) = v.turn(report, log, reply);
            &&& only_plans(w)
            &&& v.asks(report, log) == Seq::<Ask>::empty()
            &&& !(effect is Do) && !(effect is Remove)
        }),
{
    reveal(SessionView::greet_turn);
    reveal(SessionView::loaded_turn);
    reveal(SessionView::ask_turn);
    reveal(SessionView::kept_turn);
}

/// A step of a dry run leaves the runner as it was: no command is run, and none is looked for.
pub proof fn law_dry_runs_leave_the_runner_alone<R: CommandRunner, P: Progress, W: Wizardish>(
    pre: Session<R, P, W>,
    post: Session<R, P, W>,
    report: ReportView,
    effect: EffectView,
)
    requires
        only_plans(pre@),
        pre.stepped(post, report, effect),
    ensures
        only_plans(post@),
        post.app.runner.current() == pre.app.runner.current(),
        !(effect is Do) && !(effect is Remove),
{
    let log = since(pre.app.runner.events(), post.app.runner.events());
    let reply = post.wiz.exchanges().last().reply;
    law_dry_runs_create_nothing(seq![], pre@.setup, pre@, report, log, reply);
    law_what_is_not_asked_is_not_touched(pre, post, report, effect);
}

/// The stages before anything is carried out.
pub open spec fn early(stage: Stage) -> bool {
    match stage {
        Stage::Greet | Stage::Read | Stage::Loaded | Stage::Ask | Stage::Kept => true,
        Stage::Gather | Stage::Reviewed | Stage::Reask(_) => true,
        _ => false,
    }
}

/// A run that asks carries nothing out before its plan was confirmed in the review, not even one that
/// was answered long ago: till then nothing is written but the plan, nothing is removed, and the
/// runner is asked only for what the review tells.
pub proof fn law_nothing_is_carried_out_unconfirmed(
    v: SessionView,
    report: ReportView,
    log: Seq<Event>,
    reply: Result<OutcomeView, ErrorView>,
)
    requires
        early(v.stage),
        !v.flags.non_interactive,
    ensures
        ({
            let (w, effect) = v.turn(report, log, reply);
            &&& !w.flags.non_interactive
            &&& early(w.stage) || w.stage is Leave || w.stage == Stage::Shown && v.stage
                == Stage::Reviewed && report == ReportView::Reviewed(ReviewOutcome::Confirm)
            &&& !(effect is Do) && !(effect is Remove)
            &&& v.stage != Stage::Gather ==> v.asks(report, log) == Seq::<Ask>::empty()
        }),
{
    reveal(SessionView::greet_turn);
    reveal(SessionView::loaded_turn);
    reveal(SessionView::ask_turn);
    reveal(SessionView::kept_turn);
    reveal(SessionView::gather_turn);
    reveal(SessionView::reviewed_turn);
    reveal(SessionView::reask_turn);
}

/// Before its plan was confirmed, a step of a run that asks leaves the runner as it was, but for
/// finding out what the review tells.
pub proof fn law_unconfirmed_runs_leave_the_runner_alone<
    R: CommandRunner,
    P: Progress,
    W: Wizardish,
>(
    pre: Session<R, P, W>,
    post: Session<R, P, W>,
    report: ReportView,
    effect: EffectView,
)
    requires
        early(pre@.stage),
        !pre@.flags.non_interactive,
        pre.stepped(post, report, effect),
    ensures
        pre@.stage != Stage::Gather ==> post.app.runner.current() == pre.app.runner.current(),
        pre@.stage == Stage::Gather && !(report is Failed) ==> {
            let log = since(pre.app.runner.events(), post.app.runner.events());
            asks(log) == context_asks(pre@.answers(), pre@.quiet(), log)
        },
{
    let log = since(pre.app.runner.events(), post.app.runner.events());
    let reply = post.wiz.exchanges().last().reply;
    law_nothing_is_carried_out_unconfirmed(pre@, report, log, reply);
    law_what_is_not_asked_is_not_touched(pre, post, report, effect);
}

/// Where a run that asks nothing can be.
pub open spec fn unasked(v: SessionView) -> bool {
    v.flags.non_interactive && v.stage != Stage::Ask && v.stage != Stage::Reviewed && !(
    v.stage is Reask)
}

/// A run that accepts all defaults puts no question: it never comes to where questions are asked,
/// and where the saved plan has come back it has an answer to everything.
pub proof fn law_defaults_ask_nothing(
    args: Seq<Seq<char>>,
    setup: SetupView,
    v: SessionView,
    report: ReportView,
    log: Seq<Event>,
    reply: Result<OutcomeView, ErrorView>,
)
    requires
        unasked(v),
    ensures
        flags_of(flag_args(args)).non_interactive ==> unasked(session_for(args, setup)),
        v.asking(report) is None,
        unasked(v.turn(report, log, reply).0),
        v.stage == Stage::Loaded && !(report is Failed) ==> next_of(
            v.turn(report, log, reply).0.answers(),
        ) == QuestionId::Review,
{
    if v.heeds(report) {
    } else if early(v.stage) {
        lemma_unasked_early(v, report, log, reply);
    } else if v.running() {
        lemma_unasked_late(v, report, log, reply);
    }
}

proof fn lemma_unasked_early(
    v: SessionView,
    report: ReportView,
    log: Seq<Event>,
    reply: Result<OutcomeView, ErrorView>,
)
    requires
        unasked(v),
        early(v.stage),
        !v.heeds(report),
    ensures
        unasked(v.turn(report, log, reply).0),
        v.stage == Stage::Loaded ==> next_of(v.turn(report, log, reply).0.answers())
            == QuestionId::Review,
{
    reveal(SessionView::greet_turn);
    reveal(SessionView::loaded_turn);
    reveal(SessionView::kept_turn);
    reveal(SessionView::gather_turn);
    let taken = match report {
        ReportView::Loaded(Some(plan)) => v.with_plan(plan),
        _ => v,
    };
    law_defaults_complete_the_plan(overridden(taken.answers(), v.flags));
}

proof fn lemma_unasked_late(
    v: SessionView,
    report: ReportView,
    log: Seq<Event>,
    reply: Result<OutcomeView, ErrorView>,
)
    requires
        unasked(v),
        v.running(),
        !early(v.stage),
        !v.heeds(report),
    ensures
        unasked(v.turn(report, log, reply).0),
{
    match v.stage {
        Stage::Shown => reveal(SessionView::check_turn),
        Stage::Checked => reveal(SessionView::begin_turn),
        Stage::Provision => reveal(SessionView::provision_turn),
        Stage::Raised => reveal(SessionView::raised_turn),
        Stage::Terraform | Stage::Collection | Stage::Deploy => reveal(SessionView::errand_turn),
        Stage::Identify => reveal(SessionView::identify_turn),
        Stage::Await(_) => reveal(SessionView::await_turn),
        Stage::Reached => reveal(SessionView::reached_turn),
        Stage::Handoff => reveal(SessionView::handoff_turn),
        Stage::Install => reveal(SessionView::install_turn),
        Stage::Settled => reveal(SessionView::settled_turn),
        Stage::Announced => reveal(SessionView::launch_turn),
        _ => {},
    }
}

/// A plan that was answered before is taken up again without a question, with what the flags say in
/// its place, and comes to the review.
pub proof fn law_an_answered_plan_is_resumed(
    v: SessionView,
    plan: PlanView,
    log: Seq<Event>,
    reply: Result<OutcomeView, ErrorView>,
)
    requires
        v.stage == Stage::Loaded,
        v.reviews(),
        next_of(plan.answers) == QuestionId::Review,
    ensures
        ({
            let report = ReportView::Loaded(Some(plan));
            let (w, again) = v.turn(report, log, reply);
            let (x, save) = w.turn(ReportView::Done, log, reply);
            let (y, on) = x.turn(ReportView::Done, log, reply);
            let (z, review) = y.turn(ReportView::Done, log, reply);
            let answers = overridden(plan.answers, v.flags);
            &&& v.asking(report) is None && w.asking(ReportView::Done) is None
            &&& again == EffectView::Again && save == EffectView::Save && on == EffectView::Again
            &&& review is Review && review->rows == review_upto(answers, 11)
            &&& z.stage == Stage::Reviewed && z.state.plan == (PlanView { answers, ..plan })
        }),
{
    reveal(SessionView::loaded_turn);
    reveal(SessionView::ask_turn);
    reveal(SessionView::kept_turn);
    reveal(SessionView::gather_turn);
    let answers = overridden(plan.answers, v.flags);
    law_next_question_is_the_first_open_one(answers, next_of(answers));
    law_next_question_is_the_first_open_one(plan.answers, next_of(answers));
    assert(next_of(answers) == QuestionId::Review);
    assert((PlanView { answers: plan.answers, ..plan }) =~= plan);
}

/// Leaving the wizard ends the run with code 1. The answers stay as they were, and nothing is asked
/// of the runner.
pub proof fn law_leaving_the_wizard_ends_the_run(v: SessionView, log: Seq<Event>)
    requires
        v.asking(ReportView::Done) is Some,
    ensures
        v.turn(ReportView::Done, log, Ok(OutcomeView::Cancelled)) == (
            v.at(Stage::Leave(1)),
            EffectView::Print(seq![NoteView::Failure("setup cancelled by user"@)]),
        ),
        v.asks(ReportView::Done, log) == Seq::<Ask>::empty(),
{
    reveal(SessionView::ask_turn);
    reveal(SessionView::reask_turn);
    assert(v.with_answers(v.answers()) =~= v);
}

/// The stages of clearing the workspace.
pub open spec fn clearing(v: SessionView) -> bool {
    match v.stage {
        Stage::ClearGreet | Stage::ClearLook | Stage::ClearLooked | Stage::ClearRemoved => true,
        Stage::Leave(_) => true,
        _ => false,
    }
}

/// Clearing the workspace asks nothing of the runner, and so deletes no cluster; what it removes is
/// the workspace.
pub proof fn law_clearing_leaves_clusters_alone(
    v: SessionView,
    report: ReportView,
    log: Seq<Event>,
    reply: Result<OutcomeView, ErrorView>,
)
    requires
        clearing(v),
    ensures
        v.asks(report, log) == Seq::<Ask>::empty(),
        clearing(v.turn(report, log, reply).0),
        v.turn(report, log, reply).1 is Remove ==> v.turn(report, log, reply).1
            == (EffectView::Remove { path: v.state.dir }),
{
}

/// How far a stage is.
pub open spec fn rank(stage: Stage) -> int {
    match stage {
        Stage::Greet | Stage::ClearGreet | Stage::DestroyGreet | Stage::StatusRead => 0,
        Stage::Tell => 0,
        Stage::Read | Stage::ClearLook | Stage::DestroyFind | Stage::StatusLoaded => 1,
        Stage::Loaded | Stage::ClearLooked | Stage::DestroySource | Stage::StatusShown => 2,
        Stage::Ask | Stage::ClearRemoved | Stage::DestroyTarget => 3,
        Stage::Kept | Stage::DestroyLook => 4,
        Stage::Gather | Stage::DestroyLooked => 5,
        Stage::Reviewed | Stage::DestroyRemoved => 6,
        Stage::Reask(_) => 7,
        Stage::Shown => 8,
        Stage::Checked => 9,
        Stage::Provision => 10,
        Stage::Raised => 11,
        Stage::Terraform | Stage::Identify => 12,
        Stage::Collection => 13,
        Stage::Await(_) => 14,
        Stage::Reached => 15,
        Stage::Handoff => 16,
        Stage::Deploy | Stage::Install => 17,
        Stage::Settled => 18,
        Stage::Watched => 19,
        Stage::Announced => 20,
        Stage::Leave(_) => 21,
    }
}

/// One step led from `v` to `w` within a stage, and the stage is nearer to its end.
pub open spec fn nearer(v: SessionView, w: SessionView) -> bool {
    match (v.stage, w.stage) {
        (Stage::Provision, Stage::Provision) => 0 <= w.task.left() < v.task.left(),
        (Stage::Install, Stage::Install) => v.install.place() < w.install.place(),
        (Stage::Await(m), Stage::Await(n)) => m < n < MAX_POLLS,
        _ => v.on_errands() && w.stage == v.stage && w.errands == v.errands && v.done < w.done
            <= w.errands.len(),
    }
}

/// One step of a session led from `v` to `w`.
pub open spec fn further(v: SessionView, report: ReportView, w: SessionView) -> bool {
    ||| rank(w.stage) > rank(v.stage)
    ||| nearer(v, w)
    ||| v.asking(report) is Some && w.stage == Stage::Ask
    ||| v.stage == Stage::Reask(QuestionId::Review) && w.stage == Stage::Ask
    ||| v.stage is Leave && w == v
}

/// Every step of a session leads further: to a later stage, or nearer to the end of the stage at
/// hand. Only the operator can send it back, by an answer that does not settle its question or by
/// going back to a question from the review; and a session that is over stays over.
pub proof fn law_every_step_leads_further(
    v: SessionView,
    report: ReportView,
    log: Seq<Event>,
    reply: Result<OutcomeView, ErrorView>,
)
    requires
        v.wf(),
        v.install != Install::Finished,
    ensures
        further(v, report, v.turn(report, log, reply).0),
{
    if v.heeds(report) || !v.running() {
        lemma_others_lead_further(v, report, log, reply);
    } else if early(v.stage) {
        lemma_answers_lead_further(v, report, log, reply);
    } else if v.stage == Stage::Provision {
        lemma_plans_lead_further(v, report, log, reply);
    } else if v.on_errands() || v.stage == Stage::Install {
        lemma_errands_lead_further(v, report, log, reply);
    } else {
        lemma_stages_lead_further(v, report, log, reply);
    }
}

proof fn lemma_others_lead_further(
    v: SessionView,
    report: ReportView,
    log: Seq<Event>,
    reply: Result<OutcomeView, ErrorView>,
)
    requires
        v.heeds(report) || !v.running(),
    ensures
        further(v, report, v.turn(report, log, reply).0),
{
}

proof fn lemma_answers_lead_further(
    v: SessionView,
    report: ReportView,
    log: Seq<Event>,
    reply: Result<OutcomeView, ErrorView>,
)
    requires
        !v.heeds(report),
        early(v.stage),
    ensures
        further(v, report, v.turn(report, log, reply).0),
{
    reveal(SessionView::greet_turn);
    reveal(SessionView::loaded_turn);
    reveal(SessionView::ask_turn);
    reveal(SessionView::kept_turn);
    reveal(SessionView::gather_turn);
    reveal(SessionView::reviewed_turn);
    reveal(SessionView::reask_turn);
}

proof fn lemma_plans_lead_further(
    v: SessionView,
    report: ReportView,
    log: Seq<Event>,
    reply: Result<OutcomeView, ErrorView>,
)
    requires
        !v.heeds(report),
        v.wf(),
        v.stage == Stage::Provision,
    ensures
        further(v, report, v.turn(report, log, reply).0),
{
    reveal(SessionView::provision_turn);
    if v.task.error(log) is None {
        law_every_plan_comes_to_an_end(v.task, v.state.dir, log);
        assert(0 <= v.task.next(log).left());
    }
}

proof fn lemma_errands_lead_further(
    v: SessionView,
    report: ReportView,
    log: Seq<Event>,
    reply: Result<OutcomeView, ErrorView>,
)
    requires
        !v.heeds(report),
        v.wf(),
        v.on_errands() || v.stage == Stage::Install,
        v.install != Install::Finished,
    ensures
        further(v, report, v.turn(report, log, reply).0),
{
    reveal(SessionView::errand_turn);
    reveal(SessionView::install_turn);
}

proof fn lemma_stages_lead_further(
    v: SessionView,
    report: ReportView,
    log: Seq<Event>,
    reply: Result<OutcomeView, ErrorView>,
)
    requires
        !v.heeds(report),
        v.running(),
        !early(v.stage),
        !v.on_errands(),
        v.stage != Stage::Provision,
        v.stage != Stage::Install,
    ensures
        further(v, report, v.turn(report, log, reply).0),
{
    match v.stage {
        Stage::Shown => reveal(SessionView::check_turn),
        Stage::Checked => reveal(SessionView::begin_turn),
        Stage::Raised => reveal(SessionView::raised_turn),
        Stage::Identify => reveal(SessionView::identify_turn),
        Stage::Await(_) => reveal(SessionView::await_turn),
        Stage::Reached => reveal(SessionView::reached_turn),
        Stage::Handoff => reveal(SessionView::handoff_turn),
        Stage::Settled => reveal(SessionView::settled_turn),
        Stage::Announced => reveal(SessionView::launch_turn),
        _ => {},
    }
}

/// There is one way to a target: no second cluster is made for one that is a collection, and where
/// Terraform carries the plan out the target is left to it.
pub proof fn law_one_way_to_a_target(v: SessionView)
    requires
        v.stage == Stage::Raised,
        v.task == (ProvisionView { apply: v.flags.applies(), ..ProvisionView::start(v.answers()) }),
    ensures
        ({
            let w = v.turn(ReportView::Done, seq![], Ok(OutcomeView::Cancelled)).0;
            &&& w.stage == Stage::Identify <==> v.needs_collection()
            &&& v.needs_collection() ==> v.task.plan.target_host is None
            &&& w.stage == Stage::Terraform ==> v.answers().target == Some(Target::Cloud)
        }),
{
    reveal(SessionView::raised_turn);
}

/// Where an active target collection is reached is recorded in the plan and saved, and then said.
pub proof fn law_the_endpoint_of_a_collection_is_recorded(
    v: SessionView,
    polls: u64,
    log: Seq<Event>,
    reply: Result<OutcomeView, ErrorView>,
)
    requires
        v.stage == Stage::Await(polls),
        active_endpoint(log[0].output()) is Some,
    ensures
        ({
            let endpoint = active_endpoint(log[0].output())->0;
            let (w, effect) = v.turn(ReportView::Done, log, reply);
            let (x, told) = w.turn(ReportView::Done, seq![], reply);
            &&& w.state.plan.target_endpoint == Some(endpoint)
            &&& effect == EffectView::Save
            &&& x.state == w.state
            &&& x.stage == Stage::Handoff
            &&& told == EffectView::Print(
                endpoint_notes(v.task.plan, v.answers()).push(
                    NoteView::Dim("  target   "@ + endpoint + "  (collection)"@),
                ),
            )
        }),
{
    reveal(SessionView::await_turn);
    reveal(SessionView::reached_turn);
}

} // verus!
