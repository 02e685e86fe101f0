//! The course of a run: where its stages lead.

use crate::app::{bin_dir, Install, JobView};
use crate::aws::{identity_in, identity_query};
use crate::cli::{
    command_of, endpoint_notes, help_of, launch_call, plan_notes, session_for, Command, SetupView,
};
use crate::collection::provisioning;
use crate::error::ErrorView;
use crate::handoff::{console_command, deployment};
use crate::model::{MaHandoff, Target, TargetKind, TargetMode};
use crate::runner::{lemma_passes, Ask, Event};
use crate::session::{active_endpoint, EffectView, ReportView, SessionView, Stage};
use crate::state::{PlanView, Step};
use crate::terraform::application;
use crate::tui::{OutcomeView, ReviewOutcome};
use crate::ui::NoteView;
use crate::wizard::{applied, filled, next_of, review_upto, AnswerView, QuestionId};
use vstd::prelude::*;

verus! {

/// A saved plan is taken up as it was saved, and a run that asks nothing fills in what it leaves open.
pub proof fn law_a_saved_plan_is_taken_up(
    v: SessionView,
    plan: PlanView,
    log: Seq<Event>,
    reply: Result<OutcomeView, ErrorView>,
)
    requires
        v.stage == Stage::Loaded,
        v.flags.ma_handoff is None,
        v.flags.aws_region is None,
        v.flags.aws_profile is None,
    ensures
        ({
            let (w, effect) = v.turn(ReportView::Loaded(Some(plan)), log, reply);
            &&& !v.flags.non_interactive ==> w.state.plan == plan && w.stage == Stage::Ask
            &&& v.flags.non_interactive ==> w.state.plan.answers == filled(plan.answers) && w.stage
                == Stage::Kept && effect == EffectView::Save
        }),
        ({
            let (w, effect) = v.turn(ReportView::Loaded(None), log, reply);
            !v.flags.non_interactive ==> w.state.plan == v.state.plan
        }),
{
    reveal(SessionView::loaded_turn);
    let (w, effect) = v.turn(ReportView::Loaded(Some(plan)), log, reply);
    if !v.flags.non_interactive {
        assert(w.state.plan =~= plan);
        let (x, _) = v.turn(ReportView::Loaded(None), log, reply);
        assert(x.state.plan =~= v.state.plan);
    }
}

/// A dry run prints its whole plan and says that nothing is created.
pub proof fn law_a_dry_run_prints_its_plan(
    v: SessionView,
    log: Seq<Event>,
    reply: Result<OutcomeView, ErrorView>,
)
    requires
        v.stage == Stage::Kept,
        v.dry_run,
    ensures
        v.turn(ReportView::Done, log, reply) == (
            v.at(Stage::Leave(0)),
            EffectView::Print(
                (seq![NoteView::Step("Plan"@)] + plan_notes(v.answers())).push(
                    NoteView::Success("dry run — no resources created"@),
                ),
            ),
        ),
{
    reveal(SessionView::kept_turn);
}

/// What is reviewed is the plan at hand; what follows is what the review said.
pub proof fn law_the_review_decides(
    v: SessionView,
    q: QuestionId,
    log: Seq<Event>,
    reply: Result<OutcomeView, ErrorView>,
)
    ensures
        v.stage == Stage::Gather && !v.flags.non_interactive ==> ({
            let effect = v.turn(ReportView::Done, log, reply).1;
            effect is Review && effect->rows == review_upto(v.answers(), 11)
        }),
        v.stage == Stage::Reviewed ==> {
            &&& v.turn(ReportView::Reviewed(ReviewOutcome::Confirm), log, reply).0.stage
                == Stage::Shown
            &&& v.turn(ReportView::Reviewed(ReviewOutcome::Edit(q)), log, reply).0.stage
                == Stage::Reask(q)
            &&& v.turn(ReportView::Reviewed(ReviewOutcome::Cancel), log, reply) == (
                v.at(Stage::Leave(1)),
                EffectView::Print(seq![NoteView::Failure("setup cancelled by user"@)]),
            )
        },
{
    reveal(SessionView::gather_turn);
    reveal(SessionView::reviewed_turn);
}

/// Where a plan goes once it is carried out: Terraform applies the files of an environment in the
/// cloud where that is wanted; a serverless target of a local environment is provisioned; else it is
/// said where everything is reached.
pub proof fn law_what_follows_a_plan(
    v: SessionView,
    log: Seq<Event>,
    reply: Result<OutcomeView, ErrorView>,
)
    requires
        v.stage == Stage::Raised,
    ensures
        ({
            let (w, effect) = v.turn(ReportView::Done, log, reply);
            let a = v.answers();
            let terraform = v.task.cloud && v.task.apply;
            let serverless = a.target == Some(Target::Local) && a.target_mode == Some(
                TargetMode::Provision,
            ) && a.target_kind == Some(TargetKind::AossServerlessNextGen);
            &&& terraform ==> w.stage == Stage::Terraform && w.errands == application(v.state.dir)
                && w.done == 0
            &&& !terraform && serverless ==> w.stage == Stage::Identify
            &&& !terraform && !serverless ==> w.stage == Stage::Handoff && effect
                == EffectView::Print(endpoint_notes(v.task.plan, a))
        }),
{
    reveal(SessionView::raised_turn);
}

/// A serverless target is provisioned for the caller that AWS names, with the profile and in the region
/// of the plan; without the tool or without credentials the run ends.
pub proof fn law_a_serverless_target_is_the_callers(
    v: SessionView,
    log: Seq<Event>,
    reply: Result<OutcomeView, ErrorView>,
)
    requires
        v.stage == Stage::Identify,
    ensures
        ({
            let (w, effect) = v.turn(ReportView::Done, log, reply);
            let a = v.answers();
            &&& v.asks(ReportView::Done, log)[0] == Ask::Find("aws"@)
            &&& log[0].found() ==> v.asks(ReportView::Done, log)[1] == Ask::Run(
                identity_query(a.profile(), a.region()),
            )
            &&& log[0].found() && identity_in(log[1].output()) is Some ==> w.stage
                == Stage::Collection && w.done == 0 && w.errands == provisioning(
                "ma-demo"@ + "-target"@,
                a.profile(),
                a.region(),
                identity_in(log[1].output())->0,
            )
            &&& !log[0].found() || identity_in(log[1].output()) is None ==> w.stage == Stage::Leave(
                1,
            )
        }),
{
    reveal(SessionView::identify_turn);
}

/// The Migration Assistant is deployed into a cluster where that was chosen for a local environment and
/// can be done, from the chart that was given; else its command line is installed.
pub proof fn law_how_the_assistant_is_handed_over_to(
    v: SessionView,
    log: Seq<Event>,
    reply: Result<OutcomeView, ErrorView>,
)
    requires
        v.stage == Stage::Handoff,
    ensures
        ({
            let (w, effect) = v.turn(ReportView::Done, log, reply);
            let a = v.answers();
            let wanted = a.target == Some(Target::Local) && a.ma_handoff == Some(
                MaHandoff::DeployLocalHelm,
            );
            let can = log[0].found() && v.setup.chart is Some;
            &&& wanted && can ==> w.stage == Stage::Deploy && w.done == 0 && w.errands == deployment(
                v.setup.chart->0,
            )
            &&& !(wanted && can) ==> w.stage == Stage::Install && w.install == Install::Begin
            &&& wanted && !can ==> effect is Print && effect->Print_0.len() == 1
                && effect->Print_0[0] is Warning
            &&& wanted ==> v.asks(ReportView::Done, log) == seq![Ask::Find("helm"@)]
            &&& !wanted ==> v.asks(ReportView::Done, log).len() == 0
        }),
{
    reveal(SessionView::handoff_turn);
}

/// What is started at the end is what was handed over to: the console of the cluster that was
/// deployed, or the program that was installed in this workspace.
pub proof fn law_what_is_started_at_the_end(
    v: SessionView,
    log: Seq<Event>,
    reply: Result<OutcomeView, ErrorView>,
)
    requires
        v.stage == Stage::Announced,
    ensures
        ({
            let (w, effect) = v.turn(ReportView::Done, log, reply);
            let status = log[0].output().status;
            &&& v.deployed ==> v.asks(ReportView::Done, log) == seq![
                Ask::Stream(launch_call(console_command())),
            ]
            &&& !v.deployed ==> v.asks(ReportView::Done, log) == seq![
                Ask::Stream(launch_call(seq![bin_dir(v.state.dir) + "/migration-assistant"@])),
            ]
            &&& status == 0 ==> w.stage == Stage::Leave(0)
            &&& status > 0 ==> w.stage == Stage::Leave(status)
            &&& status < 0 ==> w.stage == Stage::Leave(1)
        }),
{
    reveal(SessionView::launch_turn);
}

/// A run that asks nothing starts nothing and opens no dashboard; one that asks opens the dashboard
/// first unless that is not wanted, and then starts the assistant.
pub proof fn law_who_is_shown_the_dashboard(
    v: SessionView,
    log: Seq<Event>,
    reply: Result<OutcomeView, ErrorView>,
)
    requires
        v.stage == Stage::Settled || v.stage == Stage::Watched,
    ensures
        ({
            let (w, effect) = v.turn(ReportView::Done, log, reply);
            let opens = v.stage == Stage::Settled && !v.flags.non_interactive
                && !v.flags.no_dashboard;
            &&& effect is Dashboard <==> opens
            &&& opens ==> w.stage == Stage::Watched
            &&& !opens && v.flags.non_interactive ==> w.stage == Stage::Leave(0)
            &&& !opens && !v.flags.non_interactive ==> w.stage == Stage::Announced
        }),
{
    reveal(SessionView::settled_turn);
}

/// A deployment that is done is recorded and saved as ready.
pub proof fn law_a_deployment_is_recorded(
    v: SessionView,
    log: Seq<Event>,
    reply: Result<OutcomeView, ErrorView>,
)
    requires
        v.stage == Stage::Deploy,
        v.done >= v.errands.len(),
    ensures
        ({
            let (w, effect) = v.turn(ReportView::Done, log, reply);
            &&& w.stage == Stage::Settled
            &&& w.deployed
            &&& w.state.plan.step == Step::Ready
            &&& w.state.plan.answers == v.answers()
            &&& effect == EffectView::Save
        }),
{
    reveal(SessionView::errand_turn);
}

/// Errands are done one after the other; the first that fails ends the run, and none is skipped.
pub proof fn law_errands_are_done_in_turn(
    v: SessionView,
    log: Seq<Event>,
    reply: Result<OutcomeView, ErrorView>,
)
    requires
        v.on_errands(),
        0 <= v.done < v.errands.len(),
    ensures
        v.asks(ReportView::Done, log) == seq![v.errands[v.done].ask()],
        ({
            let w = v.turn(ReportView::Done, log, reply).0;
            let e = v.errands[v.done].error(log[0].output());
            &&& e is None ==> w == (SessionView { done: v.done + 1, ..v })
            &&& e is Some ==> w.stage == Stage::Leave((e->0).code)
        }),
{
    reveal(SessionView::errand_turn);
}

/// Destroying deletes the source cluster and then the target cluster, where there is a tool for it,
/// and goes on whatever becomes of that: each is told of as it went.
pub proof fn law_destroying_deletes_both_clusters(
    v: SessionView,
    report: ReportView,
    log: Seq<Event>,
    reply: Result<OutcomeView, ErrorView>,
)
    requires
        !(report is Failed),
    ensures
        ({
            let (w, effect) = v.turn(report, log, reply);
            let asked = v.asks(report, log);
            &&& v.stage == Stage::DestroyFind ==> asked == seq![Ask::Find("kind"@)] && w.stage == (
            if log[0].found() {
                Stage::DestroySource
            } else {
                Stage::DestroyLook
            })
            &&& v.stage == Stage::DestroySource ==> asked.len() == 1 && asked[0] is Run
                && asked[0]->Run_0.program == "kind"@ && asked[0]->Run_0.passes(
                "delete"@,
                "cluster"@,
            ) && asked[0]->Run_0.passes("--name"@, "ma-demo"@ + "-source"@) && w.stage
                == Stage::DestroyTarget
            &&& v.stage == Stage::DestroyTarget ==> asked.len() == 1 && asked[0] is Run
                && asked[0]->Run_0.program == "kind"@ && asked[0]->Run_0.passes(
                "delete"@,
                "cluster"@,
            ) && asked[0]->Run_0.passes("--name"@, "ma-demo"@ + "-target"@) && w.stage
                == Stage::DestroyLook
            &&& (v.stage == Stage::DestroySource || v.stage == Stage::DestroyTarget) ==> effect
                is Print && effect->Print_0.len() > 0 && (effect->Print_0[0] is Success
                <==> log[0].output().status == 0) && (effect->Print_0[0] is Warning
                <==> log[0].output().status != 0)
            &&& v.stage == Stage::DestroyLooked && report == ReportView::Exists(true) ==> effect == (
            EffectView::Remove { path: v.state.dir })
            &&& v.stage == Stage::DestroyLooked && report != ReportView::Exists(true) ==> w.stage
                == Stage::Leave(0)
        }),
{
    if v.stage == Stage::DestroySource || v.stage == Stage::DestroyTarget {
        let call = v.asks(report, log)[0]->Run_0;
        lemma_passes(call, 0, "delete"@, "cluster"@);
        lemma_passes(call, 2, "--name"@, call.args[3]);
    }
}

/// Clearing removes the workspace if it is there, and else says that there is nothing to clear.
pub proof fn law_clearing_removes_the_workspace(
    v: SessionView,
    log: Seq<Event>,
    reply: Result<OutcomeView, ErrorView>,
)
    ensures
        v.stage == Stage::ClearLook ==> v.turn(ReportView::Done, log, reply).1 == (EffectView::Look {
            path: v.state.dir,
        }),
        v.stage == Stage::ClearLooked ==> v.turn(ReportView::Exists(true), log, reply).1 == (
        EffectView::Remove { path: v.state.dir }),
        v.stage == Stage::ClearLooked ==> v.turn(ReportView::Exists(false), log, reply) == (
            v.at(Stage::Leave(0)),
            EffectView::Print(seq![NoteView::Info("nothing to clear"@)]),
        ),
        v.stage == Stage::ClearRemoved ==> v.turn(ReportView::Done, log, reply) == (
            v.at(Stage::Leave(0)),
            EffectView::Print(seq![NoteView::Success("workspace cleared"@)]),
        ),
{
}

/// The status of an environment is that of the saved plan; without one it is an error.
pub proof fn law_the_status_is_that_of_the_saved_plan(
    v: SessionView,
    plan: PlanView,
    log: Seq<Event>,
    reply: Result<OutcomeView, ErrorView>,
)
    requires
        v.stage == Stage::StatusLoaded,
    ensures
        v.turn(ReportView::Loaded(Some(plan)), log, reply).0.state.plan == plan,
        v.turn(ReportView::Loaded(Some(plan)), log, reply).1 == EffectView::Dashboard,
        v.turn(ReportView::Loaded(None), log, reply).0.stage == Stage::Leave(1),
{
}

/// A plan is carried out from its beginning, with the answers that were given, and what carries it out
/// is told whether Terraform files are to be applied.
pub proof fn law_a_plan_is_carried_out_from_its_beginning(
    v: SessionView,
    log: Seq<Event>,
    reply: Result<OutcomeView, ErrorView>,
)
    ensures
        v.stage == Stage::Checked ==> ({
            let w = v.turn(ReportView::Done, log, reply).0;
            &&& w.task.at == 0 && !w.task.written
            &&& w.task.apply == v.flags.applies()
            &&& w.task.cloud <==> v.answers().target == Some(Target::Cloud)
            &&& w.stage == Stage::Provision
        }),
        v.stage == Stage::Shown ==> ({
            let w = v.turn(ReportView::Done, log, reply).0;
            &&& w.answers() == v.answers()
            &&& w.stage == Stage::Checked ==> w.state.plan.step == Step::PreflightDone
                && w.state.plan.target_endpoint is None
        }),
{
    reveal(SessionView::begin_turn);
    reveal(SessionView::check_turn);
}

/// Each command starts where it has to: a run and a plan greet, the others do what they are for.
pub proof fn law_where_a_command_starts(args: Seq<Seq<char>>, setup: SetupView)
    ensures
        ({
            let v = session_for(args, setup);
            let c = command_of(args);
            &&& c == Command::Run || c == Command::Plan ==> v.stage == Stage::Greet
            &&& c == Command::Clear ==> v.stage == Stage::ClearGreet
            &&& c == Command::Destroy ==> v.stage == Stage::DestroyGreet
            &&& c == Command::Status ==> v.stage == Stage::StatusRead
            &&& c == Command::Version || c == Command::Help || c == Command::Unknown ==> v.stage
                == Stage::Tell
        }),
{
}

/// The version is told by its command, and nothing else is done.
pub proof fn law_the_version_is_told(
    v: SessionView,
    log: Seq<Event>,
    reply: Result<OutcomeView, ErrorView>,
)
    requires
        v.stage == Stage::Tell,
    ensures
        v.command == Command::Version ==> v.turn(ReportView::Done, log, reply) == (
            v.at(Stage::Leave(0)),
            EffectView::Print(seq![NoteView::Info(v.setup.version)]),
        ),
        v.command == Command::Help ==> v.turn(ReportView::Done, log, reply) == (
            v.at(Stage::Leave(0)),
            EffectView::Print(seq![NoteView::Raw(help_of(v.setup.version))]),
        ),
        v.asks(ReportView::Done, log).len() == 0,
{
}

/// A run that is not reviewed on a screen says its version and its workspace.
pub proof fn law_a_run_says_where_it_works(
    v: SessionView,
    log: Seq<Event>,
    reply: Result<OutcomeView, ErrorView>,
)
    requires
        v.stage == Stage::Greet,
    ensures
        ({
            let (w, effect) = v.turn(ReportView::Done, log, reply);
            &&& w == v.at(Stage::Read)
            &&& v.flags.non_interactive || v.dry_run ==> effect is Print && effect->Print_0.len()
                == 2 && effect->Print_0[1] == NoteView::Dim(
                "  version="@ + v.setup.version + "  workspace="@ + v.state.dir,
            )
            &&& !v.flags.non_interactive && !v.dry_run ==> effect == EffectView::Again
        }),
{
    reveal(SessionView::greet_turn);
}

/// An answer goes into the plan as the answer to the question that was asked; what is asked next
/// depends on the plan, and when nothing is left the plan is saved.
pub proof fn law_an_answer_goes_into_the_plan(
    v: SessionView,
    q: QuestionId,
    ans: AnswerView,
    log: Seq<Event>,
)
    ensures
        v.stage == Stage::Ask && next_of(v.answers()) != QuestionId::Review ==> ({
            let w = v.turn(ReportView::Done, log, Ok(OutcomeView::Answered(ans))).0;
            &&& v.asking(ReportView::Done) == Some(next_of(v.answers()))
            &&& w.answers() == applied(v.answers(), next_of(v.answers()), ans)
            &&& w.stage == Stage::Ask
        }),
        v.stage == Stage::Ask && next_of(v.answers()) == QuestionId::Review ==> v.turn(
            ReportView::Done,
            log,
            Ok(OutcomeView::Answered(ans)),
        ) == (v.at(Stage::Kept), EffectView::Save),
        v.stage == Stage::Reask(q) && q != QuestionId::Review ==> ({
            let w = v.turn(ReportView::Done, log, Ok(OutcomeView::Answered(ans))).0;
            &&& v.asking(ReportView::Done) == Some(q)
            &&& w.answers() == applied(v.answers(), q, ans)
            &&& w.stage == Stage::Ask
        }),
{
    reveal(SessionView::ask_turn);
    reveal(SessionView::reask_turn);
}

/// When all is there, the command line that starts the assistant is shown; a run that asks nothing
/// says that it leaves starting it to the operator.
pub proof fn law_the_command_line_is_shown(
    v: SessionView,
    log: Seq<Event>,
    reply: Result<OutcomeView, ErrorView>,
)
    requires
        v.stage == Stage::Watched || (v.stage == Stage::Settled && (v.flags.non_interactive
            || v.flags.no_dashboard)),
        !v.deployed,
    ensures
        ({
            let effect = v.turn(ReportView::Done, log, reply).1;
            &&& effect is Print
            &&& effect->Print_0[1] == NoteView::Dim(
                "  $ "@ + (bin_dir(v.state.dir) + "/migration-assistant"@),
            )
            &&& effect->Print_0.len() == if v.flags.non_interactive {
                3nat
            } else {
                2nat
            }
        }),
{
    reveal(SessionView::settled_turn);
}

/// A collection that is not active yet is asked for again after a pause, sixty times at most; one that
/// is active is said to be reached at its endpoint.
pub proof fn law_a_collection_is_waited_for(
    v: SessionView,
    polls: u64,
    log: Seq<Event>,
    reply: Result<OutcomeView, ErrorView>,
)
    ensures
        v.stage == Stage::Await(polls) && active_endpoint(log[0].output()) is None ==> ({
            let (w, effect) = v.turn(ReportView::Done, log, reply);
            &&& polls < 59 ==> w == v.at(Stage::Await((polls + 1) as u64)) && effect
                == EffectView::Pause
            &&& polls >= 59 ==> w == v.at(Stage::Leave(1))
        }),
        v.stage == Stage::Reached && v.state.plan.target_endpoint is Some ==> ({
            let (w, effect) = v.turn(ReportView::Done, log, reply);
            &&& w == v.at(Stage::Handoff)
            &&& effect is Print && effect->Print_0.last() == NoteView::Dim(
                "  target   "@ + v.state.plan.target_endpoint->0 + "  (collection)"@,
            )
        }),
{
    reveal(SessionView::await_turn);
    reveal(SessionView::reached_turn);
}

/// A plan is carried out job by job until it is done or a job fails; then the environment is up, or
/// the run ends with the error.
pub proof fn law_a_plan_is_carried_out_job_by_job(
    v: SessionView,
    log: Seq<Event>,
    reply: Result<OutcomeView, ErrorView>,
)
    requires
        v.stage == Stage::Provision,
    ensures
        ({
            let (w, effect) = v.turn(ReportView::Done, log, reply);
            let e = v.task.error(log);
            let job = v.task.job(v.state.dir);
            &&& e is Some ==> w.stage == Stage::Leave((e->0).code) && effect == EffectView::Print(
                seq![NoteView::Failure((e->0).message)],
            )
            &&& e is None && job == JobView::Done ==> w.stage == Stage::Raised
            &&& e is None && job != JobView::Done ==> w.stage == Stage::Provision && effect
                == EffectView::Do(job)
            &&& w.task == v.task.next(log)
            &&& w.state == v.task.state(v.state, log)
        }),
{
    reveal(SessionView::provision_turn);
}

/// The command line of the assistant is installed job by job in the same way.
pub proof fn law_the_assistant_is_installed_job_by_job(
    v: SessionView,
    log: Seq<Event>,
    reply: Result<OutcomeView, ErrorView>,
)
    requires
        v.stage == Stage::Install,
    ensures
        ({
            let (w, effect) = v.turn(ReportView::Done, log, reply);
            let e = v.install.error(log);
            let job = v.install.job(v.state.dir);
            &&& e is Some ==> w.stage == Stage::Leave((e->0).code)
            &&& e is None && job == JobView::Done ==> w.stage == Stage::Settled
            &&& e is None && job != JobView::Done ==> w.stage == Stage::Install && effect
                == EffectView::Do(job)
            &&& w.install == v.install.next(log)
            &&& w.state == v.install.state(v.state, log)
        }),
{
    reveal(SessionView::install_turn);
}

} // verus!
