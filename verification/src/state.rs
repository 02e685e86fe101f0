//! The saved state of a run: the answers, and how far the provisioning has come.

use crate::model::{Answers, AnswersView};
use crate::text::{copy_opt, opt_text, trim, trimmed};
use vstd::prelude::*;

verus! {

/// How far the provisioning has come.
#[derive(Debug, Clone, Copy, PartialEq, Eq, Structural)]
pub enum Step {
    /// Nothing is done yet.
    Planned,
    /// The checks before provisioning have passed.
    PreflightDone,
    /// The source cluster runs.
    SourceUp,
    /// The snapshot storage runs.
    SnapshotUp,
    /// The target cluster runs.
    TargetUp,
    /// The client applications run.
    ClientsUp,
    /// The sample data is loaded.
    DataSeeded,
    /// The Migration Assistant is installed.
    Ready,
}

impl Step {
    /// The steps in order.
    pub const ORDER: [Step; 8] = [
        Step::Planned,
        Step::PreflightDone,
        Step::SourceUp,
        Step::SnapshotUp,
        Step::TargetUp,
        Step::ClientsUp,
        Step::DataSeeded,
        Step::Ready,
    ];

    /// What the step is called on the timeline.
    pub open spec fn label_text(self) -> Seq<char> {
        match self {
            Step::Planned => "Plan collected"@,
            Step::PreflightDone => "Preflight checks"@,
            Step::SourceUp => "Source cluster"@,
            Step::SnapshotUp => "Snapshot storage"@,
            Step::TargetUp => "Target cluster"@,
            Step::ClientsUp => "Client apps"@,
            Step::DataSeeded => "Seed sample data"@,
            Step::Ready => "Launch Migration Assistant"@,
        }
    }

    /// What the step is called on the timeline.
    pub fn label(self) -> (r: &'static str)
        ensures
            r@ == self.label_text(),
    {
        match self {
            Step::Planned => "Plan collected",
            Step::PreflightDone => "Preflight checks",
            Step::SourceUp => "Source cluster",
            Step::SnapshotUp => "Snapshot storage",
            Step::TargetUp => "Target cluster",
            Step::ClientsUp => "Client apps",
            Step::DataSeeded => "Seed sample data",
            Step::Ready => "Launch Migration Assistant",
        }
    }

    /// The place of the step in [`Step::ORDER`].
    pub open spec fn place(self) -> int {
        match self {
            Step::Planned => 0,
            Step::PreflightDone => 1,
            Step::SourceUp => 2,
            Step::SnapshotUp => 3,
            Step::TargetUp => 4,
            Step::ClientsUp => 5,
            Step::DataSeeded => 6,
            Step::Ready => 7,
        }
    }

    /// The place of the step in [`Step::ORDER`].
    pub fn index(self) -> (r: usize)
        ensures
            r == self.place(),
    {
        for i in 0..Self::ORDER.len()
            invariant
                self.place() >= i,
        {
            if Self::ORDER[i] == self {
                return i;
            }
        }
        0
    }

    /// The later of two steps.
    pub open spec fn latest(self, other: Step) -> Step {
        if other.place() > self.place() {
            other
        } else {
            self
        }
    }
}

/// Every step stands at its place in the order, and no two steps share one.
pub proof fn law_steps_stand_at_their_places(s: Step, t: Step)
    ensures
        0 <= s.place() < Step::ORDER@.len(),
        Step::ORDER@[s.place()] == s,
        s.place() == t.place() ==> s == t,
{
}

/// What is saved in `plan.json`.
#[derive(Debug, PartialEq, Eq)]
pub struct Plan {
    pub answers: Answers,
    pub step: Step,
    /// Where the target collection is reached, once it is known.
    pub target_endpoint: Option<String>,
}

/// What a [`Plan`] holds.
#[verifier::ext_equal]
pub struct PlanView {
    pub answers: AnswersView,
    pub step: Step,
    pub target_endpoint: Option<Seq<char>>,
}

impl View for Plan {
    type V = PlanView;

    open spec fn view(&self) -> PlanView {
        PlanView {
            answers: self.answers@,
            step: self.step,
            target_endpoint: opt_text(self.target_endpoint),
        }
    }
}

impl PlanView {
    /// Nothing answered and nothing done.
    pub open spec fn fresh() -> PlanView {
        PlanView { answers: AnswersView::fresh(), step: Step::Planned, target_endpoint: None }
    }
}

impl Default for Plan {
    fn default() -> (r: Self)
        ensures
            r@ == PlanView::fresh(),
    {
        Plan { answers: Answers::new(), step: Step::Planned, target_endpoint: None }
    }
}

impl Clone for Plan {
    fn clone(&self) -> (r: Self)
        ensures
            r@ == self@,
    {
        Plan {
            answers: self.answers.clone(),
            step: self.step,
            target_endpoint: copy_opt(&self.target_endpoint),
        }
    }
}

/// The path of `name` in the directory `dir`. A `name` that starts with a slash is a path of its
/// own.
pub open spec fn path_in(dir: Seq<char>, name: Seq<char>) -> Seq<char> {
    if name.len() > 0 && name[0] == '/' || dir.len() == 0 {
        name
    } else if dir.last() == '/' {
        dir + name
    } else {
        dir + "/"@ + name
    }
}

/// The path of `name` in the directory `dir`.
pub fn path_under(dir: &str, name: &str) -> (r: String)
    ensures
        r@ == path_in(dir@, name@),
{
    let n: usize = dir.unicode_len();
    if (name.unicode_len() > 0 && name.get_char(0) == '/') || n == 0 {
        name.to_string()
    } else if dir.get_char(n - 1) == '/' {
        dir.to_string().concat(name)
    } else {
        dir.to_string().concat("/").concat(name)
    }
}

/// A plan bound to the workspace directory that it is saved in.
#[derive(Debug)]
pub struct State {
    pub dir: String,
    pub plan: Plan,
}

/// What a [`State`] holds.
#[verifier::ext_equal]
pub struct StateView {
    pub dir: Seq<char>,
    pub plan: PlanView,
}

impl View for State {
    type V = StateView;

    open spec fn view(&self) -> StateView {
        StateView { dir: self.dir@, plan: self.plan@ }
    }
}

impl StateView {
    /// A fresh plan for the workspace `dir`.
    pub open spec fn fresh(dir: Seq<char>) -> StateView {
        StateView { dir, plan: PlanView::fresh() }
    }

    /// The same state after `step` was reached.
    pub open spec fn advanced(self, step: Step) -> StateView {
        StateView { plan: PlanView { step: self.plan.step.latest(step), ..self.plan }, ..self }
    }

    /// The same state with the endpoint of the target collection.
    pub open spec fn with_target(self, endpoint: Seq<char>) -> StateView {
        StateView { plan: PlanView { target_endpoint: Some(endpoint), ..self.plan }, ..self }
    }
}

impl Clone for State {
    fn clone(&self) -> (r: Self)
        ensures
            r@ == self@,
    {
        State { dir: self.dir.clone(), plan: self.plan.clone() }
    }
}

impl State {
    /// A fresh plan for the workspace `dir`.
    pub fn new(dir: &str) -> (r: Self)
        ensures
            r@ == StateView::fresh(dir@),
    {
        State { dir: dir.to_string(), plan: Plan::default() }
    }

    /// The workspace directory.
    pub fn dir(&self) -> (r: &str)
        ensures
            r@ == self@.dir,
    {
        self.dir.as_str()
    }

    /// Where the plan is saved.
    pub fn plan_path(&self) -> (r: String)
        ensures
            r@ == path_in(self@.dir, "plan.json"@),
    {
        path_under(self.dir.as_str(), "plan.json")
    }

    /// Notes that `step` was reached. The recorded step never goes back.
    pub fn advance(&mut self, step: Step)
        ensures
            final(self)@ == old(self)@.advanced(step),
    {
        if step.index() > self.plan.step.index() {
            self.plan.step = step;
        }
    }

    /// Notes where the target collection is reached.
    pub fn record_target(&mut self, endpoint: &str)
        ensures
            final(self)@ == old(self)@.with_target(endpoint@),
    {
        self.plan.target_endpoint = Some(endpoint.to_string());
    }
}

/// Whether a file with this text holds a saved plan. A file that holds nothing but white space is
/// as good as none.
pub fn holds_plan(text: &str) -> (r: bool)
    ensures
        r == (trimmed(text@).len() > 0),
{
    trim(text).unicode_len() > 0
}

/// The recorded step never goes back, reaches what it is advanced to, and nothing else changes.
pub proof fn law_advancing_is_monotonic(s: StateView, step: Step)
    ensures
        s.advanced(step).plan.step.place() >= s.plan.step.place(),
        s.advanced(step).plan.step.place() >= step.place(),
        s.advanced(step).plan.step == s.plan.step || s.advanced(step).plan.step == step,
        s.advanced(step).plan.answers == s.plan.answers,
        s.advanced(step).plan.target_endpoint == s.plan.target_endpoint,
        s.advanced(step).dir == s.dir,
{
}

/// The order in which steps are reached does not matter, nor how often.
pub proof fn law_advancing_commutes(s: StateView, a: Step, b: Step)
    ensures
        s.advanced(a).advanced(b) == s.advanced(b).advanced(a),
        s.advanced(a).advanced(a) == s.advanced(a),
{
    assert(s.advanced(a).advanced(b) =~= s.advanced(b).advanced(a));
    assert(s.advanced(a).advanced(a) =~= s.advanced(a));
}

/// A relative path is taken from its directory, with one slash between them; a path of its own stays
/// as it is.
pub proof fn law_paths_are_taken_from_their_directory(dir: Seq<char>, name: Seq<char>)
    ensures
        name.len() > 0 && name[0] == '/' ==> path_in(dir, name) == name,
        (name.len() == 0 || name[0] != '/') && dir.len() > 0 && dir.last() != '/' ==> path_in(
            dir,
            name,
        ) == dir + seq!['/'] + name,
        (name.len() == 0 || name[0] != '/') && dir.len() > 0 && dir.last() == '/' ==> path_in(
            dir,
            name,
        ) == dir + name,
        dir.len() == 0 ==> path_in(dir, name) == name,
{
    reveal_strlit("/");
    assert("/"@ =~= seq!['/']);
}

/// A fresh plan has nothing answered and nothing done, in the workspace that it is for.
pub proof fn law_a_fresh_plan_is_at_its_start(dir: Seq<char>, endpoint: Seq<char>)
    ensures
        StateView::fresh(dir).dir == dir,
        StateView::fresh(dir).plan.step == Step::Planned,
        StateView::fresh(dir).plan.answers == AnswersView::fresh(),
        StateView::fresh(dir).plan.target_endpoint is None,
        StateView::fresh(dir).with_target(endpoint).plan.target_endpoint == Some(endpoint),
        StateView::fresh(dir).with_target(endpoint).plan.step == Step::Planned,
{
}

/// The steps follow each other: the plan, the checks, the source, the snapshots, the target, the
/// client applications, the sample data, and that all is ready.
pub proof fn law_the_order_of_the_steps()
    ensures
        Step::Planned.place() < Step::PreflightDone.place(),
        Step::PreflightDone.place() < Step::SourceUp.place(),
        Step::SourceUp.place() < Step::SnapshotUp.place(),
        Step::SnapshotUp.place() < Step::TargetUp.place(),
        Step::TargetUp.place() < Step::ClientsUp.place(),
        Step::ClientsUp.place() < Step::DataSeeded.place(),
        Step::DataSeeded.place() < Step::Ready.place(),
{
}

} // verus!
