//! The command line: what is asked of a run, and what it prints.

use crate::app::{App, Install, Progress, Provision, ProvisionView, Said};
use crate::errand::{errand_views, Errand};
use crate::error::{fatal, Error, ErrorView};
use crate::journal::{continued, lemma_at_rest, lemma_nothing_added, lemma_one_entry};
use crate::model::{Answers, AnswersView, ClientApp, MaHandoff, Target};
use crate::passages::{
    lemma_begins, lemma_between, lemma_contains_in_back, lemma_contains_in_front,
    lemma_contains_itself, lemma_last_three, lemma_spanning,
};
use crate::plan::{build as build_plan, ProvisionPlan, ProvisionPlanView, MA_REPO, MA_VERSION};
use crate::runner;
use crate::runner::{asks, grew, lemma_since, since, Ask, CallView, CommandRunner, Event, Logged};
use crate::session::{first_stage, Session, SessionView, Stage};
use crate::state::StateView;
use crate::text::{
    after, begins, begins_with, contains, copy_texts, join, joined, opt_text, same, str_texts,
    texts,
};
use crate::tui::{Outcome, OutcomeView};
use crate::ui::{add_note, note_views, Note, NoteView};
use crate::wizard::{
    applied, apply, build, client_label_list, client_labels, ma_handoff_named, parse_ma_handoff,
    question, AnswerView, Question, QuestionId, QuestionView,
};
use vstd::prelude::*;

verus! {

/// The version of a build that was given none.
pub const VERSION: &'static str = "0.1.0-dev";

// ---------------------------------------------------------------------------
// Flags
// ---------------------------------------------------------------------------

/// The flags of a run.
#[derive(Debug, Clone, PartialEq, Eq)]
pub struct Flags {
    /// All defaults are accepted, and nothing is asked.
    pub non_interactive: bool,
    /// Nothing is done beyond printing the plan.
    pub dry_run: bool,
    pub workspace: Option<String>,
    /// How the Migration Assistant is handed over to, whatever was answered.
    pub ma_handoff: Option<MaHandoff>,
    /// The AWS region to use, whatever the plan says.
    pub aws_region: Option<String>,
    /// The AWS profile to use, whatever the plan says.
    pub aws_profile: Option<String>,
    /// The dashboard is not opened at the end of a run.
    pub no_dashboard: bool,
    /// Terraform files are applied, even where nothing is asked.
    pub apply: bool,
    /// Terraform files are written only.
    pub no_apply: bool,
}

/// What a [`Flags`] holds.
#[verifier::ext_equal]
pub struct FlagsView {
    pub non_interactive: bool,
    pub dry_run: bool,
    pub workspace: Option<Seq<char>>,
    pub ma_handoff: Option<MaHandoff>,
    pub aws_region: Option<Seq<char>>,
    pub aws_profile: Option<Seq<char>>,
    pub no_dashboard: bool,
    pub apply: bool,
    pub no_apply: bool,
}

impl View for Flags {
    type V = FlagsView;

    open spec fn view(&self) -> FlagsView {
        FlagsView {
            non_interactive: self.non_interactive,
            dry_run: self.dry_run,
            workspace: opt_text(self.workspace),
            ma_handoff: self.ma_handoff,
            aws_region: opt_text(self.aws_region),
            aws_profile: opt_text(self.aws_profile),
            no_dashboard: self.no_dashboard,
            apply: self.apply,
            no_apply: self.no_apply,
        }
    }
}

impl FlagsView {
    /// No flag is given.
    pub open spec fn none() -> FlagsView {
        FlagsView {
            non_interactive: false,
            dry_run: false,
            workspace: None,
            ma_handoff: None,
            aws_region: None,
            aws_profile: None,
            no_dashboard: false,
            apply: false,
            no_apply: false,
        }
    }

    /// Whether Terraform files are applied: a run that asks does so unless it is told not to, and
    /// one that asks nothing only if it is told to.
    pub open spec fn applies(self) -> bool {
        if self.non_interactive {
            self.apply && !self.no_apply
        } else {
            !self.no_apply
        }
    }
}

impl Default for Flags {
    fn default() -> (r: Self)
        ensures
            r@ == FlagsView::none(),
    {
        Flags {
            non_interactive: false,
            dry_run: false,
            workspace: None,
            ma_handoff: None,
            aws_region: None,
            aws_profile: None,
            no_dashboard: false,
            apply: false,
            no_apply: false,
        }
    }
}

impl Flags {
    /// Whether Terraform files are applied.
    pub fn applies(&self) -> (r: bool)
        ensures
            r == self@.applies(),
    {
        if self.non_interactive {
            self.apply && !self.no_apply
        } else {
            !self.no_apply
        }
    }
}

/// Whether an argument accepts all defaults.
pub open spec fn accepts_defaults(arg: Seq<char>) -> bool {
    arg == "-y"@ || arg == "--non-interactive"@ || arg == "--yes"@
}

/// Whether an argument stops a run before anything is created.
pub open spec fn stops_early(arg: Seq<char>) -> bool {
    arg == "--dry-run"@ || arg == "--plan"@
}

/// Whether the argument that follows is the value of this one, whatever it looks like.
pub open spec fn takes_value(arg: Seq<char>) -> bool {
    arg == "--workspace"@
}

/// Whether this argument looks at the one that follows. That one still counts for itself.
pub open spec fn looks_ahead(arg: Seq<char>) -> bool {
    arg == "--ma-handoff"@ || arg == "--aws-region"@ || arg == "--aws-profile"@
}

/// A value that does not look like a flag.
pub open spec fn plain_value(value: Option<Seq<char>>) -> Option<Seq<char>> {
    match value {
        Some(v) => if begins(v, "-"@) {
            None
        } else {
            Some(v)
        },
        None => None,
    }
}

/// The handover that a value names.
pub open spec fn handoff_of(value: Option<Seq<char>>) -> Option<MaHandoff> {
    match value {
        Some(v) => ma_handoff_named(v),
        None => None,
    }
}

/// `f` with one more argument; `value` is what follows it. An argument that is no flag is passed
/// over.
pub open spec fn with_flag(f: FlagsView, arg: Seq<char>, value: Option<Seq<char>>) -> FlagsView {
    if accepts_defaults(arg) {
        FlagsView { non_interactive: true, ..f }
    } else if stops_early(arg) {
        FlagsView { dry_run: true, ..f }
    } else if arg == "--no-dashboard"@ {
        FlagsView { no_dashboard: true, ..f }
    } else if arg == "--apply"@ {
        FlagsView { apply: true, ..f }
    } else if arg == "--no-apply"@ {
        FlagsView { no_apply: true, ..f }
    } else if arg == "--workspace"@ {
        FlagsView { workspace: value, ..f }
    } else if arg == "--ma-handoff"@ {
        FlagsView { ma_handoff: handoff_of(value), ..f }
    } else if arg == "--aws-region"@ {
        FlagsView { aws_region: plain_value(value), ..f }
    } else if arg == "--aws-profile"@ {
        FlagsView { aws_profile: plain_value(value), ..f }
    } else if begins(arg, "--workspace="@) {
        FlagsView { workspace: Some(arg.skip("--workspace="@.len() as int)), ..f }
    } else if begins(arg, "--ma-handoff="@) {
        FlagsView { ma_handoff: ma_handoff_named(arg.skip("--ma-handoff="@.len() as int)), ..f }
    } else if begins(arg, "--aws-region="@) {
        FlagsView { aws_region: Some(arg.skip("--aws-region="@.len() as int)), ..f }
    } else if begins(arg, "--aws-profile="@) {
        FlagsView { aws_profile: Some(arg.skip("--aws-profile="@.len() as int)), ..f }
    } else {
        f
    }
}

/// The argument at place `i`, if there is one.
pub open spec fn value_at(args: Seq<Seq<char>>, i: int) -> Option<Seq<char>> {
    if 0 <= i < args.len() {
        Some(args[i])
    } else {
        None
    }
}

/// `f` with the flags among the arguments from place `i` on.
pub open spec fn flags_from(args: Seq<Seq<char>>, i: int, f: FlagsView) -> FlagsView
    decreases args.len() - i,
{
    if i < 0 || i >= args.len() {
        f
    } else {
        let g = with_flag(f, args[i], value_at(args, i + 1));
        if takes_value(args[i]) && i + 1 < args.len() {
            flags_from(args, i + 2, g)
        } else {
            flags_from(args, i + 1, g)
        }
    }
}

/// The flags among some arguments.
pub open spec fn flags_of(args: Seq<Seq<char>>) -> FlagsView {
    flags_from(args, 0, FlagsView::none())
}

/// A value that does not look like a flag.
fn plain(value: Option<&str>) -> (r: Option<String>)
    ensures
        opt_text(r) == plain_value(
            match value {
                Some(v) => Some(v@),
                None => None,
            },
        ),
{
    match value {
        Some(v) => if begins_with(v, "-") {
            None
        } else {
            Some(v.to_string())
        },
        None => None,
    }
}

/// Takes one more argument into account; `value` is what follows it.
fn note_flag(f: &mut Flags, a: &str, value: Option<&str>)
    ensures
        final(f)@ == with_flag(
            old(f)@,
            a@,
            match value {
                Some(v) => Some(v@),
                None => None,
            },
        ),
{
    if same(a, "-y") || same(a, "--non-interactive") || same(a, "--yes") {
        f.non_interactive = true;
    } else if same(a, "--dry-run") || same(a, "--plan") {
        f.dry_run = true;
    } else if same(a, "--no-dashboard") {
        f.no_dashboard = true;
    } else if same(a, "--apply") {
        f.apply = true;
    } else if same(a, "--no-apply") {
        f.no_apply = true;
    } else if same(a, "--workspace") {
        f.workspace = match value {
            Some(v) => Some(v.to_string()),
            None => None,
        };
    } else if same(a, "--ma-handoff") {
        f.ma_handoff = match value {
            Some(v) => parse_ma_handoff(v),
            None => None,
        };
    } else if same(a, "--aws-region") {
        f.aws_region = plain(value);
    } else if same(a, "--aws-profile") {
        f.aws_profile = plain(value);
    } else if begins_with(a, "--workspace=") {
        f.workspace = Some(after(a, "--workspace=".unicode_len()).to_string());
    } else if begins_with(a, "--ma-handoff=") {
        f.ma_handoff = parse_ma_handoff(after(a, "--ma-handoff=".unicode_len()));
    } else if begins_with(a, "--aws-region=") {
        f.aws_region = Some(after(a, "--aws-region=".unicode_len()).to_string());
    } else if begins_with(a, "--aws-profile=") {
        f.aws_profile = Some(after(a, "--aws-profile=".unicode_len()).to_string());
    }
}

/// The flags among some arguments, in any order.
pub fn parse_flags(args: &[String]) -> (r: Flags)
    ensures
        r@ == flags_of(texts(args@)),
{
    let mut f = Flags::default();
    let ghost all = texts(args@);
    let n: usize = args.len();
    let mut i: usize = 0;
    while i < n
        invariant
            n == args@.len(),
            all == texts(args@),
            i <= n,
            flags_of(all) == flags_from(all, i as int, f@),
        decreases n - i,
    {
        assert(all[i as int] == args@[i as int]@);
        let a = args[i].as_str();
        let last = i + 1 >= n;
        let value = if last {
            None
        } else {
            assert(all[i + 1] == args@[i + 1]@);
            Some(args[i + 1].as_str())
        };
        note_flag(&mut f, a, value);
        if same(a, "--workspace") && !last {
            i = i + 2;
        } else {
            i = i + 1;
        }
    }
    f
}

/// A flag that was given is not taken back by what follows it.
pub proof fn law_flags_stick(args: Seq<Seq<char>>, i: int, f: FlagsView)
    requires
        0 <= i,
    ensures
        f.non_interactive ==> flags_from(args, i, f).non_interactive,
        f.dry_run ==> flags_from(args, i, f).dry_run,
        f.no_dashboard ==> flags_from(args, i, f).no_dashboard,
        f.apply ==> flags_from(args, i, f).apply,
        f.no_apply ==> flags_from(args, i, f).no_apply,
    decreases args.len() - i,
{
    if i < args.len() {
        let g = with_flag(f, args[i], value_at(args, i + 1));
        if takes_value(args[i]) && i + 1 < args.len() {
            law_flags_stick(args, i + 2, g);
        } else {
            law_flags_stick(args, i + 1, g);
        }
    }
}

/// Whether an argument neither takes a value nor holds one.
pub open spec fn switch(arg: Seq<char>) -> bool {
    &&& !takes_value(arg)
    &&& !looks_ahead(arg)
    &&& !begins(arg, "--workspace="@)
    &&& !begins(arg, "--ma-handoff="@)
    &&& !begins(arg, "--aws-region="@)
    &&& !begins(arg, "--aws-profile="@)
}

/// Whether the argument at place `i` is the value of the one before it.
pub open spec fn is_value(args: Seq<Seq<char>>, i: int) -> bool
    decreases i,
{
    i > 0 && takes_value(args[i - 1]) && !is_value(args, i - 1)
}

/// Whether an argument that says `p` stands at place `from` or later, and is no value.
pub open spec fn stands(args: Seq<Seq<char>>, from: int, p: spec_fn(Seq<char>) -> bool) -> bool {
    exists|i: int| from <= i < args.len() && !is_value(args, i) && p(#[trigger] args[i])
}

proof fn lemma_stands(args: Seq<Seq<char>>, i: int, p: spec_fn(Seq<char>) -> bool)
    requires
        0 <= i < args.len(),
        !is_value(args, i),
    ensures
        takes_value(args[i]) && i + 1 < args.len() ==> !is_value(args, i + 2) && stands(args, i, p)
            == (p(args[i]) || stands(args, i + 2, p)),
        !(takes_value(args[i]) && i + 1 < args.len()) ==> (i + 1 < args.len() ==> !is_value(
            args,
            i + 1,
        )) && stands(args, i, p) == (p(args[i]) || stands(args, i + 1, p)),
{
    if takes_value(args[i]) && i + 1 < args.len() {
        assert(is_value(args, i + 1));
        assert(!is_value(args, i + 2));
        if stands(args, i, p) && !p(args[i]) {
            let k = choose|k: int| i <= k < args.len() && !is_value(args, k) && p(#[trigger] args[k]);
            assert(k >= i + 2);
        }
    } else {
        assert(!is_value(args, i + 1) || i + 1 >= args.len());
        if stands(args, i, p) && !p(args[i]) {
            let k = choose|k: int| i <= k < args.len() && !is_value(args, k) && p(#[trigger] args[k]);
            assert(k >= i + 1);
        }
    }
}

proof fn lemma_switches(args: Seq<Seq<char>>, i: int, f: FlagsView)
    requires
        0 <= i,
        i < args.len() ==> !is_value(args, i),
    ensures
        ({
            let g = flags_from(args, i, f);
            &&& g.non_interactive == (f.non_interactive || stands(
                args,
                i,
                |a: Seq<char>| accepts_defaults(a),
            ))
            &&& g.dry_run == (f.dry_run || stands(args, i, |a: Seq<char>| stops_early(a)))
            &&& g.no_dashboard == (f.no_dashboard || stands(
                args,
                i,
                |a: Seq<char>| a == "--no-dashboard"@,
            ))
            &&& g.apply == (f.apply || stands(args, i, |a: Seq<char>| a == "--apply"@))
            &&& g.no_apply == (f.no_apply || stands(args, i, |a: Seq<char>| a == "--no-apply"@))
        }),
    decreases args.len() - i,
{
    if i < args.len() {
        let g = with_flag(f, args[i], value_at(args, i + 1));
        lemma_flags_differ();
        lemma_stands(args, i, |a: Seq<char>| accepts_defaults(a));
        lemma_stands(args, i, |a: Seq<char>| stops_early(a));
        lemma_stands(args, i, |a: Seq<char>| a == "--no-dashboard"@);
        lemma_stands(args, i, |a: Seq<char>| a == "--apply"@);
        lemma_stands(args, i, |a: Seq<char>| a == "--no-apply"@);
        if takes_value(args[i]) && i + 1 < args.len() {
            lemma_switches(args, i + 2, g);
        } else {
            lemma_switches(args, i + 1, g);
        }
    }
}

/// The switches differ from each other.
proof fn lemma_flags_differ()
    ensures
        !accepts_defaults("--dry-run"@) && !accepts_defaults("--plan"@),
        !accepts_defaults("--no-dashboard"@) && !stops_early("--no-dashboard"@),
        !accepts_defaults("--apply"@) && !stops_early("--apply"@),
        !accepts_defaults("--no-apply"@) && !stops_early("--no-apply"@),
        "--apply"@ != "--no-dashboard"@,
        "--no-apply"@ != "--no-dashboard"@,
        "--no-apply"@ != "--apply"@,
{
    reveal_strlit("-y");
    reveal_strlit("--non-interactive");
    reveal_strlit("--yes");
    reveal_strlit("--dry-run");
    reveal_strlit("--plan");
    reveal_strlit("--no-dashboard");
    reveal_strlit("--apply");
    reveal_strlit("--no-apply");
    assert("-y"@.len() == 2 && "--non-interactive"@.len() == 17 && "--yes"@.len() == 5);
    assert("--dry-run"@.len() == 9 && "--plan"@.len() == 6);
    assert("--no-dashboard"@.len() == 14 && "--apply"@.len() == 7 && "--no-apply"@.len() == 10);
}

/// A switch counts wherever it stands, unless it is the value of a workspace, and is off if it stands
/// nowhere.
pub proof fn law_switches_count_wherever_they_stand(args: Seq<Seq<char>>)
    ensures
        flags_of(args).non_interactive == stands(args, 0, |a: Seq<char>| accepts_defaults(a)),
        flags_of(args).dry_run == stands(args, 0, |a: Seq<char>| stops_early(a)),
        flags_of(args).no_dashboard == stands(args, 0, |a: Seq<char>| a == "--no-dashboard"@),
        flags_of(args).apply == stands(args, 0, |a: Seq<char>| a == "--apply"@),
        flags_of(args).no_apply == stands(args, 0, |a: Seq<char>| a == "--no-apply"@),
{
    lemma_switches(args, 0, FlagsView::none());
}

/// The order of arguments that hold no value does not matter.
pub proof fn law_the_order_of_switches_does_not_matter(
    a: Seq<char>,
    b: Seq<char>,
    rest: Seq<Seq<char>>,
    f: FlagsView,
)
    requires
        switch(a),
        switch(b),
    ensures
        flags_from(seq![a, b] + rest, 0, f) == flags_from(seq![b, a] + rest, 0, f),
{
    let x = seq![a, b] + rest;
    let y = seq![b, a] + rest;
    let g = with_flag(with_flag(f, a, None), b, None);
    assert(g =~= with_flag(with_flag(f, b, None), a, None));
    assert(flags_from(x, 0, f) == flags_from(x, 1, with_flag(f, a, None)));
    assert(flags_from(x, 1, with_flag(f, a, None)) == flags_from(x, 2, g));
    assert(flags_from(y, 0, f) == flags_from(y, 1, with_flag(f, b, None)));
    assert(flags_from(y, 1, with_flag(f, b, None)) == flags_from(y, 2, g));
    lemma_tail(x, y, 2, g);
}

proof fn lemma_tail(x: Seq<Seq<char>>, y: Seq<Seq<char>>, i: int, f: FlagsView)
    requires
        0 <= i,
        x.len() == y.len(),
        forall|j: int| i <= j < x.len() ==> x[j] == y[j],
    ensures
        flags_from(x, i, f) == flags_from(y, i, f),
    decreases x.len() - i,
{
    if i < x.len() {
        assert(x[i] == y[i]);
        assert(value_at(x, i + 1) == value_at(y, i + 1));
        let g = with_flag(f, x[i], value_at(x, i + 1));
        if takes_value(x[i]) && i + 1 < x.len() {
            lemma_tail(x, y, i + 2, g);
        } else {
            lemma_tail(x, y, i + 1, g);
        }
    }
}

/// The answers with what the flags say in place of what was answered.
pub open spec fn overridden(a: AnswersView, f: FlagsView) -> AnswersView {
    AnswersView {
        ma_handoff: if f.ma_handoff is Some {
            f.ma_handoff
        } else {
            a.ma_handoff
        },
        aws_region: if f.aws_region is Some {
            f.aws_region
        } else {
            a.aws_region
        },
        aws_profile: if f.aws_profile is Some {
            f.aws_profile
        } else {
            a.aws_profile
        },
        ..a
    }
}

/// Puts what the flags say in place of what was answered.
pub fn override_answers(a: &mut Answers, f: &Flags)
    ensures
        final(a)@ == overridden(old(a)@, f@),
{
    if f.ma_handoff.is_some() {
        a.ma_handoff = f.ma_handoff;
    }
    if let Some(region) = &f.aws_region {
        a.aws_region = Some(region.clone());
    }
    if let Some(profile) = &f.aws_profile {
        a.aws_profile = Some(profile.clone());
    }
}

// ---------------------------------------------------------------------------
// Commands
// ---------------------------------------------------------------------------

/// What a command line asks for.
#[derive(Debug, Clone, Copy, PartialEq, Eq, Structural)]
pub enum Command {
    /// To stand an environment up.
    Run,
    /// To show the plan only.
    Plan,
    /// To wipe the workspace.
    Clear,
    /// To delete the clusters and wipe the workspace.
    Destroy,
    /// To show what is running.
    Status,
    Version,
    Help,
    /// Something that is not known.
    Unknown,
}

/// What the first argument asks for. No argument, or a flag, asks for a run.
pub open spec fn command_of(args: Seq<Seq<char>>) -> Command {
    if args.len() == 0 {
        Command::Run
    } else {
        let s = args[0];
        if s == "run"@ {
            Command::Run
        } else if s == "plan"@ {
            Command::Plan
        } else if s == "clear"@ {
            Command::Clear
        } else if s == "destroy"@ {
            Command::Destroy
        } else if s == "status"@ {
            Command::Status
        } else if s == "version"@ || s == "--version"@ || s == "-V"@ {
            Command::Version
        } else if s == "help"@ || s == "--help"@ || s == "-h"@ {
            Command::Help
        } else if begins(s, "-"@) {
            Command::Run
        } else {
            Command::Unknown
        }
    }
}

/// The first argument is a flag of the run, and no command.
pub open spec fn flag_led(args: Seq<Seq<char>>) -> bool {
    args.len() > 0 && command_of(args) == Command::Run && args[0] != "run"@
}

/// The arguments that flags are taken from.
pub open spec fn flag_args(args: Seq<Seq<char>>) -> Seq<Seq<char>> {
    if args.len() == 0 || flag_led(args) {
        args
    } else {
        args.skip(1)
    }
}

/// What a command line asks for.
pub fn command(args: &Vec<String>) -> (r: Command)
    ensures
        r == command_of(texts(args@)),
{
    assert(texts(args@).len() == args@.len());
    if args.len() == 0 {
        return Command::Run;
    }
    assert(texts(args@)[0] == args@[0]@);
    let s = args[0].as_str();
    if same(s, "run") {
        Command::Run
    } else if same(s, "plan") {
        Command::Plan
    } else if same(s, "clear") {
        Command::Clear
    } else if same(s, "destroy") {
        Command::Destroy
    } else if same(s, "status") {
        Command::Status
    } else if same(s, "version") || same(s, "--version") || same(s, "-V") {
        Command::Version
    } else if same(s, "help") || same(s, "--help") || same(s, "-h") {
        Command::Help
    } else if begins_with(s, "-") {
        Command::Run
    } else {
        Command::Unknown
    }
}

/// The first argument, and the rest.
pub fn split_subcommand(args: &Vec<String>) -> (r: (Option<String>, Vec<String>))
    ensures
        args@.len() == 0 ==> r.0 is None && texts((r.1)@) == Seq::<Seq<char>>::empty(),
        args@.len() > 0 ==> r.0 is Some && (r.0)->0@ == texts(args@)[0] && texts((r.1)@) == texts(
            args@,
        ).skip(1),
{
    let mut rest: Vec<String> = Vec::new();
    if args.len() == 0 {
        assert(texts(rest@) =~= Seq::<Seq<char>>::empty());
        return (None, rest);
    }
    for i in 1..args.len()
        invariant
            args@.len() > 0,
            rest@.len() == i - 1,
            forall|j: int| 0 <= j < i - 1 ==> (#[trigger] rest@[j])@ == args@[j + 1]@,
    {
        rest.push(args[i].clone());
    }
    assert(texts(rest@) =~= texts(args@).skip(1));
    (Some(args[0].clone()), rest)
}

/// The flags of a command line.
pub fn flags(args: &Vec<String>) -> (r: Flags)
    ensures
        r@ == flags_of(flag_args(texts(args@))),
{
    let (sub, rest) = split_subcommand(args);
    match sub {
        None => {
            assert(flag_args(texts(args@)) =~= texts(rest@));
            parse_flags(rest.as_slice())
        },
        Some(s) => if command(args) == Command::Run && !same(s.as_str(), "run") {
            parse_flags(args.as_slice())
        } else {
            parse_flags(rest.as_slice())
        },
    }
}

// ---------------------------------------------------------------------------
// What is printed
// ---------------------------------------------------------------------------

/// One line of a plan.
pub open spec fn plan_line(label: Seq<char>, value: Seq<char>) -> NoteView {
    NoteView::Dim(label + value)
}

/// What a plan says of where the environment stands.
pub open spec fn target_notes(a: AnswersView) -> Seq<NoteView> {
    match a.target {
        Some(t) => seq![plan_line("  target          "@, t.label_text())],
        None => seq![],
    }
}

/// What a plan says of the source.
pub open spec fn source_notes(a: AnswersView) -> Seq<NoteView> {
    match a.source_engine {
        Some(e) => {
            let version = match a.source_version {
                Some(v) => v,
                None => "—"@,
            };
            seq![plan_line("  source          "@, e.label_text() + " "@ + version)]
        },
        None => seq![],
    }
}

/// What a plan says of plugins.
pub open spec fn plugin_notes(a: AnswersView) -> Seq<NoteView> {
    if a.source_plugins.len() > 0 {
        seq![plan_line("  plugins         "@, joined(a.source_plugins, ", "@))]
    } else {
        seq![]
    }
}

/// What a plan says of snapshots.
pub open spec fn snapshot_notes(a: AnswersView) -> Seq<NoteView> {
    match a.snapshot_storage {
        Some(s) => seq![plan_line("  snapshots       "@, s.label_text())],
        None => seq![],
    }
}

/// What a plan says of the target cluster.
pub open spec fn target_cluster_notes(a: AnswersView) -> Seq<NoteView> {
    match a.target_mode {
        Some(m) => {
            let version = match a.target_version {
                Some(v) => v,
                None => ""@,
            };
            seq![plan_line("  target cluster  "@, m.label_text() + " "@ + version)]
        },
        None => seq![],
    }
}

/// What a plan says of client applications.
pub open spec fn client_notes(a: AnswersView) -> Seq<NoteView> {
    if a.clients.len() > 0 {
        seq![plan_line("  clients         "@, joined(client_labels(a.clients), ", "@))]
    } else {
        seq![]
    }
}

/// What a plan says of data.
pub open spec fn seed_note(a: AnswersView) -> NoteView {
    plan_line(
        "  seed data       "@,
        if a.seed_data == Some(true) {
            "yes"@
        } else {
            "no"@
        },
    )
}

/// The notes that describe a plan: its summary, then what was answered.
pub open spec fn plan_notes(a: AnswersView) -> Seq<NoteView> {
    (seq![NoteView::Info("  "@ + a.summary_text())] + target_notes(a) + source_notes(a)
        + plugin_notes(a) + snapshot_notes(a) + target_cluster_notes(a) + client_notes(a)).push(
        seed_note(a),
    )
}

fn add_plan_line(v: &mut Vec<Note>, label: &str, value: &str)
    ensures
        note_views(final(v)@) == note_views(old(v)@) + seq![plan_line(label@, value@)],
{
    add_note(v, Note::Dim(label.to_string().concat(value)));
    assert(note_views(v@) =~= note_views(old(v)@) + seq![plan_line(label@, value@)]);
}

fn add_source_notes(v: &mut Vec<Note>, a: &Answers)
    ensures
        note_views(final(v)@) == note_views(old(v)@) + source_notes(a@) + plugin_notes(a@),
{
    if let Some(e) = a.source_engine {
        let version = match &a.source_version {
            Some(v) => v.as_str(),
            None => "—",
        };
        add_plan_line(
            v,
            "  source          ",
            e.label().to_string().concat(" ").concat(version).as_str(),
        );
    }
    assert(note_views(v@) =~= note_views(old(v)@) + source_notes(a@));
    assert(a@.source_plugins.len() == a.source_plugins@.len());
    if a.source_plugins.len() > 0 {
        add_plan_line(v, "  plugins         ", join(&a.source_plugins, ", ").as_str());
    }
    assert(note_views(v@) =~= note_views(old(v)@) + source_notes(a@) + plugin_notes(a@));
}

fn add_target_notes(v: &mut Vec<Note>, a: &Answers)
    ensures
        note_views(final(v)@) == note_views(old(v)@) + target_cluster_notes(a@) + client_notes(a@),
{
    if let Some(m) = a.target_mode {
        let version = match &a.target_version {
            Some(v) => v.as_str(),
            None => "",
        };
        add_plan_line(
            v,
            "  target cluster  ",
            m.label().to_string().concat(" ").concat(version).as_str(),
        );
    }
    assert(note_views(v@) =~= note_views(old(v)@) + target_cluster_notes(a@));
    if a.clients.len() > 0 {
        add_plan_line(v, "  clients         ", client_label_list(&a.clients).as_str());
    }
    assert(note_views(v@) =~= note_views(old(v)@) + target_cluster_notes(a@) + client_notes(a@));
}

/// The notes that describe a plan; what is not answered is left out.
pub fn print_plan(a: &Answers) -> (r: Vec<Note>)
    ensures
        note_views(r@) == plan_notes(a@),
{
    let mut r: Vec<Note> = Vec::new();
    add_note(&mut r, Note::Info("  ".to_string().concat(a.summary().as_str())));
    let ghost first = seq![NoteView::Info("  "@ + a@.summary_text())];
    assert(note_views(r@) =~= first);
    if let Some(t) = a.target {
        add_plan_line(&mut r, "  target          ", t.label());
    }
    assert(note_views(r@) =~= first + target_notes(a@));
    add_source_notes(&mut r, a);
    let ghost before = note_views(r@);
    if let Some(s) = a.snapshot_storage {
        add_plan_line(&mut r, "  snapshots       ", s.label());
    }
    assert(note_views(r@) =~= before + snapshot_notes(a@));
    add_target_notes(&mut r, a);
    let seeded = if a.seed_data == Some(true) {
        "yes"
    } else {
        "no"
    };
    add_note(&mut r, Note::Dim("  seed data       ".to_string().concat(seeded)));
    r
}

/// The lines of a plan are told apart by how they begin.
proof fn lemma_plan_labels()
    ensures
        "  target          "@.len() == 18 && "  source          "@.len() == 18,
        "  plugins         "@.len() == 18 && "  snapshots       "@.len() == 18,
        "  target cluster  "@.len() == 18 && "  clients         "@.len() == 18,
        "  seed data       "@.len() == 18,
        "  target          "@[2] == 't' && "  target          "@[9] == ' ',
        "  target cluster  "@[2] == 't' && "  target cluster  "@[9] == 'c',
        "  source          "@[2] == 's' && "  source          "@[3] == 'o',
        "  plugins         "@[2] == 'p',
        "  snapshots       "@[2] == 's' && "  snapshots       "@[3] == 'n',
        "  clients         "@[2] == 'c',
        "  seed data       "@[2] == 's' && "  seed data       "@[3] == 'e',
{
    reveal_strlit("  target          ");
    reveal_strlit("  source          ");
    reveal_strlit("  plugins         ");
    reveal_strlit("  snapshots       ");
    reveal_strlit("  target cluster  ");
    reveal_strlit("  clients         ");
    reveal_strlit("  seed data       ");
}

proof fn lemma_label(label: Seq<char>, value: Seq<char>, other: Seq<char>)
    requires
        label.len() == 18,
        other.len() == 18,
    ensures
        begins(label + value, other) <==> label == other,
{
    assert((label + value).subrange(0, 18) =~= label);
}

/// A printed plan says what was answered. The line of the target cluster has the mode and the version
/// of the target and nothing of the source; the line of the source has its engine and version and
/// nothing of the target; and so on for where the environment stands, the plugins, the snapshots, the
/// client applications and the sample data.
pub proof fn law_a_printed_plan_says_what_was_answered(a: AnswersView, i: int)
    requires
        0 <= i < plan_notes(a).len(),
        plan_notes(a)[i] is Dim,
    ensures
        ({
            let t = plan_notes(a)[i]->Dim_0;
            &&& begins(t, "  target          "@) ==> a.target is Some && t == "  target          "@
                + (a.target->0).label_text()
            &&& begins(t, "  source          "@) ==> a.source_engine is Some && t
                == "  source          "@ + ((a.source_engine->0).label_text() + " "@ + (
            match a.source_version {
                Some(v) => v,
                None => "—"@,
            }))
            &&& begins(t, "  plugins         "@) ==> a.source_plugins.len() > 0 && t
                == "  plugins         "@ + joined(a.source_plugins, ", "@)
            &&& begins(t, "  snapshots       "@) ==> a.snapshot_storage is Some && t
                == "  snapshots       "@ + (a.snapshot_storage->0).label_text()
            &&& begins(t, "  target cluster  "@) ==> a.target_mode is Some && t
                == "  target cluster  "@ + ((a.target_mode->0).label_text() + " "@ + (
            match a.target_version {
                Some(v) => v,
                None => ""@,
            }))
            &&& begins(t, "  clients         "@) ==> a.clients.len() > 0 && t
                == "  clients         "@ + joined(
                a.clients.map_values(|c: ClientApp| c.label_text()),
                ", "@,
            )
            &&& begins(t, "  seed data       "@) ==> t == "  seed data       "@ + (if a.seed_data
                == Some(true) {
                "yes"@
            } else {
                "no"@
            })
        }),
{
    let note = plan_notes(a)[i];
    let t = note->Dim_0;
    lemma_plan_labels();
    assert(a.clients.map_values(|c: ClientApp| c.label_text()) =~= client_labels(a.clients));
    let (label, value) = lemma_plan_note(a, i);
    lemma_label(label, value, "  target          "@);
    lemma_label(label, value, "  source          "@);
    lemma_label(label, value, "  plugins         "@);
    lemma_label(label, value, "  snapshots       "@);
    lemma_label(label, value, "  target cluster  "@);
    lemma_label(label, value, "  clients         "@);
    lemma_label(label, value, "  seed data       "@);
}

/// Every line of a plan but the first is a label and a value.
proof fn lemma_plan_note(a: AnswersView, i: int) -> (r: (Seq<char>, Seq<char>))
    requires
        0 <= i < plan_notes(a).len(),
        plan_notes(a)[i] is Dim,
    ensures
        plan_notes(a)[i] == plan_line(r.0, r.1),
        ({
            ||| r.0 == "  target          "@ && target_notes(a) == seq![plan_line(r.0, r.1)]
            ||| r.0 == "  source          "@ && source_notes(a) == seq![plan_line(r.0, r.1)]
            ||| r.0 == "  plugins         "@ && plugin_notes(a) == seq![plan_line(r.0, r.1)]
            ||| r.0 == "  snapshots       "@ && snapshot_notes(a) == seq![plan_line(r.0, r.1)]
            ||| r.0 == "  target cluster  "@ && target_cluster_notes(a) == seq![plan_line(r.0, r.1)]
            ||| r.0 == "  clients         "@ && client_notes(a) == seq![plan_line(r.0, r.1)]
            ||| r.0 == "  seed data       "@ && seed_note(a) == plan_line(r.0, r.1)
        }),
        target_notes(a) == seq![plan_line(r.0, r.1)] ==> target_notes(a)[0] == plan_line(r.0, r.1),
        source_notes(a) == seq![plan_line(r.0, r.1)] ==> source_notes(a)[0] == plan_line(r.0, r.1),
        plugin_notes(a) == seq![plan_line(r.0, r.1)] ==> plugin_notes(a)[0] == plan_line(r.0, r.1),
        snapshot_notes(a) == seq![plan_line(r.0, r.1)] ==> snapshot_notes(a)[0] == plan_line(
            r.0,
            r.1,
        ),
        target_cluster_notes(a) == seq![plan_line(r.0, r.1)] ==> target_cluster_notes(a)[0]
            == plan_line(r.0, r.1),
        client_notes(a) == seq![plan_line(r.0, r.1)] ==> client_notes(a)[0] == plan_line(r.0, r.1),
{
    let n1 = 1 + target_notes(a).len();
    let n2 = n1 + source_notes(a).len();
    let n3 = n2 + plugin_notes(a).len();
    let n4 = n3 + snapshot_notes(a).len();
    let n5 = n4 + target_cluster_notes(a).len();
    let n6 = n5 + client_notes(a).len();
    if i < n1 {
        assert(plan_notes(a)[i] == target_notes(a)[i - 1]);
        ("  target          "@, (a.target->0).label_text())
    } else if i < n2 {
        assert(plan_notes(a)[i] == source_notes(a)[i - n1]);
        let version = match a.source_version {
            Some(v) => v,
            None => "—"@,
        };
        ("  source          "@, (a.source_engine->0).label_text() + " "@ + version)
    } else if i < n3 {
        assert(plan_notes(a)[i] == plugin_notes(a)[i - n2]);
        ("  plugins         "@, joined(a.source_plugins, ", "@))
    } else if i < n4 {
        assert(plan_notes(a)[i] == snapshot_notes(a)[i - n3]);
        ("  snapshots       "@, (a.snapshot_storage->0).label_text())
    } else if i < n5 {
        assert(plan_notes(a)[i] == target_cluster_notes(a)[i - n4]);
        let version = match a.target_version {
            Some(v) => v,
            None => ""@,
        };
        ("  target cluster  "@, (a.target_mode->0).label_text() + " "@ + version)
    } else if i < n6 {
        assert(plan_notes(a)[i] == client_notes(a)[i - n5]);
        ("  clients         "@, joined(client_labels(a.clients), ", "@))
    } else {
        (
            "  seed data       "@,
            if a.seed_data == Some(true) {
                "yes"@
            } else {
                "no"@
            },
        )
    }
}

/// Whether a printed plan has a line that begins so.
pub open spec fn prints(a: AnswersView, label: Seq<char>) -> bool {
    exists|i: int|
        0 <= i < plan_notes(a).len() && (#[trigger] plan_notes(a)[i]) is Dim && begins(
            plan_notes(a)[i]->Dim_0,
            label,
        )
}

/// A printed plan leaves nothing out that was answered: first its summary, then a line for each.
pub proof fn law_a_printed_plan_leaves_nothing_out(a: AnswersView)
    ensures
        plan_notes(a)[0] == NoteView::Info("  "@ + a.summary_text()),
        a.target is Some ==> prints(a, "  target          "@),
        a.source_engine is Some ==> prints(a, "  source          "@),
        a.source_plugins.len() > 0 ==> prints(a, "  plugins         "@),
        a.snapshot_storage is Some ==> prints(a, "  snapshots       "@),
        a.target_mode is Some ==> prints(a, "  target cluster  "@),
        a.clients.len() > 0 ==> prints(a, "  clients         "@),
        prints(a, "  seed data       "@),
{
    let n1 = (1 + target_notes(a).len()) as int;
    let n2 = n1 + source_notes(a).len();
    let n3 = n2 + plugin_notes(a).len();
    let n4 = n3 + snapshot_notes(a).len();
    let n5 = n4 + target_cluster_notes(a).len();
    let n6 = n5 + client_notes(a).len();
    if a.target is Some {
        assert(plan_notes(a)[1] == target_notes(a)[0]);
        lemma_begins("  target          "@, (a.target->0).label_text());
    }
    if a.source_engine is Some {
        assert(plan_notes(a)[n1] == source_notes(a)[0]);
        let version = match a.source_version {
            Some(v) => v,
            None => "—"@,
        };
        lemma_begins("  source          "@, (a.source_engine->0).label_text() + " "@ + version);
    }
    if a.source_plugins.len() > 0 {
        assert(plan_notes(a)[n2] == plugin_notes(a)[0]);
        lemma_begins("  plugins         "@, joined(a.source_plugins, ", "@));
    }
    if a.snapshot_storage is Some {
        assert(plan_notes(a)[n3] == snapshot_notes(a)[0]);
        lemma_begins("  snapshots       "@, (a.snapshot_storage->0).label_text());
    }
    if a.target_mode is Some {
        assert(plan_notes(a)[n4] == target_cluster_notes(a)[0]);
        let version = match a.target_version {
            Some(v) => v,
            None => ""@,
        };
        lemma_begins("  target cluster  "@, (a.target_mode->0).label_text() + " "@ + version);
    }
    if a.clients.len() > 0 {
        assert(plan_notes(a)[n5] == client_notes(a)[0]);
        lemma_begins("  clients         "@, joined(client_labels(a.clients), ", "@));
    }
    assert(plan_notes(a)[n6] == seed_note(a));
    lemma_begins(
        "  seed data       "@,
        if a.seed_data == Some(true) {
            "yes"@
        } else {
            "no"@
        },
    );
}

/// Two plans that agree in the mode and the version of their target print the same line on it,
/// whatever their sources; two that agree in the mode and differ in the version print different ones.
pub proof fn law_the_printed_target_is_that_of_the_target(
    a: AnswersView,
    b: AnswersView,
    i: int,
    j: int,
)
    requires
        0 <= i < plan_notes(a).len(),
        0 <= j < plan_notes(b).len(),
        plan_notes(a)[i] is Dim,
        plan_notes(b)[j] is Dim,
        begins(plan_notes(a)[i]->Dim_0, "  target cluster  "@),
        begins(plan_notes(b)[j]->Dim_0, "  target cluster  "@),
        a.target_mode == b.target_mode,
        a.target_version is Some,
        b.target_version is Some,
    ensures
        a.target_version == b.target_version <==> plan_notes(a)[i] == plan_notes(b)[j],
{
    law_a_printed_plan_says_what_was_answered(a, i);
    law_a_printed_plan_says_what_was_answered(b, j);
    let (s, t) = (plan_notes(a)[i]->Dim_0, plan_notes(b)[j]->Dim_0);
    let front = "  target cluster  "@ + ((a.target_mode->0).label_text() + " "@);
    let (v, w) = (a.target_version->0, b.target_version->0);
    assert(s =~= front + v + seq![]);
    assert(t =~= front + w + seq![]);
    if s == t {
        lemma_between(front, v, w, seq![]);
    }
}

/// Two plans that agree in the engine and the version of their source print the same line on it,
/// whatever their targets; two that agree in the engine and differ in the version print different
/// ones.
pub proof fn law_the_printed_source_is_that_of_the_source(
    a: AnswersView,
    b: AnswersView,
    i: int,
    j: int,
)
    requires
        0 <= i < plan_notes(a).len(),
        0 <= j < plan_notes(b).len(),
        plan_notes(a)[i] is Dim,
        plan_notes(b)[j] is Dim,
        begins(plan_notes(a)[i]->Dim_0, "  source          "@),
        begins(plan_notes(b)[j]->Dim_0, "  source          "@),
        a.source_engine == b.source_engine,
        a.source_version is Some,
        b.source_version is Some,
    ensures
        a.source_version == b.source_version <==> plan_notes(a)[i] == plan_notes(b)[j],
{
    law_a_printed_plan_says_what_was_answered(a, i);
    law_a_printed_plan_says_what_was_answered(b, j);
    let (s, t) = (plan_notes(a)[i]->Dim_0, plan_notes(b)[j]->Dim_0);
    let front = "  source          "@ + ((a.source_engine->0).label_text() + " "@);
    let (v, w) = (a.source_version->0, b.source_version->0);
    assert(s =~= front + v + seq![]);
    assert(t =~= front + w + seq![]);
    if s == t {
        lemma_between(front, v, w, seq![]);
    }
}

/// The notes that say where everything is reached.
pub open spec fn endpoint_notes(plan: ProvisionPlanView, a: AnswersView) -> Seq<NoteView> {
    let source = seq![
        NoteView::Step("Provisioned endpoints"@),
        NoteView::Dim(
            "  source   http://"@ + plan.source_host
                + ":9200  (in-cluster) / http://localhost:19200 (host)"@,
        ),
    ];
    let target = match plan.target_host {
        Some(t) => seq![
            NoteView::Dim(
                "  target   http://"@ + t
                    + ":9200  (in-cluster) / http://localhost:29200 (host)"@,
            ),
        ],
        None => seq![],
    };
    let cloud = if a.target == Some(Target::Cloud) {
        seq![NoteView::Dim("  (cloud) see terraform/ outputs after `terraform apply`"@)]
    } else {
        seq![]
    };
    source + target + cloud
}

/// The notes that say where everything is reached.
pub fn print_endpoints(plan: &ProvisionPlan, answers: &Answers) -> (r: Vec<Note>)
    ensures
        note_views(r@) == endpoint_notes(plan@, answers@),
{
    let mut r: Vec<Note> = Vec::new();
    add_note(&mut r, Note::Step("Provisioned endpoints".to_string()));
    add_note(
        &mut r,
        Note::Dim(
            "  source   http://".to_string().concat(plan.source_host.as_str()).concat(
                ":9200  (in-cluster) / http://localhost:19200 (host)",
            ),
        ),
    );
    if let Some(t) = &plan.target_host {
        add_note(
            &mut r,
            Note::Dim(
                "  target   http://".to_string().concat(t.as_str()).concat(
                    ":9200  (in-cluster) / http://localhost:29200 (host)",
                ),
            ),
        );
    }
    if answers.target == Some(Target::Cloud) {
        add_note(
            &mut r,
            Note::Dim("  (cloud) see terraform/ outputs after `terraform apply`".to_string()),
        );
    }
    assert(note_views(r@) =~= endpoint_notes(plan@, answers@));
    r
}

/// Where everything is reached is said of what there is: the source by the host of its plan, the
/// target where the plan has one, and Terraform's outputs for an environment in the cloud and no
/// other.
pub proof fn law_the_endpoints_are_those_of_the_plan(plan: ProvisionPlanView, a: AnswersView)
    ensures
        ({
            let notes = endpoint_notes(plan, a);
            let cloud = a.target == Some(Target::Cloud);
            &&& notes.len() == 2 + (if plan.target_host is Some {
                1int
            } else {
                0
            }) + (if cloud {
                1int
            } else {
                0
            })
            &&& notes[1] == NoteView::Dim(
                "  source   http://"@ + plan.source_host
                    + ":9200  (in-cluster) / http://localhost:19200 (host)"@,
            )
            &&& plan.target_host is Some ==> notes[2] == NoteView::Dim(
                "  target   http://"@ + plan.target_host->0
                    + ":9200  (in-cluster) / http://localhost:29200 (host)"@,
            )
            &&& cloud ==> notes.last() == NoteView::Dim(
                "  (cloud) see terraform/ outputs after `terraform apply`"@,
            )
        }),
{
}

/// What the commands and flags do.
pub const USAGE: &'static str =
    r#"ma-demo — OpenSearch Migration Assistant demo environment setup

Usage:
  ma-demo [flags]            Run the wizard, provision, launch MA (default)
  ma-demo run [flags]        Same as default
  ma-demo plan [flags]       Collect answers + print the plan; provision nothing
  ma-demo clear [flags]      Wipe the local workspace (no Docker/cloud changes)
  ma-demo destroy [flags]    Delete the local KIND clusters + wipe the workspace
  ma-demo version            Print version
  ma-demo help               This help

Flags:
  -y, --non-interactive      Accept defaults; for CI / unattended runs.
  --dry-run, --plan          Stop after printing the plan.
  --workspace DIR            Workspace dir (default ./migration-demo-workspace).

This harness stands up a SOURCE search cluster (Elasticsearch / OpenSearch /
Solr), optional snapshot storage + target OpenSearch, and client apps, locally
via KIND or as Terraform for AWS — then installs and launches the Migration
Assistant CLI (from "#;

/// The help.
pub open spec fn help_of(version: Seq<char>) -> Seq<char> {
    USAGE@ + MA_REPO@ + " "@ + MA_VERSION@ + ").\n\nVersion: "@ + version + "\n"@
}

/// The help.
pub fn help_text(version: &str) -> (r: String)
    ensures
        r@ == help_of(version@),
{
    USAGE.to_string().concat(MA_REPO).concat(" ").concat(MA_VERSION).concat(
        ").\n\nVersion: ",
    ).concat(version).concat("\n")
}

// ---------------------------------------------------------------------------
// The wizard
// ---------------------------------------------------------------------------

/// One exchange with a wizard: what was asked, with what selected, and what came back.
pub struct Exchange {
    pub question: QuestionView,
    pub preselect: Seq<Seq<char>>,
    pub reply: Result<OutcomeView, ErrorView>,
}

/// What came back from a wizard.
pub open spec fn reply_view(r: Result<Outcome, Error>) -> Result<OutcomeView, ErrorView> {
    match r {
        Ok(o) => Ok(o@),
        Err(e) => Err(e@),
    }
}

/// Something that puts questions to the operator.
pub trait Wizardish: Sized {
    /// Whether an exchange can turn `pre` into `post`.
    open spec fn exchanges(pre: Self, exchange: Exchange, post: Self) -> bool {
        true
    }

    /// Asks a question. Where several options can be chosen, those in `preselect` start selected.
    fn ask(&mut self, question: &Question, preselect: &[String]) -> (r: Result<Outcome, Error>)
        ensures
            Self::exchanges(*old(self), exchange(question@, preselect@, r), *final(self)),
    ;
}

/// One exchange with a wizard.
pub open spec fn exchange(
    question: QuestionView,
    preselect: Seq<String>,
    r: Result<Outcome, Error>,
) -> Exchange {
    Exchange { question, preselect: texts(preselect), reply: reply_view(r) }
}

/// A wizard, and what was asked through it. That record is kept for contracts only: it is no part of
/// the running program.
pub struct Heard<W: Wizardish> {
    pub inner: W,
    record: Ghost<Seq<Exchange>>,
}

impl<W: Wizardish> Heard<W> {
    /// Every exchange so far, in order.
    pub closed spec fn exchanges(&self) -> Seq<Exchange> {
        self.record@
    }

    /// The wizard as it is.
    pub closed spec fn current(&self) -> W {
        self.inner
    }

    /// What an exchange can do to the wizard.
    pub open spec fn course() -> spec_fn(W, Exchange, W) -> bool {
        |pre: W, e: Exchange, post: W| W::exchanges(pre, e, post)
    }

    /// Whether `post` is this wizard after the exchanges that the record of `post` holds more, and
    /// nothing else.
    pub open spec fn leads_to(self, post: Self) -> bool {
        continued(
            Self::course(),
            self.current(),
            self.exchanges(),
            post.current(),
            post.exchanges(),
        )
    }

    /// A wizard through which nothing was asked yet.
    pub fn new(inner: W) -> (r: Self)
        ensures
            r.current() == inner,
            r.exchanges() == Seq::<Exchange>::empty(),
    {
        Heard { inner, record: Ghost(Seq::empty()) }
    }

    /// Asks a question. Where several options can be chosen, those in `preselect` start selected.
    pub fn ask(&mut self, question: &Question, preselect: &[String]) -> (r: Result<Outcome, Error>)
        ensures
            W::exchanges(
                old(self).current(),
                exchange(question@, preselect@, r),
                final(self).current(),
            ),
            final(self).exchanges() == old(self).exchanges().push(
                exchange(question@, preselect@, r),
            ),
            old(self).leads_to(*final(self)),
    {
        let ghost before = *self;
        let r = self.inner.ask(question, preselect);
        let ghost e = exchange(question@, preselect@, r);
        self.record = Ghost(self.record@.push(e));
        proof {
            lemma_one_entry(Self::course(), before.inner, before.exchanges(), e, self.inner);
        }
        r
    }
}

/// A wizard that is asked nothing stays as it is.
pub broadcast proof fn lemma_wizard_at_rest<W: Wizardish>(pre: Heard<W>, post: Heard<W>)
    requires
        pre == post,
    ensures
        #[trigger] pre.leads_to(post),
{
    lemma_at_rest(Heard::<W>::course(), pre.current(), pre.exchanges());
}

/// A wizard through which nothing was asked is the wizard that it was.
pub proof fn law_a_wizard_that_is_not_asked_stays<W: Wizardish>(pre: Heard<W>, post: Heard<W>)
    requires
        pre.leads_to(post),
        pre.exchanges().len() == post.exchanges().len(),
    ensures
        pre.current() == post.current(),
{
    lemma_nothing_added(
        Heard::<W>::course(),
        pre.current(),
        pre.exchanges(),
        post.current(),
        post.exchanges(),
    );
}

/// The identifiers of client applications.
pub open spec fn client_ids(v: Seq<ClientApp>) -> Seq<Seq<char>> {
    v.map_values(|c: ClientApp| c.id_text())
}

/// What starts selected when a question is asked again.
pub open spec fn preselection(q: QuestionId, a: AnswersView) -> Seq<Seq<char>> {
    match q {
        QuestionId::SourcePlugins => a.source_plugins,
        QuestionId::Clients => client_ids(a.clients),
        _ => seq![],
    }
}

/// What starts selected when a question is asked again: what was chosen before.
pub fn preselect_for(q: QuestionId, a: &Answers) -> (r: Vec<String>)
    ensures
        texts(r@) == preselection(q, a@),
{
    match q {
        QuestionId::SourcePlugins => copy_texts(&a.source_plugins),
        QuestionId::Clients => {
            let mut r: Vec<String> = Vec::new();
            for i in 0..a.clients.len()
                invariant
                    r@.len() == i,
                    forall|j: int| 0 <= j < i ==> (#[trigger] r@[j])@ == a.clients@[j].id_text(),
            {
                r.push(a.clients[i].id().to_string());
            }
            assert(texts(r@) =~= client_ids(a@.clients));
            r
        },
        _ => {
            let r: Vec<String> = Vec::new();
            assert(texts(r@) =~= seq![]);
            r
        },
    }
}

/// What the reply to a question does to the answers.
pub open spec fn answers_after(
    a: AnswersView,
    q: QuestionId,
    reply: Result<OutcomeView, ErrorView>,
) -> AnswersView {
    match reply {
        Ok(OutcomeView::Answered(ans)) => applied(a, q, ans),
        _ => a,
    }
}

/// What a reply ends the run with.
pub open spec fn asking_error(reply: Result<OutcomeView, ErrorView>) -> Option<ErrorView> {
    match reply {
        Ok(OutcomeView::Answered(_)) => None,
        Ok(OutcomeView::Cancelled) => Some(fatal("setup cancelled by user"@)),
        Err(e) => Some(e),
    }
}

/// Puts a question to the operator and notes the answer. Leaving the wizard ends the run.
pub fn ask_question<W: Wizardish>(wiz: &mut Heard<W>, answers: &mut Answers, id: QuestionId) -> (r:
    Result<(), Error>)
    ensures
        ({
            let e = final(wiz).exchanges().last();
            &&& old(wiz).leads_to(*final(wiz))
            &&& final(wiz).exchanges() == old(wiz).exchanges().push(e)
            &&& e.question == question(id, old(answers)@)
            &&& e.preselect == preselection(id, old(answers)@)
            &&& final(answers)@ == answers_after(old(answers)@, id, e.reply)
            &&& match r {
                Ok(_) => asking_error(e.reply) is None,
                Err(x) => asking_error(e.reply) == Some(x@),
            }
        }),
{
    let q = build(id, answers);
    let preselect = preselect_for(id, answers);
    match wiz.ask(&q, preselect.as_slice()) {
        Ok(Outcome::Answered(ans)) => {
            apply(answers, id, ans);
            Ok(())
        },
        Ok(Outcome::Cancelled) => Err(Error::die("setup cancelled by user")),
        Err(e) => Err(e),
    }
}

// ---------------------------------------------------------------------------
// Starting the Migration Assistant
// ---------------------------------------------------------------------------

/// What the exit status of the Migration Assistant ends the run with.
pub open spec fn launch_error(status: i32) -> Option<ErrorView> {
    if status == 0 {
        None
    } else {
        Some(
            ErrorView {
                message: "Migration Assistant exited non-zero"@,
                code: if status > 1 {
                    status
                } else {
                    1
                },
            },
        )
    }
}

/// The command that starts the Migration Assistant.
pub open spec fn launch_call(argv: Seq<Seq<char>>) -> CallView {
    runner::command(argv[0], argv.skip(1))
}

/// Starts the Migration Assistant in the terminal and waits for it. A status other than zero is an
/// error with that code, or with 1 where the status is negative.
pub fn launch_ma<R: CommandRunner>(runner: &mut Logged<R>, argv: &Vec<String>) -> (r: Result<(), Error>)
    requires
        argv@.len() > 0,
    ensures
        grew(old(runner).events(), final(runner).events()),
        ({
            let log = since(old(runner).events(), final(runner).events());
            &&& old(runner).leads_to(*final(runner))
            &&& asks(log) == seq![Ask::Stream(launch_call(texts(argv@)))]
            &&& match r {
                Ok(_) => launch_error(log[0].output().status) is None,
                Err(e) => launch_error(log[0].output().status) == Some(e@),
            }
        }),
{
    let ghost before = runner.events();
    let mut rest: Vec<&str> = Vec::new();
    for i in 1..argv.len()
        invariant
            argv@.len() > 0,
            rest@.len() == i - 1,
            forall|j: int| 0 <= j < i - 1 ==> (#[trigger] rest@[j])@ == argv@[j + 1]@,
    {
        rest.push(argv[i].as_str());
    }
    assert(str_texts(rest@) =~= texts(argv@).skip(1));
    let out = runner.run_streaming(argv[0].as_str(), rest.as_slice());
    proof {
        let e = runner.events().last();
        lemma_since(before, seq![e]);
        assert(before + seq![e] =~= before.push(e));
        assert(asks(seq![e]) =~= seq![Ask::Stream(launch_call(texts(argv@)))]);
    }
    if out.success() {
        Ok(())
    } else {
        let code: i32 = if out.status > 1 {
            out.status
        } else {
            1
        };
        Err(Error::with_code("Migration Assistant exited non-zero", code))
    }
}

// ---------------------------------------------------------------------------
// Dispatch
// ---------------------------------------------------------------------------

/// What a run takes from its surroundings.
#[derive(Debug, Clone, PartialEq, Eq)]
pub struct Setup {
    pub version: String,
    /// The workspace of a run that is given none.
    pub workspace: String,
    /// The chart of the Migration Assistant, where there is one.
    pub chart: Option<String>,
    /// Whether newer releases are not asked for.
    pub no_update_check: bool,
}

/// What a [`Setup`] holds.
#[verifier::ext_equal]
pub struct SetupView {
    pub version: Seq<char>,
    pub workspace: Seq<char>,
    pub chart: Option<Seq<char>>,
    pub no_update_check: bool,
}

impl View for Setup {
    type V = SetupView;

    open spec fn view(&self) -> SetupView {
        SetupView {
            version: self.version@,
            workspace: self.workspace@,
            chart: opt_text(self.chart),
            no_update_check: self.no_update_check,
        }
    }
}

/// The workspace of a command line.
pub open spec fn workspace_of(args: Seq<Seq<char>>, setup: SetupView) -> Seq<char> {
    match flags_of(flag_args(args)).workspace {
        Some(w) => w,
        None => setup.workspace,
    }
}

/// The session that a command line starts.
pub open spec fn session_for(args: Seq<Seq<char>>, setup: SetupView) -> SessionView {
    let f = flags_of(flag_args(args));
    SessionView {
        state: StateView::fresh(workspace_of(args, setup)),
        command: command_of(args),
        flags: f,
        dry_run: f.dry_run || command_of(args) == Command::Plan,
        setup,
        stage: first_stage(command_of(args)),
        task: ProvisionView::start(AnswersView::fresh()),
        install: Install::Begin,
        errands: seq![],
        done: 0,
        deployed: false,
    }
}

/// The session that a command line starts; the name of the program is not among the arguments.
pub fn dispatch<R: CommandRunner, P: Progress, W: Wizardish>(
    args: &Vec<String>,
    runner: R,
    progress: P,
    wiz: W,
    setup: Setup,
) -> (r: Session<R, P, W>)
    ensures
        r@ == session_for(texts(args@), setup@),
        r@.wf(),
        r.app.runner.current() == runner,
        r.app.runner.events() == Seq::<Event>::empty(),
        r.app.progress.current() == progress,
        r.app.progress.said() == Seq::<Said>::empty(),
        r.wiz.current() == wiz,
        r.wiz.exchanges() == Seq::<Exchange>::empty(),
{
    let c = command(args);
    let f = flags(args);
    let workspace = match &f.workspace {
        Some(w) => w.as_str(),
        None => setup.workspace.as_str(),
    };
    let stage = match c {
        Command::Run => Stage::Greet,
        Command::Plan => Stage::Greet,
        Command::Clear => Stage::ClearGreet,
        Command::Destroy => Stage::DestroyGreet,
        Command::Status => Stage::StatusRead,
        Command::Version => Stage::Tell,
        Command::Help => Stage::Tell,
        Command::Unknown => Stage::Tell,
    };
    let app = App::new(runner, workspace, progress);
    let nothing = Answers::new();
    let task = Provision {
        plan: build_plan(&nothing),
        files: Vec::new(),
        cloud: false,
        at: 0,
        written: false,
        apply: false,
    };
    assert(task@ =~= ProvisionView::start(AnswersView::fresh()));
    let dry_run = f.dry_run || c == Command::Plan;
    let errands: Vec<Errand> = Vec::new();
    assert(errand_views(errands@) =~= seq![]);
    Session {
        app,
        wiz: Heard::new(wiz),
        command: c,
        flags: f,
        dry_run,
        setup,
        stage,
        task,
        install: Install::Begin,
        errands,
        done: 0,
        deployed: false,
    }
}

/// What follows a stretch of arguments is read after it, as long as that stretch does not wait for a
/// value.
proof fn lemma_flags_append(args: Seq<Seq<char>>, more: Seq<Seq<char>>, i: int, f: FlagsView)
    requires
        0 <= i <= args.len(),
        !is_value(args, i),
        !is_value(args, args.len() as int),
        args.len() > 0 ==> !looks_ahead(args.last()),
    ensures
        flags_from(args + more, i, f) == flags_from(
            args + more,
            args.len() as int,
            flags_from(args, i, f),
        ),
    decreases args.len() - i,
{
    let all = args + more;
    if i < args.len() {
        let g = with_flag(f, args[i], value_at(args, i + 1));
        assert(all[i] == args[i]);
        if i + 1 < args.len() {
            assert(value_at(all, i + 1) == value_at(args, i + 1));
        } else {
            assert(args[i] == args.last());
            assert(!takes_value(args[i]));
            assert(with_flag(f, all[i], value_at(all, i + 1)) == g);
        }
        if takes_value(args[i]) && i + 1 < args.len() {
            assert(is_value(args, i + 1));
            assert(!is_value(args, i + 2));
            lemma_flags_append(args, more, i + 2, g);
        } else {
            assert(!is_value(args, i + 1)) by {
                if i + 1 < args.len() {
                    assert(!takes_value(args[i]));
                }
            }
            lemma_flags_append(args, more, i + 1, g);
        }
    }
}

/// A flag with a value, written in two arguments or in one, sets that value whatever was said before,
/// and nothing else.
pub proof fn law_the_last_value_counts(args: Seq<Seq<char>>, v: Seq<char>)
    requires
        !is_value(args, args.len() as int),
        args.len() > 0 ==> !looks_ahead(args.last()),
    ensures
        ({
            let f = flags_of(args);
            &&& flags_of(args + seq!["--workspace"@, v]) == (FlagsView { workspace: Some(v), ..f })
            &&& flags_of(args + seq!["--workspace="@ + v]) == (FlagsView {
                workspace: Some(v),
                ..f
            })
            &&& flags_of(args + seq!["--aws-region="@ + v]) == (FlagsView {
                aws_region: Some(v),
                ..f
            })
            &&& flags_of(args + seq!["--aws-profile="@ + v]) == (FlagsView {
                aws_profile: Some(v),
                ..f
            })
            &&& flags_of(args + seq!["--ma-handoff="@ + v]) == (FlagsView {
                ma_handoff: ma_handoff_named(v),
                ..f
            })
        }),
{
    let none = FlagsView::none();
    let n = args.len() as int;
    let f = flags_of(args);
    lemma_flags_append(args, seq!["--workspace"@, v], 0, none);
    lemma_flags_append(args, seq!["--workspace="@ + v], 0, none);
    lemma_flags_append(args, seq!["--aws-region="@ + v], 0, none);
    lemma_flags_append(args, seq!["--aws-profile="@ + v], 0, none);
    lemma_flags_append(args, seq!["--ma-handoff="@ + v], 0, none);
    lemma_flags_with_values(v);
    let two = args + seq!["--workspace"@, v];
    assert(two[n] == "--workspace"@ && two[n + 1] == v);
    assert(flags_from(two, n, f) == flags_from(two, n + 2, with_flag(f, "--workspace"@, Some(v))));
    lemma_one_more(args, "--workspace="@ + v, f);
    lemma_one_more(args, "--aws-region="@ + v, f);
    lemma_one_more(args, "--aws-profile="@ + v, f);
    lemma_one_more(args, "--ma-handoff="@ + v, f);
}

proof fn lemma_one_more(args: Seq<Seq<char>>, arg: Seq<char>, f: FlagsView)
    requires
        !takes_value(arg),
    ensures
        flags_from(args + seq![arg], args.len() as int, f) == with_flag(f, arg, None),
{
    let all = args + seq![arg];
    let n = args.len() as int;
    assert(all[n] == arg);
    assert(value_at(all, n + 1) is None);
    assert(flags_from(all, n, f) == flags_from(all, n + 1, with_flag(f, arg, None)));
}

/// What the flags that hold a value come to.
proof fn lemma_flags_with_values(v: Seq<char>)
    ensures
        forall|f: FlagsView|
            #![trigger with_flag(f, "--workspace"@, Some(v))]
            with_flag(f, "--workspace"@, Some(v)) == (FlagsView { workspace: Some(v), ..f }),
        forall|f: FlagsView|
            #![trigger with_flag(f, "--workspace="@ + v, None)]
            with_flag(f, "--workspace="@ + v, None) == (FlagsView { workspace: Some(v), ..f }),
        forall|f: FlagsView|
            #![trigger with_flag(f, "--aws-region="@ + v, None)]
            with_flag(f, "--aws-region="@ + v, None) == (FlagsView { aws_region: Some(v), ..f }),
        forall|f: FlagsView|
            #![trigger with_flag(f, "--aws-profile="@ + v, None)]
            with_flag(f, "--aws-profile="@ + v, None) == (FlagsView { aws_profile: Some(v), ..f }),
        forall|f: FlagsView|
            #![trigger with_flag(f, "--ma-handoff="@ + v, None)]
            with_flag(f, "--ma-handoff="@ + v, None) == (FlagsView {
                ma_handoff: ma_handoff_named(v),
                ..f
            }),
        !takes_value("--workspace="@ + v),
        !takes_value("--aws-region="@ + v),
        !takes_value("--aws-profile="@ + v),
        !takes_value("--ma-handoff="@ + v),
{
    reveal_strlit("--workspace");
    reveal_strlit("--workspace=");
    reveal_strlit("--aws-region");
    reveal_strlit("--aws-region=");
    reveal_strlit("--aws-profile");
    reveal_strlit("--aws-profile=");
    reveal_strlit("--ma-handoff");
    reveal_strlit("--ma-handoff=");
    reveal_strlit("-y");
    reveal_strlit("--non-interactive");
    reveal_strlit("--yes");
    reveal_strlit("--dry-run");
    reveal_strlit("--plan");
    reveal_strlit("--no-dashboard");
    reveal_strlit("--apply");
    reveal_strlit("--no-apply");
    let w = "--workspace="@ + v;
    let r = "--aws-region="@ + v;
    let p = "--aws-profile="@ + v;
    let h = "--ma-handoff="@ + v;
    lemma_begins("--workspace="@, v);
    lemma_begins("--aws-region="@, v);
    lemma_begins("--aws-profile="@, v);
    lemma_begins("--ma-handoff="@, v);
    assert(w.skip(12) =~= v && r.skip(13) =~= v && p.skip(14) =~= v && h.skip(13) =~= v);
    assert("--workspace"@.len() == 11 && "--workspace="@.len() == 12);
    assert("--aws-region="@.len() == 13 && "--aws-profile="@.len() == 14);
    assert("--ma-handoff="@.len() == 13 && "--aws-region"@.len() == 12);
    assert("--aws-profile"@.len() == 13 && "--ma-handoff"@.len() == 12);
    assert("-y"@.len() == 2 && "--yes"@.len() == 5 && "--plan"@.len() == 6);
    assert("--apply"@.len() == 7 && "--dry-run"@.len() == 9 && "--no-apply"@.len() == 10);
    assert("--non-interactive"@[2] == 'n' && "--no-dashboard"@[2] == 'n');
    assert("--no-apply"@[2] == 'n' && "--dry-run"@[2] == 'd');
    assert(w[2] == 'w' && w[11] == '=' && r[2] == 'a' && r[6] == 'r' && r[12] == '=');
    assert(p[2] == 'a' && p[6] == 'p' && p[13] == '=' && h[2] == 'm' && h[12] == '=');
    assert("--workspace"@[2] == 'w');
    assert(!begins(r, "--workspace="@)) by {
        assert(r.subrange(0, 12)[2] == 'a' && "--workspace="@[2] == 'w');
    }
    assert(!begins(p, "--workspace="@)) by {
        assert(p.subrange(0, 12)[2] == 'a' && "--workspace="@[2] == 'w');
    }
    assert(!begins(h, "--workspace="@)) by {
        assert(h.subrange(0, 12)[2] == 'm' && "--workspace="@[2] == 'w');
    }
    assert(!begins(r, "--ma-handoff="@)) by {
        assert(r.subrange(0, 13)[2] == 'a' && "--ma-handoff="@[2] == 'm');
    }
    assert(!begins(p, "--ma-handoff="@)) by {
        assert(p.subrange(0, 13)[2] == 'a' && "--ma-handoff="@[2] == 'm');
    }
    assert(!begins(p, "--aws-region="@)) by {
        assert(p.subrange(0, 13)[6] == 'p' && "--aws-region="@[6] == 'r');
    }
}

/// What the flags say is put in place of what was answered; what they do not speak of stays.
pub proof fn law_flags_override_the_answers(a: AnswersView, f: FlagsView)
    ensures
        ({
            let b = overridden(a, f);
            &&& b.ma_handoff == if f.ma_handoff is Some {
                f.ma_handoff
            } else {
                a.ma_handoff
            }
            &&& b.aws_region == if f.aws_region is Some {
                f.aws_region
            } else {
                a.aws_region
            }
            &&& b.aws_profile == if f.aws_profile is Some {
                f.aws_profile
            } else {
                a.aws_profile
            }
            &&& b == (AnswersView {
                ma_handoff: b.ma_handoff,
                aws_region: b.aws_region,
                aws_profile: b.aws_profile,
                ..a
            })
        }),
{
}

/// Terraform files are applied by a run that asks unless it is told not to, and by one that asks
/// nothing only if it is told to.
pub proof fn law_when_terraform_is_applied(f: FlagsView)
    ensures
        f.no_apply ==> !f.applies(),
        !f.no_apply && !f.non_interactive ==> f.applies(),
        !f.no_apply && f.non_interactive ==> (f.applies() <==> f.apply),
{
}

/// A run ends as the Migration Assistant does: well if it ends well, else with its status, or with 1
/// where that is none.
pub proof fn law_a_run_ends_as_the_assistant_does(status: i32)
    ensures
        launch_error(status) is None <==> status == 0,
        status > 0 ==> (launch_error(status)->0).code == status,
        status < 0 ==> (launch_error(status)->0).code == 1,
        status != 0 ==> (launch_error(status)->0).message == "Migration Assistant exited non-zero"@,
{
}

/// The assistant is started by its command line, the first word being the program.
pub proof fn law_the_assistant_is_started_by_its_line(program: Seq<char>, args: Seq<Seq<char>>)
    ensures
        launch_call(seq![program] + args).program == program,
        launch_call(seq![program] + args).args == args,
{
    assert((seq![program] + args).skip(1) =~= args);
}

/// Each command is known by its name; no argument, and a flag, is a run.
pub proof fn law_commands_are_known_by_name(rest: Seq<Seq<char>>, flag: Seq<char>)
    ensures
        command_of(Seq::empty()) == Command::Run,
        command_of(seq!["run"@] + rest) == Command::Run,
        command_of(seq!["plan"@] + rest) == Command::Plan,
        command_of(seq!["clear"@] + rest) == Command::Clear,
        command_of(seq!["destroy"@] + rest) == Command::Destroy,
        command_of(seq!["status"@] + rest) == Command::Status,
        command_of(seq!["version"@] + rest) == Command::Version,
        command_of(seq!["help"@] + rest) == Command::Help,
        begins(flag, "-"@) && flag != "--version"@ && flag != "-V"@ && flag != "--help"@ && flag
            != "-h"@ ==> command_of(seq![flag] + rest) == Command::Run,
        flag == "--version"@ || flag == "-V"@ ==> command_of(seq![flag] + rest) == Command::Version,
        flag == "--help"@ || flag == "-h"@ ==> command_of(seq![flag] + rest) == Command::Help,
{
    reveal_strlit("run");
    reveal_strlit("plan");
    reveal_strlit("clear");
    reveal_strlit("destroy");
    reveal_strlit("status");
    reveal_strlit("version");
    reveal_strlit("help");
    reveal_strlit("--version");
    reveal_strlit("--help");
    reveal_strlit("-V");
    reveal_strlit("-h");
    reveal_strlit("-");
    assert("run"@[0] == 'r' && "plan"@[0] == 'p' && "clear"@[0] == 'c');
    assert("destroy"@[0] == 'd' && "status"@[0] == 's' && "version"@[0] == 'v');
    assert("help"@[0] == 'h' && "--version"@[0] == '-' && "--help"@[0] == '-');
    assert("-V"@[0] == '-' && "-h"@[0] == '-' && "--version"@.len() == 9 && "--help"@.len() == 6);
    assert("-V"@.len() == 2 && "-h"@.len() == 2 && "-V"@[1] == 'V' && "-h"@[1] == 'h');
    if begins(flag, "-"@) {
        assert("-"@ =~= seq!['-']);
        assert(flag.subrange(0, 1)[0] == flag[0]);
    }
    assert((seq![flag] + rest)[0] == flag);
    assert((seq!["run"@] + rest)[0] == "run"@);
    assert((seq!["plan"@] + rest)[0] == "plan"@);
    assert((seq!["clear"@] + rest)[0] == "clear"@);
    assert((seq!["destroy"@] + rest)[0] == "destroy"@);
    assert((seq!["status"@] + rest)[0] == "status"@);
    assert((seq!["version"@] + rest)[0] == "version"@);
    assert((seq!["help"@] + rest)[0] == "help"@);
}

/// What was chosen before starts selected when a list is asked for again.
pub proof fn law_what_was_chosen_starts_selected(a: AnswersView, q: QuestionId)
    ensures
        preselection(QuestionId::SourcePlugins, a) == a.source_plugins,
        preselection(QuestionId::Clients, a) == a.clients.map_values(|c: ClientApp| c.id_text()),
        q != QuestionId::SourcePlugins && q != QuestionId::Clients ==> preselection(q, a).len() == 0,
{
    assert(client_ids(a.clients) =~= a.clients.map_values(|c: ClientApp| c.id_text()));
}

/// An answer is recorded, leaving the wizard ends the run, and an error of the wizard ends it as it
/// is; where there is no answer, nothing is recorded.
pub proof fn law_what_a_reply_leads_to(
    a: AnswersView,
    q: QuestionId,
    ans: AnswerView,
    e: ErrorView,
)
    ensures
        answers_after(a, q, Ok(OutcomeView::Answered(ans))) == applied(a, q, ans),
        asking_error(Ok(OutcomeView::Answered(ans))) is None,
        answers_after(a, q, Ok(OutcomeView::Cancelled)) == a,
        asking_error(Ok(OutcomeView::Cancelled)) == Some(fatal("setup cancelled by user"@)),
        answers_after(a, q, Err(e)) == a,
        asking_error(Err(e)) == Some(e),
{
}

/// The session of a command line is in the workspace that was asked for, or in the one that is given,
/// and is a dry run if it was asked to be one or only has to show the plan.
pub proof fn law_the_session_of_a_command_line(args: Seq<Seq<char>>, setup: SetupView)
    ensures
        ({
            let s = session_for(args, setup);
            let f = flags_of(flag_args(args));
            &&& f.workspace is Some ==> s.state.dir == f.workspace->0
            &&& f.workspace is None ==> s.state.dir == setup.workspace
            &&& s.dry_run <==> f.dry_run || command_of(args) == Command::Plan
            &&& s.flags == f
            &&& s.setup == setup
            &&& s.command == command_of(args)
        }),
{
}

/// The flags of a command line follow its command; where it starts with a flag, they are all of it.
pub proof fn law_flags_follow_the_command(word: Seq<char>, rest: Seq<Seq<char>>)
    ensures
        begins(word, "-"@) && word != "--version"@ && word != "-V"@ && word != "--help"@ && word
            != "-h"@ ==> flag_args(seq![word] + rest) == seq![word] + rest,
        !begins(word, "-"@) ==> flag_args(seq![word] + rest) == rest,
        flag_args(Seq::empty()).len() == 0,
{
    law_commands_are_known_by_name(rest, word);
    reveal_strlit("run");
    reveal_strlit("-");
    assert(!begins("run"@, "-"@)) by {
        assert("run"@.subrange(0, 1)[0] == 'r' && "-"@[0] == '-');
    }
    let all = seq![word] + rest;
    assert(all[0] == word);
    assert(all.skip(1) =~= rest);
}

/// The first two of five parts stand in the whole, the first at its start.
proof fn lemma_help_parts(
    usage: Seq<char>,
    assistant: Seq<char>,
    mark: Seq<char>,
    version: Seq<char>,
    end: Seq<char>,
)
    ensures
        begins(usage + assistant + mark + version + end, usage),
        contains(usage + assistant + mark + version + end, assistant),
{
    let back = mark + version + end;
    let all = usage + assistant + mark + version + end;
    assert(all =~= usage + (assistant + back));
    lemma_begins(usage, assistant + back);
    lemma_contains_itself(assistant);
    lemma_contains_in_front(assistant, back, assistant);
    lemma_contains_in_back(usage, assistant + back, assistant);
}

/// The help says which version this is and which Migration Assistant it hands over to.
pub proof fn law_the_help_names_the_version(version: Seq<char>)
    ensures
        contains(help_of(version), "Version: "@ + version + "\n"@),
        contains(help_of(version), MA_REPO@ + " "@ + MA_VERSION@),
        begins(help_of(version), USAGE@),
{
    let a = USAGE@ + MA_REPO@ + " "@ + MA_VERSION@;
    let mark = ").\n\nVersion: "@;
    assert(mark.skip(4) == "Version: "@ && mark.len() == 13) by {
        reveal_strlit(").\n\nVersion: ");
        reveal_strlit("Version: ");
        assert(mark.skip(4) =~= "Version: "@);
    }
    assert("\n"@.len() == 1 && "\n"@.take(1) == "\n"@) by {
        reveal_strlit("\n");
        assert("\n"@.take(1) =~= "\n"@);
    }
    lemma_spanning(a, mark, version, "\n"@, 4, 1);
    lemma_last_three(USAGE@, MA_REPO@, " "@, MA_VERSION@);
    lemma_help_parts(USAGE@, MA_REPO@ + " "@ + MA_VERSION@, mark, version, "\n"@);
}

} // verus!
