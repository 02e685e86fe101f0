//! What is told before a plan is carried out: where it goes, and whether there is a newer release.

use crate::aws::{account_in, account_of, caller_identity, identity_in, identity_query};
use crate::model::{Answers, AnswersView, Target, TargetKind, TargetMode};
use crate::passages::lemma_begins;
use crate::runner::{asks, group_runner, grew, lemma_since, since, Ask, CommandRunner, Event, Logged};
use crate::text::{begins, texts};
use crate::tui::{ReviewContext, ReviewContextView};
use crate::ui::{add_note, note_views, Note, NoteView};
use crate::update::{check, check_asks, check_result, hint_text, upgrade_hint, Update, UpdateView};
use vstd::prelude::*;

verus! {

broadcast use group_runner;

/// Whether carrying a plan out costs money at AWS.
pub open spec fn uses_aws(a: AnswersView) -> bool {
    a.target == Some(Target::Cloud) || a.aoss_target()
}

/// Whether carrying a plan out costs money at AWS.
pub fn touches_aws(a: &Answers) -> (r: bool)
    ensures
        r == uses_aws(a@),
{
    a.target == Some(Target::Cloud) || a.provisions_aoss_target()
}

/// What is said of the identity that a plan is carried out with.
pub open spec fn identity_line(identity: Option<Seq<char>>) -> Seq<char> {
    match identity {
        Some(arn) => match account_in(arn) {
            Some(account) => "identity "@ + arn + "  (account "@ + account + ")"@,
            None => "identity "@ + arn,
        },
        None => "no valid AWS credentials (missing or expired)"@,
    }
}

/// What is said of AWS.
pub open spec fn aws_lines(a: AnswersView, identity: Option<Seq<char>>) -> Seq<Seq<char>> {
    seq![
        "AWS profile="@ + a.profile() + "  region="@ + a.region(),
        identity_line(identity),
    ]
}

/// What is asked to find all that out, given the answers so far: first for a newer release, unless
/// that is left out, and then for the identity, if the plan needs one.
pub open spec fn context_asks(a: AnswersView, quiet: bool, log: Seq<Event>) -> Seq<Ask> {
    check_asks(quiet, log) + if uses_aws(a) {
        seq![Ask::Run(identity_query(a.profile(), a.region()))]
    } else {
        seq![]
    }
}

/// The hint at a newer release.
pub open spec fn newer(quiet: bool, log: Seq<Event>, version: Seq<char>) -> Option<Seq<char>> {
    match check_result(quiet, log, version) {
        UpdateView::Available { latest } => Some(hint_text(latest, version)),
        _ => None,
    }
}

/// What is told, given the answers of the runner.
pub open spec fn context_of(
    a: AnswersView,
    version: Seq<char>,
    workspace: Seq<char>,
    quiet: bool,
    log: Seq<Event>,
) -> ReviewContextView {
    let identity = identity_in(log[check_asks(quiet, log).len() as int].output());
    ReviewContextView {
        version,
        workspace,
        aws: if uses_aws(a) {
            aws_lines(a, identity)
        } else {
            seq![]
        },
        aws_warning: uses_aws(a) && identity is None,
        update_hint: newer(quiet, log, version),
    }
}

fn identity_text(identity: &Option<String>) -> (r: String)
    ensures
        r@ == identity_line(
            match identity {
                Some(arn) => Some(arn@),
                None => None,
            },
        ),
{
    match identity {
        Some(arn) => {
            let line = "identity ".to_string().concat(arn.as_str());
            match account_of(arn.as_str()) {
                Some(account) => line.concat("  (account ").concat(account.as_str()).concat(")"),
                None => line,
            }
        },
        None => "no valid AWS credentials (missing or expired)".to_string(),
    }
}

/// Finds out what is told before a plan is carried out. Where `quiet` is set, no newer release is
/// asked for.
pub fn gather<R: CommandRunner>(
    runner: &mut Logged<R>,
    a: &Answers,
    version: &str,
    workspace: &str,
    quiet: bool,
) -> (r: ReviewContext)
    ensures
        grew(old(runner).events(), final(runner).events()),
        old(runner).leads_to(*final(runner)),
        ({
            let log = since(old(runner).events(), final(runner).events());
            &&& asks(log) == context_asks(a@, quiet, log)
            &&& r@ == context_of(a@, version@, workspace@, quiet, log)
        }),
{
    let ghost before = runner.events();
    let update_hint = match check(runner, version, quiet) {
        Update::Available { latest } => Some(upgrade_hint(latest.as_str(), version)),
        _ => None,
    };
    let ghost first = since(before, runner.events());
    let ghost n = check_asks(quiet, first).len();
    assert(asks(first).len() == first.len());
    let mut aws: Vec<String> = Vec::new();
    let mut aws_warning = false;
    let ghost middle = runner.events();
    assert(middle =~= before + first);
    if touches_aws(a) {
        let profile = a.effective_aws_profile();
        let region = a.effective_aws_region();
        let identity = caller_identity(runner, profile, region);
        proof {
            let e = runner.events().last();
            let log = first.push(e);
            lemma_since(before, log);
            assert(middle.push(e) =~= before + log);
            assert(asks(log) =~= asks(first).push(
                Ask::Run(identity_query(a@.profile(), a@.region())),
            ));
            assert(check_asks(quiet, log) =~= check_asks(quiet, first));
            assert(check_result(quiet, log, version@) == check_result(quiet, first, version@));
            assert(asks(log) =~= context_asks(a@, quiet, log));
            assert(log[n as int] == e);
        }
        aws_warning = identity.is_none();
        aws.push("AWS profile=".to_string().concat(profile).concat("  region=").concat(region));
        aws.push(identity_text(&identity));
        assert(texts(aws@) =~= aws_lines(
            a@,
            match identity {
                Some(arn) => Some(arn@),
                None => None,
            },
        ));
    } else {
        proof {
            lemma_since(before, first);
            assert(asks(first) =~= context_asks(a@, quiet, first));
            assert(texts(aws@) =~= seq![]);
        }
    }
    ReviewContext {
        version: version.to_string(),
        workspace: workspace.to_string(),
        aws,
        aws_warning,
        update_hint,
    }
}

/// The same in print: the lines on AWS, as a warning where there is no identity, and the hint.
pub open spec fn context_notes(c: ReviewContextView) -> Seq<NoteView> {
    c.aws.map_values(
        |l: Seq<char>|
            if c.aws_warning {
                NoteView::Warning(l)
            } else {
                NoteView::Dim("  "@ + l)
            },
    ) + match c.update_hint {
        Some(h) => seq![NoteView::Info(h)],
        None => seq![],
    }
}

/// What is told before a plan is carried out, in print.
pub fn print_context(c: &ReviewContext) -> (r: Vec<Note>)
    ensures
        note_views(r@) == context_notes(c@),
{
    let mut r: Vec<Note> = Vec::new();
    let ghost lines = c@.aws.map_values(
        |l: Seq<char>|
            if c@.aws_warning {
                NoteView::Warning(l)
            } else {
                NoteView::Dim("  "@ + l)
            },
    );
    assert(note_views(r@) =~= lines.take(0));
    assert(lines.len() == c.aws@.len());
    for i in 0..c.aws.len()
        invariant
            lines.len() == c.aws@.len(),
            forall|j: int|
                0 <= j < lines.len() ==> #[trigger] lines[j] == if c.aws_warning {
                    NoteView::Warning(c.aws@[j]@)
                } else {
                    NoteView::Dim("  "@ + c.aws@[j]@)
                },
            note_views(r@) == lines.take(i as int),
    {
        let n = if c.aws_warning {
            Note::Warning(c.aws[i].clone())
        } else {
            Note::Dim("  ".to_string().concat(c.aws[i].as_str()))
        };
        add_note(&mut r, n);
        assert(lines.take(i + 1) =~= lines.take(i as int).push(lines[i as int]));
    }
    assert(lines.take(lines.len() as int) =~= lines);
    if let Some(h) = &c.update_hint {
        add_note(&mut r, Note::Info(h.clone()));
    }
    assert(note_views(r@) =~= context_notes(c@));
    r
}

/// A plan that touches AWS is announced with the profile and the region that it goes to, and with a
/// warning where there is no identity; any other plan says nothing of AWS.
pub proof fn law_aws_is_announced(
    a: AnswersView,
    version: Seq<char>,
    workspace: Seq<char>,
    quiet: bool,
    log: Seq<Event>,
)
    ensures
        ({
            let c = context_of(a, version, workspace, quiet, log);
            &&& c.aws.len() > 0 <==> uses_aws(a)
            &&& c.aws_warning ==> uses_aws(a)
            &&& uses_aws(a) ==> c.aws[0] == "AWS profile="@ + a.profile() + "  region="@
                + a.region()
        }),
{
}

/// What is told above a review is what was found out: the version and the workspace of the run, who
/// the caller at AWS is with the account, or a warning that there are no credentials, and a newer
/// release where there is one.
pub proof fn law_the_review_is_told_what_was_found(
    a: AnswersView,
    version: Seq<char>,
    workspace: Seq<char>,
    quiet: bool,
    log: Seq<Event>,
)
    ensures
        ({
            let c = context_of(a, version, workspace, quiet, log);
            let identity = identity_in(log[check_asks(quiet, log).len() as int].output());
            let uses = a.target == Some(Target::Cloud) || (a.target_mode == Some(
                TargetMode::Provision,
            ) && a.target_kind == Some(TargetKind::AossServerlessNextGen));
            &&& c.version == version
            &&& c.workspace == workspace
            &&& c.aws.len() == if uses {
                2int
            } else {
                0
            }
            &&& uses && identity is Some ==> begins(c.aws[1], "identity "@ + identity->0)
                && !c.aws_warning
            &&& uses && identity is Some && account_in(identity->0) is Some ==> c.aws[1]
                == "identity "@ + identity->0 + "  (account "@ + account_in(identity->0)->0 + ")"@
            &&& uses && identity is None ==> c.aws_warning && c.aws[1]
                == "no valid AWS credentials (missing or expired)"@
            &&& !uses ==> !c.aws_warning
            &&& c.update_hint is Some <==> check_result(quiet, log, version) is Available
            &&& c.update_hint is Some ==> c.update_hint == Some(
                hint_text(check_result(quiet, log, version)->latest, version),
            )
            &&& context_asks(a, quiet, log).len() == check_asks(quiet, log).len() + if uses {
                1int
            } else {
                0
            }
            &&& uses ==> context_asks(a, quiet, log).last() == Ask::Run(
                identity_query(a.profile(), a.region()),
            )
        }),
{
    let identity = identity_in(log[check_asks(quiet, log).len() as int].output());
    if identity is Some {
        let front = "identity "@ + identity->0;
        lemma_begins(front, seq![]);
        assert(front + seq![] =~= front);
        if account_in(identity->0) is Some {
            let back = "  (account "@ + account_in(identity->0)->0 + ")"@;
            lemma_begins(front, back);
            assert(front + back =~= front + "  (account "@ + account_in(identity->0)->0 + ")"@);
        }
    }
}

/// What is told is printed line by line: as a warning where there are no credentials, and the hint
/// last.
pub proof fn law_the_context_is_printed_line_by_line(c: ReviewContextView, i: int)
    ensures
        context_notes(c).len() == c.aws.len() + if c.update_hint is Some {
            1int
        } else {
            0
        },
        0 <= i < c.aws.len() ==> context_notes(c)[i] == if c.aws_warning {
            NoteView::Warning(c.aws[i])
        } else {
            NoteView::Dim("  "@ + c.aws[i])
        },
        c.update_hint is Some ==> context_notes(c).last() == NoteView::Info(c.update_hint->0),
{
}

} // verus!
