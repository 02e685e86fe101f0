//! What is printed to a plain terminal, and what is read from one.

use crate::passages::group_contains;
use crate::text::{
    contains, decimal, digit, law_number_reads_back, lemma_decimal, lowered, parse_number, parsed,
    same_but_case, str_texts, trim, trimmed, white,
};
use vstd::prelude::*;

verus! {

/// Back to the terminal's own style.
pub const C_RESET: &'static str = "\x1b[0m";

pub const C_GREEN: &'static str = "\x1b[32m";

pub const C_YELLOW: &'static str = "\x1b[33m";

pub const C_RED: &'static str = "\x1b[31m";

pub const C_DIM: &'static str = "\x1b[2m";

pub const C_BOLD: &'static str = "\x1b[1m";

/// A banner.
pub fn fmt_banner(text: &str) -> (r: String)
    ensures
        r@ == C_BOLD@ + "=== "@ + text@ + " ==="@ + C_RESET@,
{
    C_BOLD.to_string().concat("=== ").concat(text).concat(" ===").concat(C_RESET)
}

/// A step.
pub fn fmt_step(text: &str) -> (r: String)
    ensures
        r@ == C_BOLD@ + "▶ "@ + text@ + C_RESET@,
{
    C_BOLD.to_string().concat("▶ ").concat(text).concat(C_RESET)
}

/// A success.
pub fn fmt_ok(text: &str) -> (r: String)
    ensures
        r@ == C_GREEN@ + "✔"@ + C_RESET@ + " "@ + text@,
{
    C_GREEN.to_string().concat("✔").concat(C_RESET).concat(" ").concat(text)
}

/// A warning.
pub fn fmt_warn(text: &str) -> (r: String)
    ensures
        r@ == C_YELLOW@ + "!"@ + C_RESET@ + " "@ + text@,
{
    C_YELLOW.to_string().concat("!").concat(C_RESET).concat(" ").concat(text)
}

/// An error.
pub fn fmt_err(text: &str) -> (r: String)
    ensures
        r@ == C_RED@ + "error:"@ + C_RESET@ + " "@ + text@,
{
    C_RED.to_string().concat("error:").concat(C_RESET).concat(" ").concat(text)
}

/// A side note.
pub fn fmt_dim(text: &str) -> (r: String)
    ensures
        r@ == C_DIM@ + text@ + C_RESET@,
{
    C_DIM.to_string().concat(text).concat(C_RESET)
}

/// What a prompt prints before it reads.
pub fn prompt_label(label: &str, default: &str) -> (r: String)
    ensures
        r@ == label@ + " ["@ + default@ + "]: "@,
{
    label.to_string().concat(" [").concat(default).concat("]: ")
}

/// What a prompt gives: the line that was read, without the white space round it; the default where
/// there is no line, or nothing on it.
pub open spec fn prompted(default: Seq<char>, line: Option<Seq<char>>) -> Seq<char> {
    match line {
        Some(l) => if trimmed(l).len() == 0 {
            default
        } else {
            trimmed(l)
        },
        None => default,
    }
}

/// What a line that was read, or the end of the input, stands for.
pub open spec fn read_view(line: Option<&str>) -> Option<Seq<char>> {
    match line {
        Some(l) => Some(l@),
        None => None,
    }
}

/// What a prompt gives. A run that is not interactive takes the default.
pub fn prompt(default: &str, non_interactive: bool, line: Option<&str>) -> (r: String)
    ensures
        r@ == if non_interactive {
            default@
        } else {
            prompted(default@, read_view(line))
        },
{
    if non_interactive {
        return default.to_string();
    }
    match line {
        Some(l) => {
            let t = trim(l);
            if t.unicode_len() == 0 {
                default.to_string()
            } else {
                t.to_string()
            }
        },
        None => default.to_string(),
    }
}

/// What a yes-or-no prompt prints before it reads.
pub fn confirm_label(label: &str, default_yes: bool) -> (r: String)
    ensures
        r@ == label@ + " ["@ + (if default_yes {
            "Y/n"@
        } else {
            "y/N"@
        }) + "]: "@,
{
    let hint = if default_yes {
        "Y/n"
    } else {
        "y/N"
    };
    label.to_string().concat(" [").concat(hint).concat("]: ")
}

/// What a yes-or-no prompt gives: what is neither yes nor no counts as the default.
pub open spec fn confirmed(default_yes: bool, line: Option<Seq<char>>) -> bool {
    match line {
        Some(l) => {
            let t = lowered(trimmed(l));
            if t == lowered("y"@) || t == lowered("yes"@) {
                true
            } else if t == lowered("n"@) || t == lowered("no"@) {
                false
            } else {
                default_yes
            }
        },
        None => default_yes,
    }
}

/// What a yes-or-no prompt gives. A run that is not interactive takes the default.
pub fn confirm(default_yes: bool, non_interactive: bool, line: Option<&str>) -> (r: bool)
    ensures
        r == if non_interactive {
            default_yes
        } else {
            confirmed(default_yes, read_view(line))
        },
{
    if non_interactive {
        return default_yes;
    }
    match line {
        Some(l) => {
            let t = trim(l);
            if same_but_case(t, "y") || same_but_case(t, "yes") {
                true
            } else if same_but_case(t, "n") || same_but_case(t, "no") {
                false
            } else {
                default_yes
            }
        },
        None => default_yes,
    }
}

/// The first place from `i` on where `t` stands, but for the case of letters.
pub open spec fn place_of(list: Seq<Seq<char>>, t: Seq<char>, i: int) -> Option<int>
    decreases list.len() - i,
{
    if i < 0 || i >= list.len() {
        None
    } else if lowered(list[i]) == lowered(t) {
        Some(i)
    } else {
        place_of(list, t, i + 1)
    }
}

/// The place that a pick stands for: a number counted from one, or an identifier, or a label.
pub open spec fn pick_place(
    pick: Seq<char>,
    ids: Seq<Seq<char>>,
    labels: Seq<Seq<char>>,
) -> Option<int> {
    let t = trimmed(pick);
    if parsed(t) is Some && 1 <= parsed(t)->0 <= ids.len() {
        Some(parsed(t)->0 - 1)
    } else if place_of(ids, t, 0) is Some {
        place_of(ids, t, 0)
    } else {
        place_of(labels, t, 0)
    }
}

fn find_place(list: &[&str], t: &str) -> (r: Option<usize>)
    ensures
        match r {
            Some(i) => place_of(str_texts(list@), t@, 0) == Some(i as int),
            None => place_of(str_texts(list@), t@, 0) is None,
        },
{
    for i in 0..list.len()
        invariant
            place_of(str_texts(list@), t@, 0) == place_of(str_texts(list@), t@, i as int),
    {
        assert(str_texts(list@)[i as int] == list@[i as int]@);
        if same_but_case(list[i], t) {
            return Some(i);
        }
    }
    None
}

/// The identifier that a pick stands for: a number counted from one, or an identifier, or a label,
/// in any case. A label must have an identifier at its place.
pub fn resolve_pick<'a>(pick: &str, ids: &[&'a str], labels: &[&str]) -> (r: Option<&'a str>)
    requires
        pick_place(pick@, str_texts(ids@), str_texts(labels@)) matches Some(i) ==> i < ids@.len(),
    ensures
        match pick_place(pick@, str_texts(ids@), str_texts(labels@)) {
            Some(i) => r is Some && r->0@ == ids@[i]@,
            None => r is None,
        },
{
    let t = trim(pick);
    assert(str_texts(ids@).len() == ids@.len());
    if let Some(n) = parse_number(t) {
        if n >= 1 && n <= ids.len() as u64 {
            return Some(ids[(n - 1) as usize]);
        }
    }
    if let Some(i) = find_place(ids, t) {
        proof {
            lemma_place_of(str_texts(ids@), t@, 0);
        }
        return Some(ids[i]);
    }
    if let Some(i) = find_place(labels, t) {
        return Some(ids[i]);
    }
    None
}

proof fn lemma_place_of(list: Seq<Seq<char>>, t: Seq<char>, from: int)
    requires
        0 <= from <= list.len(),
    ensures
        place_of(list, t, from) matches Some(i) ==> from <= i < list.len() && lowered(list[i])
            == lowered(t),
    decreases list.len() - from,
{
    if from < list.len() && lowered(list[from]) != lowered(t) {
        lemma_place_of(list, t, from + 1);
    }
}

/// With a label for every identifier a pick always finds its identifier, or none.
pub proof fn law_picks_stay_in_range(pick: Seq<char>, ids: Seq<Seq<char>>, labels: Seq<Seq<char>>)
    requires
        labels.len() <= ids.len(),
    ensures
        pick_place(pick, ids, labels) matches Some(i) ==> 0 <= i < ids.len(),
{
    lemma_place_of(ids, trimmed(pick), 0);
    lemma_place_of(labels, trimmed(pick), 0);
}

// ---------------------------------------------------------------------------
// Notes
// ---------------------------------------------------------------------------

/// Something to print.
#[derive(Debug, Clone, PartialEq, Eq)]
pub enum Note {
    Banner(String),
    Step(String),
    Success(String),
    Info(String),
    Dim(String),
    Warning(String),
    Failure(String),
    /// Text that is printed as it is, with no newline after it.
    Raw(String),
}

/// What a [`Note`] holds.
#[verifier::ext_equal]
pub enum NoteView {
    Banner(Seq<char>),
    Step(Seq<char>),
    Success(Seq<char>),
    Info(Seq<char>),
    Dim(Seq<char>),
    Warning(Seq<char>),
    Failure(Seq<char>),
    Raw(Seq<char>),
}

impl View for Note {
    type V = NoteView;

    open spec fn view(&self) -> NoteView {
        match self {
            Note::Banner(t) => NoteView::Banner(t@),
            Note::Step(t) => NoteView::Step(t@),
            Note::Success(t) => NoteView::Success(t@),
            Note::Info(t) => NoteView::Info(t@),
            Note::Dim(t) => NoteView::Dim(t@),
            Note::Warning(t) => NoteView::Warning(t@),
            Note::Failure(t) => NoteView::Failure(t@),
            Note::Raw(t) => NoteView::Raw(t@),
        }
    }
}

/// What each note of a list holds.
pub open spec fn note_views(v: Seq<Note>) -> Seq<NoteView> {
    v.map_values(|n: Note| n@)
}

impl NoteView {
    /// The note as it is printed.
    pub open spec fn printed(self) -> Seq<char> {
        match self {
            NoteView::Banner(t) => C_BOLD@ + "=== "@ + t + " ==="@ + C_RESET@ + "\n"@,
            NoteView::Step(t) => C_BOLD@ + "▶ "@ + t + C_RESET@ + "\n"@,
            NoteView::Success(t) => C_GREEN@ + "✔"@ + C_RESET@ + " "@ + t + "\n"@,
            NoteView::Info(t) => t + "\n"@,
            NoteView::Dim(t) => C_DIM@ + t + C_RESET@ + "\n"@,
            NoteView::Warning(t) => C_YELLOW@ + "!"@ + C_RESET@ + " "@ + t + "\n"@,
            NoteView::Failure(t) => C_RED@ + "error:"@ + C_RESET@ + " "@ + t + "\n"@,
            NoteView::Raw(t) => t,
        }
    }
}

impl Note {
    /// The note as it is printed.
    pub fn render(&self) -> (r: String)
        ensures
            r@ == self@.printed(),
    {
        match self {
            Note::Banner(t) => fmt_banner(t.as_str()).concat("\n"),
            Note::Step(t) => fmt_step(t.as_str()).concat("\n"),
            Note::Success(t) => fmt_ok(t.as_str()).concat("\n"),
            Note::Info(t) => t.clone().concat("\n"),
            Note::Dim(t) => fmt_dim(t.as_str()).concat("\n"),
            Note::Warning(t) => fmt_warn(t.as_str()).concat("\n"),
            Note::Failure(t) => fmt_err(t.as_str()).concat("\n"),
            Note::Raw(t) => t.clone(),
        }
    }

    /// Whether the note goes to the error stream: warnings and errors do.
    pub fn is_error(&self) -> (r: bool)
        ensures
            r == (self@ is Warning || self@ is Failure),
    {
        matches!(self, Note::Warning(_) | Note::Failure(_))
    }
}

/// Adds a note to a list.
pub fn add_note(v: &mut Vec<Note>, n: Note)
    ensures
        note_views(final(v)@) == note_views(old(v)@).push(n@),
{
    let ghost before = note_views(v@);
    v.push(n);
    assert(note_views(v@) =~= before.push(n@));
}

/// What is typed counts, without the white space around it; nothing typed is the default.
pub proof fn law_what_is_typed_counts(default: Seq<char>, typed: Seq<char>, line: Option<Seq<char>>)
    requires
        typed.len() > 0,
        !white(typed.first()),
        !white(typed.last()),
    ensures
        prompted(default, Some(typed)) == typed,
        prompted(default, Some(typed + seq!['\n'])) == typed,
        prompted(default, Some(Seq::empty())) == default,
        prompted(default, Some(seq!['\n'])) == default,
        prompted(default, None) == default,
{
    let t = typed + seq!['\n'];
    assert(t.drop_last() =~= typed);
    assert(t.first() == typed.first() && t.last() == '\n');
    reveal_with_fuel(trimmed, 3);
    assert(seq!['\n'].drop_first() =~= Seq::<char>::empty());
}

/// Yes and no are taken in either length and case; anything else is the default.
pub proof fn law_yes_is_yes_and_no_is_no(default_yes: bool, line: Seq<char>)
    ensures
        lowered(trimmed(line)) == "y"@ || lowered(trimmed(line)) == "yes"@ ==> confirmed(
            default_yes,
            Some(line),
        ),
        lowered(trimmed(line)) == "n"@ || lowered(trimmed(line)) == "no"@ ==> !confirmed(
            default_yes,
            Some(line),
        ),
        lowered(trimmed(line)) != "y"@ && lowered(trimmed(line)) != "yes"@ && lowered(trimmed(line))
            != "n"@ && lowered(trimmed(line)) != "no"@ ==> confirmed(default_yes, Some(line))
            == default_yes,
        confirmed(default_yes, None) == default_yes,
{
    reveal_strlit("y");
    reveal_strlit("yes");
    reveal_strlit("n");
    reveal_strlit("no");
    assert(lowered("y"@) =~= "y"@ && lowered("yes"@) =~= "yes"@);
    assert(lowered("n"@) =~= "n"@ && lowered("no"@) =~= "no"@);
    assert("y"@.len() == 1 && "yes"@.len() == 3 && "n"@.len() == 1 && "no"@.len() == 2);
    assert("y"@[0] == 'y' && "n"@[0] == 'n');
}

/// A pick by number counts from one; a pick by identifier finds the first identifier that matches it
/// in any case.
pub proof fn law_what_a_pick_finds(
    n: u64,
    pick: Seq<char>,
    ids: Seq<Seq<char>>,
    labels: Seq<Seq<char>>,
    i: int,
)
    ensures
        1 <= n <= ids.len() ==> pick_place(decimal(n as nat), ids, labels) == Some(n - 1),
        parsed(trimmed(pick)) is None && 0 <= i < ids.len() && lowered(ids[i]) == lowered(
            trimmed(pick),
        ) && (forall|j: int| 0 <= j < i ==> lowered(#[trigger] ids[j]) != lowered(trimmed(pick)))
            ==> pick_place(pick, ids, labels) == Some(i),
        parsed(trimmed(pick)) is None && (forall|j: int|
            0 <= j < ids.len() ==> lowered(#[trigger] ids[j]) != lowered(trimmed(pick))) && (forall|
            j: int,
        |
            0 <= j < labels.len() ==> lowered(#[trigger] labels[j]) != lowered(trimmed(pick)))
            ==> pick_place(pick, ids, labels) is None,
{
    let d = decimal(n as nat);
    lemma_decimal(n as nat);
    assert(digit(d[0]) && digit(d[d.len() - 1]));
    assert(trimmed(d) == d);
    law_number_reads_back(n);
    let t = trimmed(pick);
    lemma_first_place(ids, t, 0);
    lemma_first_place(labels, t, 0);
}

proof fn lemma_first_place(list: Seq<Seq<char>>, t: Seq<char>, from: int)
    requires
        0 <= from <= list.len(),
    ensures
        match place_of(list, t, from) {
            Some(i) => from <= i < list.len() && lowered(list[i]) == lowered(t) && forall|j: int|
                from <= j < i ==> lowered(#[trigger] list[j]) != lowered(t),
            None => forall|j: int|
                from <= j < list.len() ==> lowered(#[trigger] list[j]) != lowered(t),
        },
    decreases list.len() - from,
{
    if from < list.len() && lowered(list[from]) != lowered(t) {
        lemma_first_place(list, t, from + 1);
    }
}

/// What is noted is printed: every note holds its text, and ends its line but for text that is printed
/// as it is.
pub proof fn law_a_note_is_printed_with_its_text(n: NoteView, t: Seq<char>)
    requires
        n == NoteView::Banner(t) || n == NoteView::Step(t) || n == NoteView::Success(t) || n
            == NoteView::Info(t) || n == NoteView::Dim(t) || n == NoteView::Warning(t) || n
            == NoteView::Failure(t) || n == NoteView::Raw(t),
    ensures
        contains(n.printed(), t),
        n is Raw ==> n.printed() == t,
        !(n is Raw) ==> n.printed().len() > 0 && n.printed().last() == '\n',
        n is Failure ==> contains(n.printed(), "error:"@),
{
    broadcast use group_contains;

    reveal_strlit("\n");
}

} // verus!
