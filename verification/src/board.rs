//! What the dashboard shows of a snapshot.

use crate::dashboard::{row_views, Health, Row, RowView, Snapshot, SnapshotView};
use crate::manifests::SEED_INDICES;
use crate::model::{Answers, AnswersView, Target};
use crate::styled::{
    add_line, bold_style, dim_style, ink_style, line, line_views, plain_style, span, Ink, Line,
    LineView, Span, Style,
};
use crate::text::{pad, padded};
use vstd::prelude::*;
use vstd::utf8::{
    decode_utf8, encode_utf8, encode_utf8_decode_utf8, encode_utf8_valid_utf8, is_ascii_chars,
    is_ascii_chars_encode_utf8, is_char_boundary, is_char_boundary_iff_not_is_continuation_byte,
};

verus! {

/// Whether a text is short enough for `max` bytes, or can be cut before its last byte of them.
pub open spec fn fits_in(s: Seq<char>, max: int) -> bool {
    encode_utf8(s).len() <= max || (max >= 1 && is_char_boundary(encode_utf8(s), max - 1))
}

/// `s` cut to `max` bytes: where it is longer, its last byte gives way to an ellipsis.
pub open spec fn cut(s: Seq<char>, max: int) -> Seq<char> {
    if encode_utf8(s).len() <= max {
        s
    } else {
        decode_utf8(encode_utf8(s).take(max - 1)) + "…"@
    }
}

/// Whether [`truncate`] can cut `s` to `max` bytes: not where that would divide a character.
pub fn fits(s: &str, max: usize) -> (r: bool)
    ensures
        r == fits_in(s@, max as int),
{
    let n: usize = s.as_bytes().len();
    n <= max || (max >= 1 && s.is_char_boundary(max - 1))
}

/// `s` cut to `max` bytes.
pub fn truncate(s: &str, max: usize) -> (r: String)
    requires
        fits_in(s@, max as int),
    ensures
        r@ == cut(s@, max as int),
{
    let n: usize = s.as_bytes().len();
    if n <= max {
        s.to_string()
    } else {
        let (head, _) = s.split_at(max - 1);
        proof {
            encode_utf8_decode_utf8(head@);
            assert(encode_utf8(s@).subrange(0, max - 1) =~= encode_utf8(s@).take(max - 1));
        }
        head.to_string().concat("…")
    }
}

/// Plain ASCII can always be cut, and is cut by characters.
pub proof fn law_ascii_is_cut_by_characters(s: Seq<char>, max: int)
    requires
        is_ascii_chars(s),
        max >= 1,
    ensures
        fits_in(s, max),
        cut(s, max) == if s.len() <= max {
            s
        } else {
            s.take(max - 1) + "…"@
        },
{
    is_ascii_chars_encode_utf8(s);
    if s.len() > max {
        let head = s.take(max - 1);
        assert(is_ascii_chars(head));
        is_ascii_chars_encode_utf8(head);
        assert(encode_utf8(s).take(max - 1) =~= encode_utf8(head));
        encode_utf8_decode_utf8(head);
        encode_utf8_valid_utf8(s);
        is_char_boundary_iff_not_is_continuation_byte(encode_utf8(s), max - 1);
        assert(encode_utf8(s)[max - 1] == s[max - 1] as u8);
        assert(encode_utf8(s)[max - 1] < 128);
    }
}

/// The width of a label.
pub const LABEL_WIDTH: usize = 22;

/// The style of a sign.
pub open spec fn health_style(h: Health) -> Style {
    match h {
        Health::Up => ink_style(Ink::Green),
        Health::Pending => ink_style(Ink::Yellow),
        Health::Down => ink_style(Ink::Red),
        Health::NotApplicable => dim_style(),
    }
}

/// The line of a row.
pub open spec fn row_line(r: RowView) -> LineView {
    line(
        seq![
            span(" "@ + r.health.glyph_text() + " "@, health_style(r.health)),
            span(padded(cut(r.label, LABEL_WIDTH as int), LABEL_WIDTH as nat), plain_style()),
            span(r.detail, dim_style()),
        ],
    )
}

/// The lines of a panel.
pub open spec fn panel_lines_of(rows: Seq<RowView>) -> Seq<LineView> {
    if rows.len() == 0 {
        seq![line(seq![span("  (none)"@, dim_style())])]
    } else {
        rows.map_values(|r: RowView| row_line(r))
    }
}

/// Whether the labels of rows can be shown.
pub open spec fn showable(rows: Seq<RowView>) -> bool {
    forall|i: int| 0 <= i < rows.len() ==> fits_in((#[trigger] rows[i]).label, LABEL_WIDTH as int)
}

/// Whether the labels of rows can be shown.
pub fn can_show(rows: &Vec<Row>) -> (r: bool)
    ensures
        r == showable(row_views(rows@)),
{
    for i in 0..rows.len()
        invariant
            forall|j: int|
                0 <= j < i ==> fits_in((#[trigger] row_views(rows@)[j]).label, LABEL_WIDTH as int),
    {
        assert(row_views(rows@)[i as int] == rows@[i as int]@);
        if !fits(rows[i].label.as_str(), LABEL_WIDTH) {
            return false;
        }
    }
    true
}

fn panel_lines(rows: &Vec<Row>) -> (r: Vec<Line>)
    requires
        showable(row_views(rows@)),
    ensures
        line_views(r@) == panel_lines_of(row_views(rows@)),
{
    let mut r: Vec<Line> = Vec::new();
    if rows.len() == 0 {
        add_line(&mut r, Line::one("  (none)", Style::dim()));
        assert(line_views(r@) =~= panel_lines_of(row_views(rows@)));
        return r;
    }
    let ghost want = row_views(rows@).map_values(|x: RowView| row_line(x));
    assert(line_views(r@) =~= want.take(0));
    for i in 0..rows.len()
        invariant
            showable(row_views(rows@)),
            want == row_views(rows@).map_values(|x: RowView| row_line(x)),
            line_views(r@) == want.take(i as int),
    {
        let x = &rows[i];
        assert(row_views(rows@)[i as int] == x@);
        let style = match x.health {
            Health::Up => Style::ink(Ink::Green),
            Health::Pending => Style::ink(Ink::Yellow),
            Health::Down => Style::ink(Ink::Red),
            Health::NotApplicable => Style::dim(),
        };
        let glyph = " ".to_string().concat(x.health.glyph()).concat(" ");
        let label = pad(truncate(x.label.as_str(), LABEL_WIDTH).as_str(), LABEL_WIDTH);
        let l = Line::of(
            vec![
                Span::new(glyph.as_str(), style),
                Span::new(label.as_str(), Style::plain()),
                Span::new(x.detail.as_str(), Style::dim()),
            ],
        );
        assert(l@ =~= row_line(x@));
        add_line(&mut r, l);
        assert(want.take(i + 1) =~= want.take(i as int).push(want[i as int]));
    }
    assert(want.take(want.len() as int) =~= want);
    r
}

/// How much room a panel is given.
#[derive(Debug, Clone, Copy, PartialEq, Eq, Structural)]
pub enum Extent {
    /// So many lines.
    Lines(u16),
    /// So many lines or more.
    AtLeast(u16),
    /// A share of the room.
    Percent(u16),
}

/// A panel of the dashboard.
#[derive(Debug, Clone, PartialEq, Eq)]
pub struct Panel {
    pub title: String,
    pub extent: Extent,
    pub lines: Vec<Line>,
}

/// What a [`Panel`] holds.
#[verifier::ext_equal]
pub struct PanelView {
    pub title: Seq<char>,
    pub extent: Extent,
    pub lines: Seq<LineView>,
}

impl View for Panel {
    type V = PanelView;

    open spec fn view(&self) -> PanelView {
        PanelView { title: self.title@, extent: self.extent, lines: line_views(self.lines@) }
    }
}

/// A panel of rows.
pub open spec fn panel_of(title: Seq<char>, extent: Extent, rows: Seq<RowView>) -> PanelView {
    PanelView { title, extent, lines: panel_lines_of(rows) }
}

/// What each panel of a column holds.
pub open spec fn panel_views(v: Seq<Panel>) -> Seq<PanelView> {
    v.map_values(|p: Panel| p@)
}

fn panel(title: &str, extent: Extent, rows: &Vec<Row>) -> (r: Panel)
    requires
        showable(row_views(rows@)),
    ensures
        r@ == panel_of(title@, extent, row_views(rows@)),
{
    Panel { title: title.to_string(), extent, lines: panel_lines(rows) }
}

/// Everything the dashboard shows: a header, two columns of panels, and a hint.
#[derive(Debug, Clone, PartialEq, Eq)]
pub struct Board {
    pub header: Vec<Line>,
    pub left: Vec<Panel>,
    pub right: Vec<Panel>,
    pub hint: String,
}

/// What a [`Board`] holds.
#[verifier::ext_equal]
pub struct BoardView {
    pub header: Seq<LineView>,
    pub left: Seq<PanelView>,
    pub right: Seq<PanelView>,
    pub hint: Seq<char>,
}

impl View for Board {
    type V = BoardView;

    open spec fn view(&self) -> BoardView {
        BoardView {
            header: line_views(self.header@),
            left: panel_views(self.left@),
            right: panel_views(self.right@),
            hint: self.hint@,
        }
    }
}

/// The lines that the header takes, with its border.
pub const HEADER_LINES: u16 = 4;

/// The lines that the panels take at least.
pub const BODY_LINES: u16 = 6;

/// The share of the left column.
pub const LEFT_PERCENT: u16 = 55;

/// The share of the right column.
pub const RIGHT_PERCENT: u16 = 45;

/// The signs that turn in the header.
pub const SPINNER: [&'static str; 10] = ["⠋", "⠙", "⠹", "⠸", "⠼", "⠴", "⠦", "⠧", "⠇", "⠏"];

/// The keys that the dashboard knows.
pub const BOARD_HINT: &'static str = "live · refreshing every 2s · press q or Esc to exit";

/// The header: a title with a turning sign, and the plan and what is up.
pub open spec fn header_of(s: SnapshotView, a: AnswersView) -> Seq<LineView> {
    seq![
        line(
            seq![
                span(
                    " "@ + SPINNER@[(s.frame % 10) as int]@ + " "@,
                    Style { on_blue: true, ..bold_style() },
                ),
                span(" Migration Assistant — Demo Environment "@, bold_style()),
            ],
        ),
        line(
            seq![
                span("  "@, plain_style()),
                span(a.summary_text(), dim_style()),
                span("   "@, plain_style()),
                span(s.summary_text(), ink_style(Ink::Green)),
            ],
        ),
    ]
}

/// How many lines a panel of `n` rows takes with its border.
pub open spec fn panel_height(n: nat) -> nat {
    n % 0x1_0000 + 2
}

/// What can be shown: the counts and the height of the first panel fit, and every label can be cut.
pub open spec fn presentable(s: SnapshotView) -> bool {
    &&& s.countable()
    &&& panel_height(s.clusters.len()) <= u16::MAX
    &&& showable(s.clusters)
    &&& showable(s.source_pods)
    &&& showable(s.indices)
    &&& showable(s.target)
    &&& showable(s.ma)
}

/// What the dashboard shows. An environment in the cloud has no clusters and no indices to show.
pub open spec fn board_of(s: SnapshotView, a: AnswersView) -> BoardView {
    let top = Extent::Lines(panel_height(s.clusters.len()) as u16);
    BoardView {
        header: header_of(s, a),
        left: if a.target == Some(Target::Cloud) {
            seq![
                panel_of(" AWS "@, top, s.clusters),
                panel_of(" AWS resources "@, Extent::AtLeast(4), s.source_pods),
            ]
        } else {
            seq![
                panel_of(" KIND clusters "@, top, s.clusters),
                panel_of(" Source workloads "@, Extent::AtLeast(4), s.source_pods),
                panel_of(" Seeded indices "@, Extent::Lines(5), s.indices),
            ]
        },
        right: seq![
            panel_of(" Target "@, Extent::Percent(50), s.target),
            panel_of(" Migration Assistant "@, Extent::Percent(50), s.ma),
        ],
        hint: BOARD_HINT@,
    }
}

impl Snapshot {
    /// Whether the snapshot can be shown.
    pub fn presentable(&self) -> (r: bool)
        ensures
            r == presentable(self@),
    {
        self.countable() && self.clusters.len() % 0x1_0000 <= 0xfffd && can_show(&self.clusters)
            && can_show(&self.source_pods) && can_show(&self.indices) && can_show(&self.target)
            && can_show(&self.ma)
    }
}

fn board_header(snap: &Snapshot, answers: &Answers) -> (r: Vec<Line>)
    requires
        snap@.countable(),
    ensures
        line_views(r@) == header_of(snap@, answers@),
{
    let sign = " ".to_string().concat(SPINNER[(snap.frame % 10) as usize]).concat(" ");
    let blue = Style { ink: Ink::Plain, bold: true, dim: false, reversed: false, on_blue: true };
    let first = Line::of(
        vec![
            Span::new(sign.as_str(), blue),
            Span::new(" Migration Assistant — Demo Environment ", Style::bold()),
        ],
    );
    let plan = answers.summary();
    let state = snap.summary();
    let second = Line::of(
        vec![
            Span::new("  ", Style::plain()),
            Span::new(plan.as_str(), Style::dim()),
            Span::new("   ", Style::plain()),
            Span::new(state.as_str(), Style::ink(Ink::Green)),
        ],
    );
    let ghost want = header_of(snap@, answers@);
    assert(first@ =~= want[0]);
    assert(second@ =~= want[1]);
    let mut r: Vec<Line> = Vec::new();
    add_line(&mut r, first);
    add_line(&mut r, second);
    assert(line_views(r@) =~= want);
    r
}

/// What the dashboard shows of a snapshot.
pub fn board(snap: &Snapshot, answers: &Answers) -> (r: Board)
    requires
        presentable(snap@),
    ensures
        r@ == board_of(snap@, answers@),
{
    let header = board_header(snap, answers);
    let n: usize = snap.clusters.len() % 0x1_0000;
    let top = Extent::Lines(n as u16 + 2);
    let left = if answers.target == Some(Target::Cloud) {
        vec![
            panel(" AWS ", top, &snap.clusters),
            panel(" AWS resources ", Extent::AtLeast(4), &snap.source_pods),
        ]
    } else {
        vec![
            panel(" KIND clusters ", top, &snap.clusters),
            panel(" Source workloads ", Extent::AtLeast(4), &snap.source_pods),
            panel(" Seeded indices ", Extent::Lines(SEED_INDICES.len() as u16 + 2), &snap.indices),
        ]
    };
    let right = vec![
        panel(" Target ", Extent::Percent(50), &snap.target),
        panel(" Migration Assistant ", Extent::Percent(50), &snap.ma),
    ];
    let r = Board { header, left, right, hint: BOARD_HINT.to_string() };
    assert(r@.left =~= board_of(snap@, answers@).left);
    assert(r@.right =~= board_of(snap@, answers@).right);
    assert(r@ =~= board_of(snap@, answers@));
    r
}

/// The sign in the header turns with every drawing, and comes round after ten.
pub proof fn law_the_spinner_turns(i: int, j: int)
    requires
        0 <= i < j < 10,
    ensures
        SPINNER@[i]@ != SPINNER@[j]@,
{
    reveal_strlit("⠋");
    reveal_strlit("⠙");
    reveal_strlit("⠹");
    reveal_strlit("⠸");
    reveal_strlit("⠼");
    reveal_strlit("⠴");
    reveal_strlit("⠦");
    reveal_strlit("⠧");
    reveal_strlit("⠇");
    reveal_strlit("⠏");
    assert(SPINNER@[i]@[0] != SPINNER@[j]@[0]);
}

/// A row of the dashboard shows its sign, its label and its detail, in the colour of its health.
pub proof fn law_a_row_is_drawn_by_its_health(r: RowView)
    ensures
        row_line(r).spans.len() == 3,
        row_line(r).spans[2].text == r.detail,
        row_line(r).spans[0].text == " "@ + (match r.health {
            Health::Up => "●"@,
            Health::Pending => "◐"@,
            Health::Down => "○"@,
            Health::NotApplicable => "·"@,
        }) + " "@,
        row_line(r).spans[0].style.ink == (match r.health {
            Health::Up => Ink::Green,
            Health::Pending => Ink::Yellow,
            Health::Down => Ink::Red,
            Health::NotApplicable => Ink::Plain,
        }),
{
}

/// The board shows everything that was found, each under its own title: on the left the clusters, what
/// runs in the source and its indices, or the account and the resources of an environment in the
/// cloud; on the right the target and the Migration Assistant.
pub proof fn law_the_board_shows_everything(s: SnapshotView, a: AnswersView)
    ensures
        ({
            let b = board_of(s, a);
            let cloud = a.target == Some(Target::Cloud);
            &&& b.left[0].lines == panel_lines_of(s.clusters)
            &&& b.left[1].lines == panel_lines_of(s.source_pods)
            &&& b.left[0].title == if cloud {
                " AWS "@
            } else {
                " KIND clusters "@
            }
            &&& b.left[1].title == if cloud {
                " AWS resources "@
            } else {
                " Source workloads "@
            }
            &&& b.left.len() == if cloud {
                2int
            } else {
                3
            }
            &&& !cloud ==> b.left[2].title == " Seeded indices "@ && b.left[2].lines
                == panel_lines_of(s.indices)
            &&& b.right.len() == 2
            &&& b.right[0].title == " Target "@ && b.right[0].lines == panel_lines_of(s.target)
            &&& b.right[1].title == " Migration Assistant "@ && b.right[1].lines
                == panel_lines_of(s.ma)
            &&& b.header[1].spans[1].text == a.summary_text()
            &&& b.header[1].spans[3].text == s.summary_text()
        }),
{
}

/// A panel has a line for each of its rows, in order, and says so where there is none.
pub proof fn law_a_panel_has_a_line_for_each_row(rows: Seq<RowView>, i: int)
    ensures
        rows.len() > 0 ==> panel_lines_of(rows).len() == rows.len(),
        0 <= i < rows.len() ==> panel_lines_of(rows)[i] == row_line(rows[i]),
        rows.len() == 0 ==> panel_lines_of(rows).len() == 1 && panel_lines_of(rows)[0].spans[0].text
            == "  (none)"@,
{
}

} // verus!
