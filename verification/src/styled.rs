//! Styled text: what a screen shows, before it is drawn.

use vstd::prelude::*;

verus! {

/// The colour of a text.
#[derive(Debug, Clone, Copy, PartialEq, Eq, Structural)]
pub enum Ink {
    /// The colour of the terminal.
    Plain,
    Green,
    Yellow,
    Red,
}

/// How a text is drawn.
#[derive(Debug, Clone, Copy, PartialEq, Eq, Structural)]
pub struct Style {
    pub ink: Ink,
    pub bold: bool,
    pub dim: bool,
    pub reversed: bool,
    pub on_blue: bool,
}

/// Nothing but the text.
pub open spec fn plain_style() -> Style {
    Style { ink: Ink::Plain, bold: false, dim: false, reversed: false, on_blue: false }
}

/// Bold.
pub open spec fn bold_style() -> Style {
    Style { bold: true, ..plain_style() }
}

/// Dim.
pub open spec fn dim_style() -> Style {
    Style { dim: true, ..plain_style() }
}

/// In a colour.
pub open spec fn ink_style(ink: Ink) -> Style {
    Style { ink, ..plain_style() }
}

impl Style {
    /// Nothing but the text.
    pub fn plain() -> (r: Style)
        ensures
            r == plain_style(),
    {
        Style { ink: Ink::Plain, bold: false, dim: false, reversed: false, on_blue: false }
    }

    /// Bold.
    pub fn bold() -> (r: Style)
        ensures
            r == bold_style(),
    {
        Style { ink: Ink::Plain, bold: true, dim: false, reversed: false, on_blue: false }
    }

    /// Dim.
    pub fn dim() -> (r: Style)
        ensures
            r == dim_style(),
    {
        Style { ink: Ink::Plain, bold: false, dim: true, reversed: false, on_blue: false }
    }

    /// In a colour.
    pub fn ink(ink: Ink) -> (r: Style)
        ensures
            r == ink_style(ink),
    {
        Style { ink, bold: false, dim: false, reversed: false, on_blue: false }
    }
}

/// A run of text in one style.
#[derive(Debug, Clone, PartialEq, Eq)]
pub struct Span {
    pub text: String,
    pub style: Style,
}

/// What a [`Span`] holds.
#[verifier::ext_equal]
pub struct SpanView {
    pub text: Seq<char>,
    pub style: Style,
}

impl View for Span {
    type V = SpanView;

    open spec fn view(&self) -> SpanView {
        SpanView { text: self.text@, style: self.style }
    }
}

/// A run of text in one style.
pub open spec fn span(text: Seq<char>, style: Style) -> SpanView {
    SpanView { text, style }
}

impl Span {
    /// A run of text in one style.
    pub fn new(text: &str, style: Style) -> (r: Self)
        ensures
            r@ == span(text@, style),
    {
        Span { text: text.to_string(), style }
    }
}

/// A line of a screen. A reversed line is drawn with its colours swapped.
#[derive(Debug, Clone, PartialEq, Eq)]
pub struct Line {
    pub spans: Vec<Span>,
    pub reversed: bool,
}

/// What a [`Line`] holds.
#[verifier::ext_equal]
pub struct LineView {
    pub spans: Seq<SpanView>,
    pub reversed: bool,
}

/// What each run of a line holds.
pub open spec fn span_views(v: Seq<Span>) -> Seq<SpanView> {
    v.map_values(|s: Span| s@)
}

impl View for Line {
    type V = LineView;

    open spec fn view(&self) -> LineView {
        LineView { spans: span_views(self.spans@), reversed: self.reversed }
    }
}

/// What each line of a screen holds.
pub open spec fn line_views(v: Seq<Line>) -> Seq<LineView> {
    v.map_values(|l: Line| l@)
}

/// A line of some runs.
pub open spec fn line(spans: Seq<SpanView>) -> LineView {
    LineView { spans, reversed: false }
}

impl Line {
    /// A line of one run.
    pub fn one(text: &str, style: Style) -> (r: Self)
        ensures
            r@ == line(seq![span(text@, style)]),
    {
        let r = Line { spans: vec![Span::new(text, style)], reversed: false };
        assert(r@ =~= line(seq![span(text@, style)]));
        r
    }

    /// A line of some runs.
    pub fn of(spans: Vec<Span>) -> (r: Self)
        ensures
            r@ == line(span_views(spans@)),
    {
        Line { spans, reversed: false }
    }
}

/// Adds a line to a screen.
pub fn add_line(v: &mut Vec<Line>, l: Line)
    ensures
        line_views(final(v)@) == line_views(old(v)@).push(l@),
{
    let ghost before = line_views(v@);
    v.push(l);
    assert(line_views(v@) =~= before.push(l@));
}

} // verus!
