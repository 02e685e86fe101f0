//! The timeline of a run.

use crate::state::Step;
use crate::styled::{
    add_line, bold_style, dim_style, ink_style, line, line_views, span, Ink, Line, LineView, Span,
    Style,
};
use vstd::prelude::*;

verus! {

/// Where a phase stands.
#[derive(Debug, Clone, Copy, PartialEq, Eq, Structural)]
pub enum PhaseStatus {
    Done,
    Current,
    Pending,
}

impl PhaseStatus {
    /// The sign for it.
    pub open spec fn sign(self) -> char {
        match self {
            PhaseStatus::Done => '●',
            PhaseStatus::Current => '◐',
            PhaseStatus::Pending => '○',
        }
    }

    /// The sign for it.
    pub fn marker(self) -> (r: char)
        ensures
            r == self.sign(),
    {
        match self {
            PhaseStatus::Done => '●',
            PhaseStatus::Current => '◐',
            PhaseStatus::Pending => '○',
        }
    }
}

/// One phase of the timeline.
#[derive(Debug, Clone, Copy, PartialEq, Eq)]
pub struct Row {
    pub label: &'static str,
    pub status: PhaseStatus,
}

/// What a [`Row`] holds.
#[verifier::ext_equal]
pub struct RowView {
    pub label: Seq<char>,
    pub status: PhaseStatus,
}

impl View for Row {
    type V = RowView;

    open spec fn view(&self) -> RowView {
        RowView { label: self.label@, status: self.status }
    }
}

/// What each phase of a timeline holds.
pub open spec fn row_views(v: Seq<Row>) -> Seq<RowView> {
    v.map_values(|r: Row| r@)
}

/// Where the phase at place `i` stands while the one at place `now` is reached.
pub open spec fn status_at(i: int, now: int) -> PhaseStatus {
    if i < now {
        PhaseStatus::Done
    } else if i == now {
        PhaseStatus::Current
    } else {
        PhaseStatus::Pending
    }
}

/// The timeline while `current` is reached.
pub open spec fn timeline(current: Step) -> Seq<RowView> {
    Seq::new(
        Step::ORDER@.len(),
        |i: int|
            RowView {
                label: Step::ORDER@[i].label_text(),
                status: status_at(i, current.place()),
            },
    )
}

/// The timeline while `current` is reached: the phases before it are done, those after it are
/// pending.
pub fn rows(current: Step) -> (r: Vec<Row>)
    ensures
        row_views(r@) == timeline(current),
{
    let now: usize = current.index();
    let mut r: Vec<Row> = Vec::new();
    for i in 0..Step::ORDER.len()
        invariant
            now == current.place(),
            r@.len() == i,
            forall|j: int|
                0 <= j < i ==> (#[trigger] r@[j])@.label == Step::ORDER@[j].label_text()
                    && r@[j].status == status_at(j, now as int),
    {
        let status = if i < now {
            PhaseStatus::Done
        } else if i == now {
            PhaseStatus::Current
        } else {
            PhaseStatus::Pending
        };
        r.push(Row { label: Step::ORDER[i].label(), status });
    }
    assert(row_views(r@) =~= timeline(current));
    r
}

/// The line of a phase.
pub open spec fn phase_line(r: RowView) -> LineView {
    let (sign, mark, text) = match r.status {
        PhaseStatus::Done => ("  ● "@, ink_style(Ink::Green), dim_style()),
        PhaseStatus::Current => ("  ◐ "@, ink_style(Ink::Yellow), bold_style()),
        PhaseStatus::Pending => ("  ○ "@, dim_style(), dim_style()),
    };
    line(seq![span(sign, mark), span(r.label, text)])
}

/// The lines of the timeline.
pub fn timeline_lines(current: Step) -> (r: Vec<Line>)
    ensures
        line_views(r@) == timeline(current).map_values(|x: RowView| phase_line(x)),
{
    let phases = rows(current);
    let ghost want = timeline(current).map_values(|x: RowView| phase_line(x));
    let mut r: Vec<Line> = Vec::new();
    assert(line_views(r@) =~= want.take(0));
    assert(row_views(phases@).len() == phases@.len());
    for i in 0..phases.len()
        invariant
            row_views(phases@) == timeline(current),
            row_views(phases@).len() == phases@.len(),
            want == timeline(current).map_values(|x: RowView| phase_line(x)),
            line_views(r@) == want.take(i as int),
    {
        let p = phases[i];
        assert(row_views(phases@)[i as int] == p@);
        let (sign, mark, text) = match p.status {
            PhaseStatus::Done => ("  ● ", Style::ink(Ink::Green), Style::dim()),
            PhaseStatus::Current => ("  ◐ ", Style::ink(Ink::Yellow), Style::bold()),
            PhaseStatus::Pending => ("  ○ ", Style::dim(), Style::dim()),
        };
        let l = Line::of(vec![Span::new(sign, mark), Span::new(p.label, text)]);
        assert(l@ =~= phase_line(p@));
        add_line(&mut r, l);
        assert(want.take(i + 1) =~= want.take(i as int).push(want[i as int]));
    }
    assert(want.take(want.len() as int) =~= want);
    r
}

/// Exactly one phase is current; the first step has nothing done, the last nothing pending.
pub proof fn law_one_phase_is_current(current: Step, i: int)
    requires
        0 <= i < 8,
    ensures
        timeline(current).len() == 8,
        timeline(current)[i].status == PhaseStatus::Current <==> Step::ORDER@[i] == current,
        current == Step::Planned ==> timeline(current)[i].status != PhaseStatus::Done,
        current == Step::Ready ==> timeline(current)[i].status != PhaseStatus::Pending,
{
}

/// Reaching a later step never undoes a phase.
pub proof fn law_phases_stay_done(a: Step, b: Step, i: int)
    requires
        0 <= i < 8,
        a.place() <= b.place(),
        timeline(a)[i].status == PhaseStatus::Done,
    ensures
        timeline(b)[i].status == PhaseStatus::Done,
{
}

/// The timeline has one phase for each step, in the order of the steps and under their labels; what
/// comes before the step that is reached is done, and what comes after it is pending.
pub proof fn law_the_timeline_follows_the_steps(current: Step, i: int)
    requires
        0 <= i < 8,
    ensures
        timeline(current)[i].label == Step::ORDER@[i].label_text(),
        timeline(current)[i].status == PhaseStatus::Done <==> i < current.place(),
        timeline(current)[i].status == PhaseStatus::Pending <==> i > current.place(),
{
}

/// A phase is drawn with its sign and its label: a full dot when it is done, a half one while it is
/// current, an empty one while it is pending.
pub proof fn law_a_phase_is_drawn_by_its_status(r: RowView)
    ensures
        phase_line(r).spans.len() == 2,
        phase_line(r).spans[1].text == r.label,
        phase_line(r).spans[0].text == match r.status {
            PhaseStatus::Done => "  ● "@,
            PhaseStatus::Current => "  ◐ "@,
            PhaseStatus::Pending => "  ○ "@,
        },
        r.status.sign() == match r.status {
            PhaseStatus::Done => '●',
            PhaseStatus::Current => '◐',
            PhaseStatus::Pending => '○',
        },
{
}

} // verus!
