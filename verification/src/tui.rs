//! The screens of the wizard.
//!
//! A [`Screen`] is one question with a cursor and what is selected; a [`ReviewScreen`] is the whole
//! plan, to be confirmed or changed. Keys become messages, a message changes the screen, and what
//! is shown is a function of the screen.

use crate::passages::lemma_begins;
use crate::styled::{
    add_line, bold_style, dim_style, ink_style, line, line_views, plain_style, span, Ink, Line,
    LineView, Span, Style,
};
use crate::text::{begins, decimal, number, opt_text, pad, padded, same, texts};
use crate::model::AnswersView;
use crate::wizard::{
    choice_views, kind_of, offered, question, row_views, Answer, AnswerView, Choice, ChoiceView,
    Kind, KindView, Question, QuestionId, QuestionView, ReviewRow, ReviewRowView,
};
use vstd::arithmetic::div_mod::{
    lemma_fundamental_div_mod_converse, lemma_mod_self_0, lemma_small_mod,
};
use vstd::prelude::*;

verus! {

// ---------------------------------------------------------------------------
// Keys
// ---------------------------------------------------------------------------

/// A key, as far as the screens tell keys apart.
#[derive(Debug, Clone, Copy, PartialEq, Eq, Structural)]
pub enum Key {
    Char(char),
    Up,
    Down,
    Enter,
    Esc,
    /// Any other key.
    Other,
}

/// A key that was pressed, with or without the control key.
#[derive(Debug, Clone, Copy, PartialEq, Eq, Structural)]
pub struct KeyPress {
    pub key: Key,
    pub control: bool,
}

/// Whether a key is an interrupt: control and `c`, or control and `d`.
pub open spec fn interrupts(k: KeyPress) -> bool {
    k.control && (k.key == Key::Char('c') || k.key == Key::Char('d'))
}

/// Whether a key is an interrupt. A terminal in raw mode reports it as a key like any other.
pub fn is_ctrl_c(k: KeyPress) -> (r: bool)
    ensures
        r == interrupts(k),
{
    k.control && match k.key {
        Key::Char(c) => c == 'c' || c == 'd',
        _ => false,
    }
}

// ---------------------------------------------------------------------------
// One question
// ---------------------------------------------------------------------------

/// What a screen reacts to.
#[derive(Debug, Clone, Copy, PartialEq, Eq, Structural)]
pub enum ScreenMsg {
    /// The cursor goes down.
    Down,
    /// The cursor goes up.
    Up,
    /// The option under the cursor is selected or not any more.
    Toggle,
    /// The question is answered with what is selected.
    Confirm,
    /// A yes-or-no question is answered with this, wherever the cursor is.
    ConfirmYesNo(bool),
    /// The wizard is left.
    Cancel,
}

/// How a screen ended.
#[derive(Debug, Clone, PartialEq, Eq)]
pub enum Outcome {
    /// With an answer.
    Answered(Answer),
    /// By leaving the wizard.
    Cancelled,
}

/// What an [`Outcome`] holds.
#[verifier::ext_equal]
pub enum OutcomeView {
    Answered(AnswerView),
    Cancelled,
}

impl View for Outcome {
    type V = OutcomeView;

    open spec fn view(&self) -> OutcomeView {
        match self {
            Outcome::Answered(a) => OutcomeView::Answered(a@),
            Outcome::Cancelled => OutcomeView::Cancelled,
        }
    }
}

/// A question on screen.
#[derive(Debug, Clone)]
pub struct Screen {
    pub question: Question,
    /// The option under the cursor.
    pub cursor: usize,
    /// The options that are selected, where several can be.
    pub selected: Vec<usize>,
    /// What a yes-or-no question stands at.
    pub yes: bool,
    /// How the screen ended, once it has.
    pub outcome: Option<Outcome>,
    /// Which question of how many this is, where that is shown.
    pub step: Option<(usize, usize)>,
}

/// What a [`Screen`] holds.
#[verifier::ext_equal]
pub struct ScreenView {
    pub question: QuestionView,
    pub cursor: usize,
    pub selected: Seq<usize>,
    pub yes: bool,
    pub outcome: Option<OutcomeView>,
    pub step: Option<(usize, usize)>,
}

/// What an optional outcome holds.
pub open spec fn outcome_view(o: Option<Outcome>) -> Option<OutcomeView> {
    match o {
        Some(x) => Some(x@),
        None => None,
    }
}

impl View for Screen {
    type V = ScreenView;

    open spec fn view(&self) -> ScreenView {
        ScreenView {
            question: self.question@,
            cursor: self.cursor,
            selected: self.selected@,
            yes: self.yes,
            outcome: outcome_view(self.outcome),
            step: self.step,
        }
    }
}

/// Whether an option starts selected: those that are asked for, or the presets if none is.
pub open spec fn starts_selected(c: ChoiceView, preselect: Seq<Seq<char>>) -> bool {
    if preselect.len() == 0 {
        c.default_on
    } else {
        preselect.contains(c.id)
    }
}

/// The first `n` options that start selected.
pub open spec fn preselected(
    options: Seq<ChoiceView>,
    preselect: Seq<Seq<char>>,
    n: int,
) -> Seq<usize>
    decreases n,
{
    if n <= 0 || n > options.len() {
        seq![]
    } else {
        let before = preselected(options, preselect, n - 1);
        if starts_selected(options[n - 1], preselect) {
            before.push((n - 1) as usize)
        } else {
            before
        }
    }
}

/// The first place from `i` on where `x` stands in `s`.
pub open spec fn place_of(s: Seq<usize>, x: usize, i: int) -> Option<int>
    decreases s.len() - i,
{
    if i < 0 || i >= s.len() {
        None
    } else if s[i] == x {
        Some(i)
    } else {
        place_of(s, x, i + 1)
    }
}

/// A selection with `x` taken out if it is in, and put in if it is not.
pub open spec fn toggled(s: Seq<usize>, x: usize) -> Seq<usize> {
    match place_of(s, x, 0) {
        Some(i) => s.remove(i),
        None => s.push(x),
    }
}

/// How often `x` stands in `s`.
pub open spec fn occurrences(s: Seq<usize>, x: usize) -> nat
    decreases s.len(),
{
    if s.len() == 0 {
        0
    } else {
        occurrences(s.drop_last(), x) + if s.last() == x {
            1nat
        } else {
            0
        }
    }
}

/// `x`, `n` times.
pub open spec fn repeated(x: Seq<char>, n: nat) -> Seq<Seq<char>> {
    Seq::new(n, |i: int| x)
}

/// The identifiers of the selected options among the first `n`, in the order of the options.
pub open spec fn picked(options: Seq<ChoiceView>, selected: Seq<usize>, n: int) -> Seq<Seq<char>>
    decreases n,
{
    if n <= 0 || n > options.len() {
        seq![]
    } else {
        picked(options, selected, n - 1) + repeated(
            options[n - 1].id,
            occurrences(selected, (n - 1) as usize),
        )
    }
}

impl ScreenView {
    /// A fresh screen.
    pub open spec fn fresh(q: QuestionView, preselect: Seq<Seq<char>>) -> ScreenView {
        ScreenView {
            question: q,
            cursor: 0,
            selected: match q.kind {
                KindView::MultiChoice(options) => preselected(
                    options,
                    preselect,
                    options.len() as int,
                ),
                _ => seq![],
            },
            yes: true,
            outcome: None,
            step: None,
        }
    }

    /// The options to choose from.
    pub open spec fn options(self) -> Seq<ChoiceView> {
        self.question.kind.options()
    }

    /// The screen with the cursor moved by `delta`, round the ends; a yes-or-no question is flipped.
    pub open spec fn moved(self, delta: int) -> ScreenView {
        let n = self.options().len();
        if self.question.kind is YesNo {
            ScreenView { yes: !self.yes, ..self }
        } else if n == 0 {
            self
        } else {
            ScreenView { cursor: ((self.cursor + delta) % n as int) as usize, ..self }
        }
    }

    /// The screen with the option under the cursor toggled. Where only one can be chosen, nothing
    /// happens.
    pub open spec fn flipped(self) -> ScreenView {
        match self.question.kind {
            KindView::YesNo => ScreenView { yes: !self.yes, ..self },
            KindView::MultiChoice(_) => ScreenView {
                selected: toggled(self.selected, self.cursor),
                ..self
            },
            KindView::SingleChoice(_) => self,
        }
    }

    /// The answer that the screen stands at: none if the cursor is on no option.
    pub open spec fn answer(self) -> Option<AnswerView> {
        match self.question.kind {
            KindView::SingleChoice(options) => if self.cursor < options.len() {
                Some(AnswerView::Choice(options[self.cursor as int].id))
            } else {
                None
            },
            KindView::MultiChoice(options) => Some(
                AnswerView::Choices(picked(options, self.selected, options.len() as int)),
            ),
            KindView::YesNo => Some(AnswerView::Bool(self.yes)),
        }
    }

    /// The screen after it is confirmed.
    pub open spec fn confirmed(self) -> ScreenView {
        match self.answer() {
            Some(a) => ScreenView { outcome: Some(OutcomeView::Answered(a)), ..self },
            None => self,
        }
    }

    /// The screen after a message.
    pub open spec fn updated(self, msg: ScreenMsg) -> ScreenView {
        match msg {
            ScreenMsg::Down => self.moved(1),
            ScreenMsg::Up => self.moved(-1),
            ScreenMsg::Toggle => self.flipped(),
            ScreenMsg::Confirm => self.confirmed(),
            ScreenMsg::ConfirmYesNo(v) => ScreenView { yes: v, ..self }.confirmed(),
            ScreenMsg::Cancel => ScreenView { outcome: Some(OutcomeView::Cancelled), ..self },
        }
    }

    /// The message that a key stands for.
    pub open spec fn message(self, key: Key) -> Option<ScreenMsg> {
        let yesno = self.question.kind is YesNo;
        match key {
            Key::Down => Some(ScreenMsg::Down),
            Key::Up => Some(ScreenMsg::Up),
            Key::Enter => Some(ScreenMsg::Confirm),
            Key::Esc => Some(ScreenMsg::Cancel),
            Key::Char(c) => if c == 'j' {
                Some(ScreenMsg::Down)
            } else if c == 'k' {
                Some(ScreenMsg::Up)
            } else if c == ' ' {
                Some(ScreenMsg::Toggle)
            } else if c == 'q' {
                Some(ScreenMsg::Cancel)
            } else if yesno && (c == 'y' || c == 'Y') {
                Some(ScreenMsg::ConfirmYesNo(true))
            } else if yesno && (c == 'n' || c == 'N') {
                Some(ScreenMsg::ConfirmYesNo(false))
            } else {
                None
            },
            Key::Other => None,
        }
    }

    /// The screen after a key: an interrupt leaves the wizard.
    pub open spec fn pressed(self, k: KeyPress) -> ScreenView {
        if interrupts(k) {
            self.updated(ScreenMsg::Cancel)
        } else {
            match self.message(k.key) {
                Some(msg) => self.updated(msg),
                None => self,
            }
        }
    }

    /// Whether the cursor is on an option, or there is none, and what is selected are options, each
    /// of them once.
    pub open spec fn wf(self) -> bool {
        &&& self.cursor < self.options().len() || (self.options().len() == 0 && self.cursor == 0)
        &&& self.selected.no_duplicates()
        &&& forall|i: int|
            0 <= i < self.selected.len() ==> #[trigger] self.selected[i] < self.options().len()
        &&& self.options().len() <= usize::MAX
    }
}

fn has_id(list: &[String], id: &str) -> (r: bool)
    ensures
        r == texts(list@).contains(id@),
{
    for i in 0..list.len()
        invariant
            forall|j: int| 0 <= j < i ==> #[trigger] texts(list@)[j] != id@,
    {
        if same(list[i].as_str(), id) {
            assert(texts(list@)[i as int] == id@);
            return true;
        }
    }
    false
}

impl Screen {
    /// A fresh screen. Where several options can be chosen, those in `preselect` start selected, or
    /// the presets if it is empty.
    pub fn new(question: Question, preselect: &[String]) -> (r: Self)
        ensures
            r@ == ScreenView::fresh(question@, texts(preselect@)),
    {
        let mut selected: Vec<usize> = Vec::new();
        if let Kind::MultiChoice(choices) = &question.kind {
            let ghost options = choice_views(choices@);
            for i in 0..choices.len()
                invariant
                    options == choice_views(choices@),
                    selected@ == preselected(options, texts(preselect@), i as int),
            {
                assert(options[i as int] == choices@[i as int]@);
                let on = if preselect.len() == 0 {
                    choices[i].default_on
                } else {
                    has_id(preselect, choices[i].id.as_str())
                };
                if on {
                    selected.push(i);
                }
            }
        }
        let r = Screen { question, cursor: 0, selected, yes: true, outcome: None, step: None };
        assert(r@ =~= ScreenView::fresh(question@, texts(preselect@)));
        r
    }

    /// The same screen with another place in the flow.
    pub fn with_step(self, step: Option<(usize, usize)>) -> (r: Self)
        ensures
            r@ == (ScreenView { step, ..self@ }),
    {
        let mut r = self;
        r.step = step;
        r
    }

    fn option_count(&self) -> (r: usize)
        ensures
            r == self@.options().len(),
    {
        match &self.question.kind {
            Kind::SingleChoice(c) => c.len(),
            Kind::MultiChoice(c) => c.len(),
            Kind::YesNo => 0,
        }
    }

    /// Whether several options can be chosen.
    pub fn is_multi(&self) -> (r: bool)
        ensures
            r == (self@.question.kind is MultiChoice),
    {
        matches!(self.question.kind, Kind::MultiChoice(_))
    }

    /// Whether the question is answered with yes or no.
    pub fn is_yesno(&self) -> (r: bool)
        ensures
            r == (self@.question.kind is YesNo),
    {
        matches!(self.question.kind, Kind::YesNo)
    }

    /// Changes the screen as a message says.
    pub fn update(&mut self, msg: ScreenMsg)
        ensures
            final(self)@ == old(self)@.updated(msg),
    {
        match msg {
            ScreenMsg::Down => self.move_cursor(true),
            ScreenMsg::Up => self.move_cursor(false),
            ScreenMsg::Toggle => self.toggle(),
            ScreenMsg::Confirm => self.confirm(),
            ScreenMsg::ConfirmYesNo(v) => {
                self.yes = v;
                self.confirm();
            },
            ScreenMsg::Cancel => {
                self.outcome = Some(Outcome::Cancelled);
            },
        }
    }

    fn move_cursor(&mut self, down: bool)
        ensures
            final(self)@ == old(self)@.moved(
                if down {
                    1
                } else {
                    -1
                },
            ),
    {
        if self.is_yesno() {
            self.yes = !self.yes;
            return;
        }
        let n: usize = self.option_count();
        if n == 0 {
            return;
        }
        let c: usize = self.cursor % n;
        proof {
            lemma_wrap(self.cursor as int, n as int);
        }
        if down {
            self.cursor = if c == n - 1 { 0 } else { c + 1 };
        } else {
            self.cursor = if c == 0 { n - 1 } else { c - 1 };
        }
    }

    fn toggle(&mut self)
        ensures
            final(self)@ == old(self)@.flipped(),
    {
        if self.is_yesno() {
            self.yes = !self.yes;
            return;
        }
        if !self.is_multi() {
            return;
        }
        let n: usize = self.selected.len();
        for i in 0..n
            invariant
                n == self.selected@.len(),
                self@ == old(self)@,
                self@.question.kind is MultiChoice,
                place_of(self@.selected, self@.cursor, 0) == place_of(
                    self@.selected,
                    self@.cursor,
                    i as int,
                ),
        {
            if self.selected[i] == self.cursor {
                self.selected.remove(i);
                assert(self@ =~= old(self)@.flipped());
                return;
            }
        }
        self.selected.push(self.cursor);
        assert(self@ =~= old(self)@.flipped());
    }

    fn confirm(&mut self)
        ensures
            final(self)@ == old(self)@.confirmed(),
    {
        let answer = match &self.question.kind {
            Kind::SingleChoice(choices) => if self.cursor < choices.len() {
                assert(choice_views(choices@)[self.cursor as int] == choices@[self.cursor as int]@);
                Some(Answer::Choice(choices[self.cursor].id.clone()))
            } else {
                None
            },
            Kind::MultiChoice(choices) => Some(Answer::Choices(pick(choices, &self.selected))),
            Kind::YesNo => Some(Answer::Bool(self.yes)),
        };
        if let Some(a) = answer {
            self.outcome = Some(Outcome::Answered(a));
        }
    }

    /// The message that a key stands for. `q` and Esc cancel; on a yes-or-no question `y` and `n`
    /// answer at once.
    pub fn key_to_msg(&self, key: Key) -> (r: Option<ScreenMsg>)
        ensures
            r == self@.message(key),
    {
        let yesno = self.is_yesno();
        match key {
            Key::Down => Some(ScreenMsg::Down),
            Key::Up => Some(ScreenMsg::Up),
            Key::Enter => Some(ScreenMsg::Confirm),
            Key::Esc => Some(ScreenMsg::Cancel),
            Key::Char(c) => if c == 'j' {
                Some(ScreenMsg::Down)
            } else if c == 'k' {
                Some(ScreenMsg::Up)
            } else if c == ' ' {
                Some(ScreenMsg::Toggle)
            } else if c == 'q' {
                Some(ScreenMsg::Cancel)
            } else if yesno && (c == 'y' || c == 'Y') {
                Some(ScreenMsg::ConfirmYesNo(true))
            } else if yesno && (c == 'n' || c == 'N') {
                Some(ScreenMsg::ConfirmYesNo(false))
            } else {
                None
            },
            Key::Other => None,
        }
    }

    /// Changes the screen as a key says; an interrupt leaves the wizard.
    pub fn press(&mut self, k: KeyPress)
        ensures
            final(self)@ == old(self)@.pressed(k),
    {
        if is_ctrl_c(k) {
            self.update(ScreenMsg::Cancel);
        } else if let Some(msg) = self.key_to_msg(k.key) {
            self.update(msg);
        }
    }
}

proof fn lemma_wrap(c: int, n: int)
    requires
        c >= 0,
        n > 0,
    ensures
        0 <= c % n < n,
        (c + 1) % n == if c % n == n - 1 {
            0
        } else {
            c % n + 1
        },
        (c - 1) % n == if c % n == 0 {
            n - 1
        } else {
            c % n - 1
        },
{
    let q = c / n;
    let m = c % n;
    assert(c == q * n + m && 0 <= m < n) by (nonlinear_arith)
        requires
            n > 0,
            q == c / n,
            m == c % n,
    ;
    if m == n - 1 {
        assert(c + 1 == (q + 1) * n) by (nonlinear_arith)
            requires
                c == q * n + n - 1,
        ;
        lemma_fundamental_div_mod_converse(c + 1, n, q + 1, 0);
    } else {
        lemma_fundamental_div_mod_converse(c + 1, n, q, m + 1);
    }
    if m == 0 {
        assert(c - 1 == (q - 1) * n + (n - 1)) by (nonlinear_arith)
            requires
                c == q * n,
        ;
        lemma_fundamental_div_mod_converse(c - 1, n, q - 1, n - 1);
    } else {
        lemma_fundamental_div_mod_converse(c - 1, n, q, m - 1);
    }
}

fn pick(choices: &Vec<Choice>, selected: &Vec<usize>) -> (r: Vec<String>)
    ensures
        texts(r@) == picked(choice_views(choices@), selected@, choices@.len() as int),
{
    let ghost options = choice_views(choices@);
    let mut r: Vec<String> = Vec::new();
    assert(texts(r@) =~= seq![]);
    for i in 0..choices.len()
        invariant
            options == choice_views(choices@),
            texts(r@) == picked(options, selected@, i as int),
    {
        let ghost before = texts(r@);
        let ghost id = options[i as int].id;
        assert(before =~= before + repeated(id, 0));
        assert(selected@.take(0) =~= seq![]);
        for j in 0..selected.len()
            invariant
                options == choice_views(choices@),
                i < choices@.len(),
                id == choices@[i as int].id@,
                texts(r@) == before + repeated(id, occurrences(selected@.take(j as int), i)),
        {
            let ghost so_far = texts(r@);
            assert(selected@.take(j + 1).drop_last() =~= selected@.take(j as int));
            if selected[j] == i {
                r.push(choices[i].id.clone());
                assert(texts(r@) =~= so_far.push(id));
                assert(texts(r@) =~= before + repeated(
                    id,
                    occurrences(selected@.take(j + 1), i),
                ));
            }
        }
        assert(selected@.take(selected@.len() as int) =~= selected@);
    }
    r
}

// ---------------------------------------------------------------------------
// What a question shows
// ---------------------------------------------------------------------------

/// An option: a mark where the cursor is, a box where several can be chosen, and the label.
pub open spec fn option_text(label: Seq<char>, on_cursor: bool, checkbox: Option<bool>) -> Seq<
    char,
> {
    (if on_cursor {
        "▶ "@
    } else {
        "  "@
    }) + (match checkbox {
        Some(true) => "[x] "@,
        Some(false) => "[ ] "@,
        None => ""@,
    }) + label
}

fn option_label(label: &str, on_cursor: bool, checkbox: Option<bool>) -> (r: String)
    ensures
        r@ == option_text(label@, on_cursor, checkbox),
{
    let caret = if on_cursor {
        "▶ "
    } else {
        "  "
    };
    let check = match checkbox {
        Some(b) => if b {
            "[x] "
        } else {
            "[ ] "
        },
        None => "",
    };
    caret.to_string().concat(check).concat(label)
}

/// The style of an option: bold if it is selected, reversed under the cursor.
pub open spec fn option_style(on_cursor: bool, checked: bool) -> Style {
    Style { bold: checked, reversed: on_cursor, ..plain_style() }
}

impl ScreenView {
    /// Whether an option's box is ticked; there is none where only one can be chosen.
    pub open spec fn checkbox(self, i: int) -> Option<bool> {
        if self.question.kind is MultiChoice {
            Some(self.selected.contains(i as usize))
        } else {
            None
        }
    }

    /// The line of an option.
    pub open spec fn option_line(self, i: int) -> LineView {
        let on = i == self.cursor;
        let check = self.checkbox(i);
        line(
            seq![
                span(
                    option_text(self.options()[i].label, on, check),
                    option_style(on, check == Some(true)),
                ),
            ],
        )
    }

    /// The lines of the options, or of yes and no.
    pub open spec fn body(self) -> Seq<LineView> {
        if self.question.kind is YesNo {
            seq![
                line(
                    seq![span(option_text("Yes"@, self.yes, None), option_style(self.yes, false))],
                ),
                line(
                    seq![
                        span(option_text("No"@, !self.yes, None), option_style(!self.yes, false)),
                    ],
                ),
            ]
        } else {
            Seq::new(self.options().len(), |i: int| self.option_line(i))
        }
    }

    /// What is explained: the option under the cursor if it has a description, else the question.
    pub open spec fn explanation(self) -> Seq<char> {
        if self.cursor < self.options().len() && self.options()[self.cursor as int].description.len()
            > 0 {
            self.options()[self.cursor as int].description
        } else {
            self.question.help
        }
    }

    /// The keys that can be used, after the place in the flow where that is shown.
    pub open spec fn hint_text(self) -> Seq<char> {
        let keys = match self.question.kind {
            KindView::SingleChoice(_) => "↑↓ move · Enter select · q/Esc/^C cancel"@,
            KindView::MultiChoice(_) => "↑↓ move · Space toggle · Enter confirm · q/Esc/^C cancel"@,
            KindView::YesNo => "↑↓/Space flip · y/n or Enter confirm · q/Esc/^C cancel"@,
        };
        let prefix = match self.step {
            Some((n, total)) => "Step "@ + decimal(n as nat) + " of "@ + decimal(total as nat)
                + " · "@,
            None => ""@,
        };
        prefix + keys + " · editable on the final review"@
    }
}

fn has_index(v: &Vec<usize>, x: usize) -> (r: bool)
    ensures
        r == v@.contains(x),
{
    for i in 0..v.len()
        invariant
            forall|j: int| 0 <= j < i ==> v@[j] != x,
    {
        if v[i] == x {
            return true;
        }
    }
    false
}

/// The title of the wizard's frame.
pub const SCREEN_TITLE: &'static str = " Migration Assistant — Demo Setup ";

impl Screen {
    /// The lines of the options, or of yes and no.
    pub fn body_lines(&self) -> (r: Vec<Line>)
        ensures
            line_views(r@) == self@.body(),
    {
        let mut r: Vec<Line> = Vec::new();
        match &self.question.kind {
            Kind::YesNo => {
                let yes = option_label("Yes", self.yes, None);
                let no = option_label("No", !self.yes, None);
                add_line(&mut r, Line::one(yes.as_str(), style_of(self.yes, false)));
                add_line(&mut r, Line::one(no.as_str(), style_of(!self.yes, false)));
                assert(line_views(r@) =~= self@.body());
            },
            Kind::SingleChoice(choices) => {
                r = self.choice_lines(choices);
            },
            Kind::MultiChoice(choices) => {
                r = self.choice_lines(choices);
            },
        }
        r
    }

    fn choice_lines(&self, choices: &Vec<Choice>) -> (r: Vec<Line>)
        requires
            choice_views(choices@) == self@.options(),
            !(self@.question.kind is YesNo),
        ensures
            line_views(r@) == self@.body(),
    {
        let mut r: Vec<Line> = Vec::new();
        let multi = self.is_multi();
        assert(line_views(r@) =~= self@.body().take(0));
        for i in 0..choices.len()
            invariant
                choice_views(choices@) == self@.options(),
                !(self@.question.kind is YesNo),
                multi == (self@.question.kind is MultiChoice),
                line_views(r@) == self@.body().take(i as int),
        {
            assert(self@.options()[i as int] == choices@[i as int]@);
            let on = i == self.cursor;
            let check = if multi {
                Some(has_index(&self.selected, i))
            } else {
                None
            };
            let text = option_label(choices[i].label.as_str(), on, check);
            let checked = match check {
                Some(b) => b,
                None => false,
            };
            let l = Line::one(text.as_str(), style_of(on, checked));
            assert(l@ == self@.option_line(i as int));
            add_line(&mut r, l);
            assert(self@.body().take(i + 1) =~= self@.body().take(i as int).push(
                self@.option_line(i as int),
            ));
        }
        assert(choice_views(choices@).len() == choices@.len());
        assert(self@.body().take(choices@.len() as int) =~= self@.body());
        r
    }

    /// The description of the option under the cursor, where it has one.
    pub fn focused_description(&self) -> (r: Option<String>)
        ensures
            r is Some <==> self@.cursor < self@.options().len()
                && self@.options()[self@.cursor as int].description.len() > 0,
            r is Some ==> r->0@ == self@.options()[self@.cursor as int].description,
    {
        match &self.question.kind {
            Kind::YesNo => None,
            Kind::SingleChoice(c) => described(c, self.cursor),
            Kind::MultiChoice(c) => described(c, self.cursor),
        }
    }

    /// What is explained below the options.
    pub fn help_text(&self) -> (r: String)
        ensures
            r@ == self@.explanation(),
    {
        match self.focused_description() {
            Some(d) => d,
            None => self.question.help.clone(),
        }
    }

    /// The keys that can be used, after the place in the flow where that is shown.
    pub fn hint(&self) -> (r: String)
        ensures
            r@ == self@.hint_text(),
    {
        let keys = match self.question.kind {
            Kind::SingleChoice(_) => "↑↓ move · Enter select · q/Esc/^C cancel",
            Kind::MultiChoice(_) => "↑↓ move · Space toggle · Enter confirm · q/Esc/^C cancel",
            Kind::YesNo => "↑↓/Space flip · y/n or Enter confirm · q/Esc/^C cancel",
        };
        let prefix = match self.step {
            Some((n, total)) => "Step ".to_string().concat(number(n as u64).as_str()).concat(
                " of ",
            ).concat(number(total as u64).as_str()).concat(" · "),
            None => "".to_string(),
        };
        prefix.concat(keys).concat(" · editable on the final review")
    }
}

fn described(choices: &Vec<Choice>, cursor: usize) -> (r: Option<String>)
    ensures
        r is Some <==> cursor < choice_views(choices@).len() && choice_views(
            choices@,
        )[cursor as int].description.len() > 0,
        r is Some ==> r->0@ == choice_views(choices@)[cursor as int].description,
{
    assert(choice_views(choices@).len() == choices@.len());
    if cursor < choices.len() {
        assert(choice_views(choices@)[cursor as int] == choices@[cursor as int]@);
        if choices[cursor].description.unicode_len() > 0 {
            return Some(choices[cursor].description.clone());
        }
    }
    None
}

fn style_of(on_cursor: bool, checked: bool) -> (r: Style)
    ensures
        r == option_style(on_cursor, checked),
{
    Style { ink: Ink::Plain, bold: checked, dim: false, reversed: on_cursor, on_blue: false }
}

// ---------------------------------------------------------------------------
// The review
// ---------------------------------------------------------------------------

/// How the review ended.
#[derive(Debug, Clone, Copy, PartialEq, Eq, Structural)]
pub enum ReviewOutcome {
    /// The plan is to be carried out.
    Confirm,
    /// A question is to be asked again.
    Edit(QuestionId),
    /// The run is given up.
    Cancel,
}

/// What the review reacts to.
#[derive(Debug, Clone, Copy, PartialEq, Eq, Structural)]
pub enum ReviewMsg {
    Down,
    Up,
    /// The row under the cursor is to be changed.
    Edit,
    /// The plan is to be carried out.
    Confirm,
    /// The run is given up.
    Cancel,
}

/// What is told above the plan.
#[derive(Debug, Clone, PartialEq, Eq)]
pub struct ReviewContext {
    pub version: String,
    pub workspace: String,
    /// Who deploys, and where to; empty where the plan does not touch AWS.
    pub aws: Vec<String>,
    /// Whether the credentials are missing or have expired.
    pub aws_warning: bool,
    /// That a newer release is published, where one is.
    pub update_hint: Option<String>,
}

/// What a [`ReviewContext`] holds.
#[verifier::ext_equal]
pub struct ReviewContextView {
    pub version: Seq<char>,
    pub workspace: Seq<char>,
    pub aws: Seq<Seq<char>>,
    pub aws_warning: bool,
    pub update_hint: Option<Seq<char>>,
}

impl View for ReviewContext {
    type V = ReviewContextView;

    open spec fn view(&self) -> ReviewContextView {
        ReviewContextView {
            version: self.version@,
            workspace: self.workspace@,
            aws: texts(self.aws@),
            aws_warning: self.aws_warning,
            update_hint: opt_text(self.update_hint),
        }
    }
}

impl ReviewContextView {
    /// Nothing to tell.
    pub open spec fn empty() -> ReviewContextView {
        ReviewContextView {
            version: seq![],
            workspace: seq![],
            aws: seq![],
            aws_warning: false,
            update_hint: None,
        }
    }
}

impl Default for ReviewContext {
    fn default() -> (r: Self)
        ensures
            r@ == ReviewContextView::empty(),
    {
        let r = ReviewContext {
            version: String::new(),
            workspace: String::new(),
            aws: Vec::new(),
            aws_warning: false,
            update_hint: None,
        };
        assert(r@ =~= ReviewContextView::empty());
        r
    }
}

/// The plan on screen.
#[derive(Debug, Clone)]
pub struct ReviewScreen {
    pub rows: Vec<ReviewRow>,
    pub cursor: usize,
    pub outcome: Option<ReviewOutcome>,
    pub context: ReviewContext,
}

/// What a [`ReviewScreen`] holds.
#[verifier::ext_equal]
pub struct ReviewScreenView {
    pub rows: Seq<ReviewRowView>,
    pub cursor: usize,
    pub outcome: Option<ReviewOutcome>,
    pub context: ReviewContextView,
}

impl View for ReviewScreen {
    type V = ReviewScreenView;

    open spec fn view(&self) -> ReviewScreenView {
        ReviewScreenView {
            rows: row_views(self.rows@),
            cursor: self.cursor,
            outcome: self.outcome,
            context: self.context@,
        }
    }
}

/// Nothing stands in the way.
pub const CALM: &'static str = "Nothing is created yet. Review every setting below.";

/// What confirming means where the plan touches AWS.
pub const BILLABLE: &'static str =
    "Confirming will create real, billable AWS resources. Review every setting below.";

/// The title of the review's frame.
pub const REVIEW_TITLE: &'static str = " Review the plan — edit anything before provisioning ";

/// The keys of the review.
pub const REVIEW_HINT: &'static str =
    "↑↓ move · Enter/e edit · c confirm & provision · q/Esc/^C cancel";

impl ReviewScreenView {
    /// A fresh review.
    pub open spec fn fresh(rows: Seq<ReviewRowView>, context: ReviewContextView) -> ReviewScreenView {
        ReviewScreenView { rows, cursor: 0, outcome: None, context }
    }

    /// The number of rows, but at least one.
    pub open spec fn height(self) -> int {
        if self.rows.len() == 0 {
            1
        } else {
            self.rows.len() as int
        }
    }

    /// The review after a message. The cursor goes round the ends.
    pub open spec fn updated(self, msg: ReviewMsg) -> ReviewScreenView {
        match msg {
            ReviewMsg::Down => ReviewScreenView {
                cursor: ((self.cursor + 1) % self.height()) as usize,
                ..self
            },
            ReviewMsg::Up => ReviewScreenView {
                cursor: ((self.cursor + self.height() - 1) % self.height()) as usize,
                ..self
            },
            ReviewMsg::Edit => if self.cursor < self.rows.len() {
                ReviewScreenView {
                    outcome: Some(ReviewOutcome::Edit(self.rows[self.cursor as int].question)),
                    ..self
                }
            } else {
                self
            },
            ReviewMsg::Confirm => ReviewScreenView {
                outcome: Some(ReviewOutcome::Confirm),
                ..self
            },
            ReviewMsg::Cancel => ReviewScreenView { outcome: Some(ReviewOutcome::Cancel), ..self },
        }
    }

    /// The review after a key: an interrupt gives the run up.
    pub open spec fn pressed(self, k: KeyPress) -> ReviewScreenView {
        if interrupts(k) {
            self.updated(ReviewMsg::Cancel)
        } else {
            match review_message(k.key) {
                Some(msg) => self.updated(msg),
                None => self,
            }
        }
    }

    /// The version and the workspace.
    pub open spec fn version_lines(self) -> Seq<LineView> {
        let c = self.context;
        if c.version.len() > 0 || c.workspace.len() > 0 {
            seq![
                line(
                    seq![
                        span("ma-demo "@, dim_style()),
                        span(c.version, bold_style()),
                        span("  ·  workspace "@, dim_style()),
                        span(c.workspace, dim_style()),
                    ],
                ),
            ]
        } else {
            seq![]
        }
    }

    /// Who deploys, and where to. The first line stands out if the credentials do not hold.
    pub open spec fn aws_lines(self) -> Seq<LineView> {
        let c = self.context;
        Seq::new(
            c.aws.len(),
            |i: int|
                line(
                    seq![
                        span(
                            c.aws[i],
                            if i == 0 && c.aws_warning {
                                ink_style(Ink::Yellow)
                            } else {
                                dim_style()
                            },
                        ),
                    ],
                ),
        )
    }

    /// That a newer release is published.
    pub open spec fn hint_lines(self) -> Seq<LineView> {
        match self.context.update_hint {
            Some(h) => seq![line(seq![span(h, ink_style(Ink::Yellow))])],
            None => seq![],
        }
    }

    /// What confirming means.
    pub open spec fn closing_line(self) -> LineView {
        if self.context.aws.len() == 0 {
            line(seq![span(CALM@, dim_style())])
        } else {
            line(seq![span(BILLABLE@, ink_style(Ink::Yellow))])
        }
    }

    /// The lines above the plan.
    pub open spec fn header(self) -> Seq<LineView> {
        let context = self.version_lines() + self.aws_lines() + self.hint_lines();
        let spaced = if context.len() > 0 {
            context.push(blank())
        } else {
            context
        };
        spaced.push(self.closing_line()).push(blank())
    }

    /// The line of a row.
    pub open spec fn row_line(self, i: int) -> LineView {
        let on = i == self.cursor;
        let r = self.rows[i];
        LineView {
            spans: seq![
                span(
                    (if on {
                        "▶ "@
                    } else {
                        "  "@
                    }) + padded(r.label, 18),
                    if on {
                        bold_style()
                    } else {
                        plain_style()
                    },
                ),
                span(r.value, plain_style()),
            ],
            reversed: on,
        }
    }

    /// The lines of the plan.
    pub open spec fn body(self) -> Seq<LineView> {
        Seq::new(self.rows.len(), |i: int| self.row_line(i))
    }
}

/// A line with nothing on it.
pub open spec fn blank() -> LineView {
    line(seq![span(""@, plain_style())])
}

/// The message that a key stands for on the review.
pub open spec fn review_message(key: Key) -> Option<ReviewMsg> {
    match key {
        Key::Down => Some(ReviewMsg::Down),
        Key::Up => Some(ReviewMsg::Up),
        Key::Enter => Some(ReviewMsg::Edit),
        Key::Esc => Some(ReviewMsg::Cancel),
        Key::Char(c) => if c == 'j' {
            Some(ReviewMsg::Down)
        } else if c == 'k' {
            Some(ReviewMsg::Up)
        } else if c == 'e' {
            Some(ReviewMsg::Edit)
        } else if c == 'c' || c == 'y' {
            Some(ReviewMsg::Confirm)
        } else if c == 'q' {
            Some(ReviewMsg::Cancel)
        } else {
            None
        },
        Key::Other => None,
    }
}

impl ReviewScreen {
    /// A review with nothing told above the plan.
    pub fn new(rows: Vec<ReviewRow>) -> (r: Self)
        ensures
            r@ == ReviewScreenView::fresh(row_views(rows@), ReviewContextView::empty()),
    {
        Self::with_context(rows, ReviewContext::default())
    }

    /// A review with a context told above the plan.
    pub fn with_context(rows: Vec<ReviewRow>, context: ReviewContext) -> (r: Self)
        ensures
            r@ == ReviewScreenView::fresh(row_views(rows@), context@),
    {
        ReviewScreen { rows, cursor: 0, outcome: None, context }
    }

    /// The lines above the plan: version and workspace, identity, newer release, and what confirming
    /// means.
    pub fn header_lines(&self) -> (r: Vec<Line>)
        ensures
            line_views(r@) == self@.header(),
    {
        let c = &self.context;
        let mut r: Vec<Line> = Vec::new();
        assert(line_views(r@) =~= seq![]);
        if c.version.unicode_len() > 0 || c.workspace.unicode_len() > 0 {
            let l = Line::of(
                vec![
                    Span::new("ma-demo ", Style::dim()),
                    Span::new(c.version.as_str(), Style::bold()),
                    Span::new("  ·  workspace ", Style::dim()),
                    Span::new(c.workspace.as_str(), Style::dim()),
                ],
            );
            assert(l@ =~= self@.version_lines()[0]);
            add_line(&mut r, l);
        }
        assert(line_views(r@) =~= self@.version_lines());
        let ghost first = self@.version_lines();
        let ghost aws = self@.aws_lines();
        assert(first =~= first + aws.take(0));
        for i in 0..c.aws.len()
            invariant
                *c == self.context,
                first == self@.version_lines(),
                aws == self@.aws_lines(),
                line_views(r@) == first + aws.take(i as int),
        {
            let style = if i == 0 && c.aws_warning {
                Style::ink(Ink::Yellow)
            } else {
                Style::dim()
            };
            let l = Line::one(c.aws[i].as_str(), style);
            assert(l@ == aws[i as int]);
            add_line(&mut r, l);
            assert(aws.take(i + 1) =~= aws.take(i as int).push(aws[i as int]));
            assert(line_views(r@) =~= first + aws.take(i + 1));
        }
        assert(aws.take(aws.len() as int) =~= aws);
        if let Some(h) = &c.update_hint {
            add_line(&mut r, Line::one(h.as_str(), Style::ink(Ink::Yellow)));
        }
        assert(line_views(r@) =~= first + aws + self@.hint_lines());
        assert(line_views(r@).len() == r@.len());
        if r.len() > 0 {
            add_line(&mut r, Line::one("", Style::plain()));
        }
        assert(texts(c.aws@).len() == c.aws@.len());
        if c.aws.len() == 0 {
            add_line(&mut r, Line::one(CALM, Style::dim()));
        } else {
            add_line(&mut r, Line::one(BILLABLE, Style::ink(Ink::Yellow)));
        }
        add_line(&mut r, Line::one("", Style::plain()));
        r
    }

    /// The lines of the plan.
    pub fn body_lines(&self) -> (r: Vec<Line>)
        ensures
            line_views(r@) == self@.body(),
    {
        let mut r: Vec<Line> = Vec::new();
        assert(line_views(r@) =~= self@.body().take(0));
        for i in 0..self.rows.len()
            invariant
                line_views(r@) == self@.body().take(i as int),
        {
            assert(self@.rows[i as int] == self.rows@[i as int]@);
            let on = i == self.cursor;
            let caret = if on {
                "▶ "
            } else {
                "  "
            };
            let label = caret.to_string().concat(pad(self.rows[i].label.as_str(), 18).as_str());
            let style = if on {
                Style::bold()
            } else {
                Style::plain()
            };
            let l = Line {
                spans: vec![
                    Span::new(label.as_str(), style),
                    Span::new(self.rows[i].value.as_str(), Style::plain()),
                ],
                reversed: on,
            };
            assert(l@ =~= self@.row_line(i as int));
            add_line(&mut r, l);
            assert(self@.body().take(i + 1) =~= self@.body().take(i as int).push(
                self@.row_line(i as int),
            ));
        }
        assert(self@.body().take(self.rows@.len() as int) =~= self@.body());
        r
    }

    /// The message that a key stands for.
    pub fn key_to_msg(&self, key: Key) -> (r: Option<ReviewMsg>)
        ensures
            r == review_message(key),
    {
        match key {
            Key::Down => Some(ReviewMsg::Down),
            Key::Up => Some(ReviewMsg::Up),
            Key::Enter => Some(ReviewMsg::Edit),
            Key::Esc => Some(ReviewMsg::Cancel),
            Key::Char(c) => if c == 'j' {
                Some(ReviewMsg::Down)
            } else if c == 'k' {
                Some(ReviewMsg::Up)
            } else if c == 'e' {
                Some(ReviewMsg::Edit)
            } else if c == 'c' || c == 'y' {
                Some(ReviewMsg::Confirm)
            } else if c == 'q' {
                Some(ReviewMsg::Cancel)
            } else {
                None
            },
            Key::Other => None,
        }
    }

    /// Changes the review as a message says.
    pub fn update(&mut self, msg: ReviewMsg)
        ensures
            final(self)@ == old(self)@.updated(msg),
    {
        assert(self@.rows.len() == self.rows@.len());
        let n: u128 = if self.rows.len() == 0 { 1 } else { self.rows.len() as u128 };
        let c: u128 = self.cursor as u128;
        match msg {
            ReviewMsg::Down => {
                self.cursor = ((c + 1) % n) as usize;
            },
            ReviewMsg::Up => {
                self.cursor = ((c + n - 1) % n) as usize;
            },
            ReviewMsg::Edit => {
                if self.cursor < self.rows.len() {
                    let q = self.rows[self.cursor].question;
                    assert(self@.rows[self.cursor as int] == self.rows@[self.cursor as int]@);
                    self.outcome = Some(ReviewOutcome::Edit(q));
                }
            },
            ReviewMsg::Confirm => {
                self.outcome = Some(ReviewOutcome::Confirm);
            },
            ReviewMsg::Cancel => {
                self.outcome = Some(ReviewOutcome::Cancel);
            },
        }
    }

    /// Changes the review as a key says; an interrupt gives the run up.
    pub fn press(&mut self, k: KeyPress)
        ensures
            final(self)@ == old(self)@.pressed(k),
    {
        if is_ctrl_c(k) {
            self.update(ReviewMsg::Cancel);
        } else if let Some(msg) = self.key_to_msg(k.key) {
            self.update(msg);
        }
    }
}

// ---------------------------------------------------------------------------
// What holds of the screens
// ---------------------------------------------------------------------------

proof fn lemma_preselected(options: Seq<ChoiceView>, preselect: Seq<Seq<char>>, n: int)
    requires
        0 <= n <= options.len() <= usize::MAX,
    ensures
        preselected(options, preselect, n).no_duplicates(),
        forall|i: int|
            0 <= i < preselected(options, preselect, n).len() ==> #[trigger] preselected(
                options,
                preselect,
                n,
            )[i] < n,
    decreases n,
{
    if n > 0 {
        lemma_preselected(options, preselect, n - 1);
    }
}

proof fn lemma_place_of(s: Seq<usize>, x: usize, from: int)
    requires
        0 <= from <= s.len(),
    ensures
        match place_of(s, x, from) {
            Some(i) => from <= i < s.len() && s[i] == x && forall|j: int|
                from <= j < i ==> s[j] != x,
            None => forall|j: int| from <= j < s.len() ==> s[j] != x,
        },
    decreases s.len() - from,
{
    if from < s.len() && s[from] != x {
        lemma_place_of(s, x, from + 1);
    }
}

/// A screen starts well formed and stays so, as long as there is something to choose from: the
/// cursor never leaves the options, and no option is selected twice.
pub proof fn law_screens_stay_well_formed(
    q: QuestionView,
    preselect: Seq<Seq<char>>,
    s: ScreenView,
    msg: ScreenMsg,
)
    requires
        q.kind.options().len() <= usize::MAX,
        s.wf(),
        s.question.kind is MultiChoice ==> s.options().len() > 0,
    ensures
        ScreenView::fresh(q, preselect).wf(),
        s.updated(msg).wf(),
{
    if let KindView::MultiChoice(options) = q.kind {
        lemma_preselected(options, preselect, options.len() as int);
    }
    let n = s.options().len() as int;
    if n > 0 {
        lemma_wrap(s.cursor as int, n);
    }
    if s.question.kind is MultiChoice && msg == ScreenMsg::Toggle && n > 0 {
        lemma_place_of(s.selected, s.cursor, 0);
        let t = toggled(s.selected, s.cursor);
        if let Some(i) = place_of(s.selected, s.cursor, 0) {
            assert forall|j: int| 0 <= j < t.len() implies #[trigger] t[j] < n by {
                assert(t[j] == s.selected[if j < i {
                    j
                } else {
                    j + 1
                }]);
            }
        }
    }
}

/// Up undoes down, and down undoes up.
pub proof fn law_up_undoes_down(s: ScreenView)
    requires
        s.wf(),
    ensures
        s.updated(ScreenMsg::Down).updated(ScreenMsg::Up) == s,
        s.updated(ScreenMsg::Up).updated(ScreenMsg::Down) == s,
{
    let n = s.options().len() as int;
    if !(s.question.kind is YesNo) && n > 0 {
        let d = s.updated(ScreenMsg::Down);
        let u = s.updated(ScreenMsg::Up);
        lemma_wrap(s.cursor as int, n);
        lemma_wrap(d.cursor as int, n);
        lemma_wrap(u.cursor as int, n);
        lemma_small_mod(s.cursor as nat, n as nat);
        lemma_small_mod(d.cursor as nat, n as nat);
        lemma_small_mod(u.cursor as nat, n as nat);
    }
    assert(s.updated(ScreenMsg::Down).updated(ScreenMsg::Up) =~= s);
    assert(s.updated(ScreenMsg::Up).updated(ScreenMsg::Down) =~= s);
}

proof fn lemma_occurrences_remove(s: Seq<usize>, i: int, x: usize)
    requires
        0 <= i < s.len(),
    ensures
        occurrences(s.remove(i), x) == occurrences(s, x) - if s[i] == x {
            1int
        } else {
            0
        },
    decreases s.len(),
{
    if i == s.len() - 1 {
        assert(s.remove(i) =~= s.drop_last());
    } else {
        lemma_occurrences_remove(s.drop_last(), i, x);
        assert(s.remove(i).drop_last() =~= s.drop_last().remove(i));
        assert(s.remove(i).last() == s.last());
    }
}

proof fn lemma_occurrences_push(s: Seq<usize>, y: usize, x: usize)
    ensures
        occurrences(s.push(y), x) == occurrences(s, x) + if y == x {
            1int
        } else {
            0
        },
{
    assert(s.push(y).drop_last() =~= s);
}

proof fn lemma_picked_by_occurrences(
    options: Seq<ChoiceView>,
    s: Seq<usize>,
    t: Seq<usize>,
    n: int,
)
    requires
        0 <= n <= options.len() <= usize::MAX,
        forall|x: usize| #[trigger] occurrences(s, x) == occurrences(t, x),
    ensures
        picked(options, s, n) == picked(options, t, n),
    decreases n,
{
    if n > 0 {
        lemma_picked_by_occurrences(options, s, t, n - 1);
        assert(occurrences(s, (n - 1) as usize) == occurrences(t, (n - 1) as usize));
    }
}

/// Toggling an option twice leaves the answer as it was.
pub proof fn law_toggling_twice_keeps_the_answer(s: ScreenView)
    requires
        s.wf(),
    ensures
        s.updated(ScreenMsg::Toggle).updated(ScreenMsg::Toggle).answer() == s.answer(),
{
    if s.question.kind is MultiChoice {
        let c = s.cursor;
        let t = toggled(s.selected, c);
        let u = toggled(t, c);
        lemma_place_of(s.selected, c, 0);
        lemma_place_of(t, c, 0);
        assert forall|x: usize| #[trigger] occurrences(s.selected, x) == occurrences(u, x) by {
            match place_of(s.selected, c, 0) {
                Some(i) => {
                    lemma_occurrences_remove(s.selected, i, x);
                    assert(forall|j: int|
                        0 <= j < t.len() ==> t[j] == s.selected[if j < i {
                            j
                        } else {
                            j + 1
                        }]);
                    assert(place_of(t, c, 0) is None);
                    lemma_occurrences_push(t, c, x);
                },
                None => {
                    lemma_occurrences_push(s.selected, c, x);
                    let j = place_of(t, c, 0)->0;
                    assert(t[t.len() - 1] == c);
                    lemma_occurrences_remove(t, j, x);
                },
            }
        }
        lemma_picked_by_occurrences(s.options(), s.selected, u, s.options().len() as int);
    }
}

proof fn lemma_picked_are_options(options: Seq<ChoiceView>, selected: Seq<usize>, n: int, k: int)
    requires
        0 <= n <= options.len(),
        0 <= k < picked(options, selected, n).len(),
    ensures
        exists|i: int|
            0 <= i < n && picked(options, selected, n)[k] == (#[trigger] options[i]).id,
    decreases n,
{
    if n > 0 {
        let before = picked(options, selected, n - 1);
        if k < before.len() {
            lemma_picked_are_options(options, selected, n - 1, k);
            assert(picked(options, selected, n)[k] == before[k]);
        } else {
            assert(picked(options, selected, n)[k] == options[n - 1].id);
        }
    }
}

/// What a screen answers is what its question offers, so every answer given on a screen takes the
/// wizard forward.
pub proof fn law_a_screen_answers_what_is_offered(s: ScreenView, q: QuestionId, a: AnswersView)
    requires
        s.wf(),
        s.question == question(q, a),
    ensures
        s.answer() is Some,
        offered(q, a, s.answer()->0),
{
    match s.question.kind {
        KindView::SingleChoice(options) => {
            lemma_every_choice_has_options(q, a);
            assert(options[s.cursor as int].id == options[s.cursor as int].id);
        },
        KindView::MultiChoice(options) => {
            let ids = picked(options, s.selected, options.len() as int);
            assert forall|k: int| 0 <= k < ids.len() implies exists|i: int|
                0 <= i < options.len() && #[trigger] ids[k] == (#[trigger] options[i]).id by {
                lemma_picked_are_options(options, s.selected, options.len() as int, k);
            }
        },
        KindView::YesNo => {},
    }
}

/// A question with options has at least one.
proof fn lemma_every_choice_has_options(q: QuestionId, a: AnswersView)
    ensures
        !(kind_of(q, a) is YesNo) ==> kind_of(q, a).options().len() > 0,
{
}

/// On a yes-or-no question `y` answers yes and `n` answers no, wherever the cursor is.
pub proof fn law_y_and_n_answer_at_once(s: ScreenView)
    requires
        s.question.kind is YesNo,
    ensures
        s.pressed(KeyPress { key: Key::Char('y'), control: false }).outcome == Some(
            OutcomeView::Answered(AnswerView::Bool(true)),
        ),
        s.pressed(KeyPress { key: Key::Char('n'), control: false }).outcome == Some(
            OutcomeView::Answered(AnswerView::Bool(false)),
        ),
{
}

/// `q`, Esc and an interrupt cancel every screen, wherever it stands.
pub proof fn law_every_screen_can_be_cancelled(s: ScreenView, r: ReviewScreenView, k: KeyPress)
    requires
        k.key == Key::Char('q') || k.key == Key::Esc || interrupts(k),
    ensures
        s.pressed(k).outcome == Some(OutcomeView::Cancelled),
        r.pressed(k).outcome == Some(ReviewOutcome::Cancel),
{
}

/// An interrupt ends every screen, and the plain letter does not.
pub proof fn law_interrupts_end_every_screen(s: ScreenView, r: ReviewScreenView, k: KeyPress)
    requires
        interrupts(k),
    ensures
        s.pressed(k).outcome == Some(OutcomeView::Cancelled),
        r.pressed(k).outcome == Some(ReviewOutcome::Cancel),
        s.pressed(KeyPress { control: false, ..k }).outcome == s.outcome,
        r.pressed(KeyPress { control: false, ..k }).outcome != Some(ReviewOutcome::Cancel)
            || r.outcome == Some(ReviewOutcome::Cancel),
{
}

/// The cursor of a review stays on its rows, and up undoes down.
pub proof fn law_the_review_cursor_stays_on_the_rows(r: ReviewScreenView, msg: ReviewMsg)
    requires
        r.cursor < r.height() <= usize::MAX,
    ensures
        r.updated(msg).cursor < r.updated(msg).height(),
        r.updated(ReviewMsg::Down).updated(ReviewMsg::Up) == r,
        r.updated(ReviewMsg::Up).updated(ReviewMsg::Down) == r,
{
    let n = r.height();
    let c = r.cursor as int;
    let d = r.updated(ReviewMsg::Down);
    let u = r.updated(ReviewMsg::Up);
    lemma_review_wrap(c, n);
    lemma_review_wrap(d.cursor as int, n);
    lemma_review_wrap(u.cursor as int, n);
    assert(d.updated(ReviewMsg::Up) =~= r);
    assert(u.updated(ReviewMsg::Down) =~= r);
}

proof fn lemma_review_wrap(c: int, n: int)
    requires
        0 <= c < n,
    ensures
        (c + 1) % n == if c == n - 1 {
            0
        } else {
            c + 1
        },
        (c + n - 1) % n == if c == 0 {
            n - 1
        } else {
            c - 1
        },
{
    lemma_wrap(c, n);
    lemma_small_mod(c as nat, n as nat);
    if c > 0 {
        lemma_fundamental_div_mod_converse(c + n - 1, n, 1, c - 1);
    } else {
        lemma_small_mod((n - 1) as nat, n as nat);
    }
}

/// The review warns of costs if and only if the plan touches AWS.
pub proof fn law_costs_are_announced(r: ReviewScreenView)
    ensures
        r.header().len() >= 2,
        r.header()[r.header().len() - 2] == if r.context.aws.len() > 0 {
            line(seq![span(BILLABLE@, ink_style(Ink::Yellow))])
        } else {
            line(seq![span(CALM@, dim_style())])
        },
{
}

/// A screen starts on its first option with nothing decided. Where several options can be chosen,
/// exactly those start selected that were chosen before, or the presets where nothing was.
pub proof fn law_how_a_screen_starts(q: QuestionView, before: Seq<Seq<char>>, i: int)
    ensures
        ({
            let s = ScreenView::fresh(q, before);
            &&& s.question == q
            &&& s.cursor == 0
            &&& s.yes
            &&& s.outcome is None
            &&& s.step is None
            &&& !(q.kind is MultiChoice) ==> s.selected.len() == 0
            &&& q.kind is MultiChoice && 0 <= i < q.kind.options().len() && q.kind.options().len()
                <= usize::MAX ==> (s.selected.contains(i as usize) <==> if before.len() == 0 {
                q.kind.options()[i].default_on
            } else {
                before.contains(q.kind.options()[i].id)
            })
        }),
{
    let options = q.kind.options();
    if q.kind is MultiChoice && 0 <= i < options.len() && options.len() <= usize::MAX {
        lemma_starts_selected(options, before, options.len() as int, i);
    }
}

proof fn lemma_starts_selected(options: Seq<ChoiceView>, before: Seq<Seq<char>>, n: int, i: int)
    requires
        0 <= n <= options.len(),
        options.len() <= usize::MAX,
        0 <= i < options.len(),
    ensures
        preselected(options, before, n).contains(i as usize) <==> i < n && starts_selected(
            options[i],
            before,
        ),
    decreases n,
{
    if n > 0 {
        lemma_starts_selected(options, before, n - 1, i);
        let p = preselected(options, before, n - 1);
        if starts_selected(options[n - 1], before) {
            let all = p.push((n - 1) as usize);
            if i == n - 1 {
                assert(all[p.len() as int] == i as usize);
            } else if p.contains(i as usize) {
                let k = choose|k: int| 0 <= k < p.len() && p[k] == i as usize;
                assert(all[k] == i as usize);
            } else if all.contains(i as usize) {
                let k = choose|k: int| 0 <= k < all.len() && all[k] == i as usize;
                assert(p[k] == i as usize);
            }
        }
    } else {
        assert(!preselected(options, before, n).contains(i as usize));
    }
}

/// Confirming answers with what the screen stands at: the option under the cursor, exactly the options
/// that are selected, or yes or no.
pub proof fn law_confirming_answers_with_what_is_shown(s: ScreenView, i: int)
    requires
        s.wf(),
    ensures
        ({
            let options = s.question.kind.options();
            let done = s.pressed(KeyPress { key: Key::Enter, control: false });
            &&& s.question.kind is SingleChoice && options.len() > 0 ==> done.outcome == Some(
                OutcomeView::Answered(AnswerView::Choice(options[s.cursor as int].id)),
            )
            &&& s.question.kind is YesNo ==> done.outcome == Some(
                OutcomeView::Answered(AnswerView::Bool(s.yes)),
            )
            &&& s.question.kind is MultiChoice ==> {
                &&& done.outcome is Some
                &&& done.outcome->0 is Answered
                &&& done.outcome->0->Answered_0 is Choices
                &&& 0 <= i < options.len() && s.selected.contains(i as usize)
                    ==> done.outcome->0->Answered_0->Choices_0.contains(options[i].id)
                &&& 0 <= i < done.outcome->0->Answered_0->Choices_0.len() ==> exists|j: int|
                    0 <= j < options.len() && s.selected.contains(j as usize) && (
                    #[trigger] options[j]).id == done.outcome->0->Answered_0->Choices_0[i]
            }
            &&& done == (ScreenView { outcome: done.outcome, ..s })
        }),
{
    let options = s.question.kind.options();
    if s.question.kind is MultiChoice {
        let n = options.len() as int;
        if 0 <= i < n && s.selected.contains(i as usize) {
            lemma_picked_holds(options, s.selected, n, i);
        }
        if 0 <= i < picked(options, s.selected, n).len() {
            lemma_picked_only(options, s.selected, n, i);
        }
    }
}

proof fn lemma_picked_holds(options: Seq<ChoiceView>, selected: Seq<usize>, n: int, i: int)
    requires
        0 <= i < n <= options.len() <= usize::MAX,
        selected.contains(i as usize),
    ensures
        picked(options, selected, n).contains(options[i].id),
    decreases n,
{
    let before = picked(options, selected, n - 1);
    let more = repeated(options[n - 1].id, occurrences(selected, (n - 1) as usize));
    if i == n - 1 {
        lemma_occurs(selected, i as usize);
        assert((before + more)[before.len() as int] == options[i].id);
    } else {
        lemma_picked_holds(options, selected, n - 1, i);
        let k = choose|k: int| 0 <= k < before.len() && before[k] == options[i].id;
        assert((before + more)[k] == options[i].id);
    }
}

proof fn lemma_picked_only(options: Seq<ChoiceView>, selected: Seq<usize>, n: int, i: int)
    requires
        0 <= n <= options.len() <= usize::MAX,
        0 <= i < picked(options, selected, n).len(),
    ensures
        exists|j: int|
            0 <= j < n && selected.contains(j as usize) && (#[trigger] options[j]).id == picked(
                options,
                selected,
                n,
            )[i],
    decreases n,
{
    let before = picked(options, selected, n - 1);
    let more = repeated(options[n - 1].id, occurrences(selected, (n - 1) as usize));
    if i < before.len() {
        lemma_picked_only(options, selected, n - 1, i);
    } else {
        assert(picked(options, selected, n)[i] == more[i - before.len()]);
        lemma_occurs(selected, (n - 1) as usize);
        assert(options[n - 1].id == picked(options, selected, n)[i]);
    }
}

proof fn lemma_occurs(s: Seq<usize>, x: usize)
    ensures
        occurrences(s, x) > 0 <==> s.contains(x),
    decreases s.len(),
{
    if s.len() > 0 {
        lemma_occurs(s.drop_last(), x);
        let p = s.drop_last();
        if s.last() == x {
            assert(s[s.len() - 1] == x);
        } else if p.contains(x) {
            let k = choose|k: int| 0 <= k < p.len() && p[k] == x;
            assert(s[k] == x);
        } else if s.contains(x) {
            let k = choose|k: int| 0 <= k < s.len() && s[k] == x;
            assert(p[k] == x);
        }
    }
}

/// What the keys do on a question: the arrows, `j` and `k` move, Space toggles, Enter confirms; and
/// where a letter means nothing, nothing happens.
pub proof fn law_the_keys_of_a_question(s: ScreenView, c: char)
    ensures
        s.message(Key::Down) == Some(ScreenMsg::Down) && s.message(Key::Char('j')) == Some(
            ScreenMsg::Down,
        ),
        s.message(Key::Up) == Some(ScreenMsg::Up) && s.message(Key::Char('k')) == Some(
            ScreenMsg::Up,
        ),
        s.message(Key::Char(' ')) == Some(ScreenMsg::Toggle),
        s.message(Key::Enter) == Some(ScreenMsg::Confirm),
        s.message(Key::Other) is None,
        c != 'j' && c != 'k' && c != ' ' && c != 'q' && c != 'y' && c != 'Y' && c != 'n' && c != 'N'
            ==> s.message(Key::Char(c)) is None,
        !(s.question.kind is YesNo) && (c == 'y' || c == 'Y' || c == 'n' || c == 'N') ==> s.message(
            Key::Char(c),
        ) is None,
{
}

/// What the keys do on the review: the arrows, `j` and `k` move, Enter and `e` edit the row under the
/// cursor, `c` and `y` confirm; and where a letter means nothing, nothing happens.
pub proof fn law_the_keys_of_the_review(r: ReviewScreenView, c: char)
    requires
        r.cursor < r.rows.len(),
    ensures
        review_message(Key::Down) == Some(ReviewMsg::Down) && review_message(Key::Char('j')) == Some(
            ReviewMsg::Down,
        ),
        review_message(Key::Up) == Some(ReviewMsg::Up) && review_message(Key::Char('k')) == Some(
            ReviewMsg::Up,
        ),
        review_message(Key::Enter) == Some(ReviewMsg::Edit) && review_message(Key::Char('e'))
            == Some(ReviewMsg::Edit),
        review_message(Key::Char('c')) == Some(ReviewMsg::Confirm) && review_message(
            Key::Char('y'),
        ) == Some(ReviewMsg::Confirm),
        review_message(Key::Other) is None,
        c != 'j' && c != 'k' && c != 'e' && c != 'c' && c != 'y' && c != 'q' ==> review_message(
            Key::Char(c),
        ) is None,
        r.updated(ReviewMsg::Edit).outcome == Some(
            ReviewOutcome::Edit(r.rows[r.cursor as int].question),
        ),
        r.updated(ReviewMsg::Confirm).outcome == Some(ReviewOutcome::Confirm),
        r.updated(ReviewMsg::Down).outcome == r.outcome && r.updated(ReviewMsg::Up).outcome
            == r.outcome,
{
}

/// Moving goes from one option to the next, and round the ends; on a yes-or-no question it changes
/// sides. Toggling selects what was not selected and the other way round, and changes nothing else.
pub proof fn law_moving_and_toggling(s: ScreenView, i: usize)
    requires
        s.wf(),
    ensures
        s.question.kind is YesNo ==> s.updated(ScreenMsg::Down).yes == !s.yes && s.updated(
            ScreenMsg::Up,
        ).yes == !s.yes && s.updated(ScreenMsg::Toggle).yes == !s.yes,
        !(s.question.kind is YesNo) && s.cursor + 1 < s.options().len() ==> s.updated(
            ScreenMsg::Down,
        ).cursor == s.cursor + 1,
        !(s.question.kind is YesNo) && s.options().len() > 0 && s.cursor + 1 == s.options().len()
            ==> s.updated(ScreenMsg::Down).cursor == 0,
        s.question.kind is SingleChoice ==> s.updated(ScreenMsg::Toggle) == s,
        s.question.kind is MultiChoice ==> {
            let t = s.updated(ScreenMsg::Toggle);
            &&& t.cursor == s.cursor
            &&& t.selected.contains(s.cursor) <==> !s.selected.contains(s.cursor)
            &&& i != s.cursor ==> (t.selected.contains(i) <==> s.selected.contains(i))
        },
{
    let n = s.options().len() as int;
    if !(s.question.kind is YesNo) && n > 0 {
        lemma_wrap(s.cursor as int, n);
        if s.cursor + 1 < n {
            lemma_small_mod((s.cursor + 1) as nat, n as nat);
        } else {
            lemma_mod_self_0(n);
        }
    }
    if s.question.kind is MultiChoice {
        lemma_toggled(s.selected, s.cursor, i);
        lemma_toggled(s.selected, s.cursor, s.cursor);
    }
}

proof fn lemma_toggled(s: Seq<usize>, x: usize, i: usize)
    requires
        s.no_duplicates(),
    ensures
        toggled(s, x).contains(x) <==> !s.contains(x),
        i != x ==> (toggled(s, x).contains(i) <==> s.contains(i)),
{
    lemma_a_place(s, x, 0);
    let t = toggled(s, x);
    match place_of(s, x, 0) {
        Some(k) => {
            assert(s[k] == x);
            assert forall|y: usize| #[trigger] t.contains(y) <==> s.contains(y) && y != x by {
                if t.contains(y) {
                    let j = choose|j: int| 0 <= j < t.len() && t[j] == y;
                    if j < k {
                        assert(s[j] == y);
                    } else {
                        assert(s[j + 1] == y);
                    }
                }
                if s.contains(y) && y != x {
                    let j = choose|j: int| 0 <= j < s.len() && s[j] == y;
                    if j < k {
                        assert(t[j] == y);
                    } else {
                        assert(t[j - 1] == y);
                    }
                }
            }
            assert(t.contains(x) <==> s.contains(x) && x != x);
            assert(t.contains(i) <==> s.contains(i) && i != x);
        },
        None => {
            assert(t[s.len() as int] == x);
            if t.contains(i) {
                let j = choose|j: int| 0 <= j < t.len() && t[j] == i;
                assert(i != x ==> s[j] == i);
            }
            if s.contains(i) {
                let j = choose|j: int| 0 <= j < s.len() && s[j] == i;
                assert(t[j] == i);
            }
        },
    }
}

proof fn lemma_a_place(s: Seq<usize>, x: usize, from: int)
    requires
        0 <= from <= s.len(),
    ensures
        match place_of(s, x, from) {
            Some(k) => from <= k < s.len() && s[k] == x,
            None => forall|j: int| from <= j < s.len() ==> #[trigger] s[j] != x,
        },
    decreases s.len() - from,
{
    if from < s.len() && s[from] != x {
        lemma_a_place(s, x, from + 1);
    }
}

/// Every option is shown with its label: an arrow before the one under the cursor and no other, and,
/// where several can be chosen, a box that is ticked if and only if the option is selected.
pub proof fn law_every_option_is_shown(s: ScreenView, i: int)
    requires
        0 <= i < s.options().len(),
        !(s.question.kind is YesNo),
    ensures
        s.body().len() == s.options().len(),
        s.body()[i].spans[0].text == (if i == s.cursor {
            "▶ "@
        } else {
            "  "@
        }) + (if s.question.kind is MultiChoice {
            if s.selected.contains(i as usize) {
                "[x] "@
            } else {
                "[ ] "@
            }
        } else {
            ""@
        }) + s.options()[i].label,
        s.body()[i].spans[0].style.reversed == (i == s.cursor),
{
}

/// A yes-or-no question shows both answers, with the arrow before the one it stands at.
pub proof fn law_yes_and_no_are_shown(s: ScreenView)
    requires
        s.question.kind is YesNo,
    ensures
        s.body().len() == 2,
        s.yes ==> s.body()[0].spans[0].text == "▶ "@ + ""@ + "Yes"@ && s.body()[1].spans[0].text
            == "  "@ + ""@ + "No"@,
        !s.yes ==> s.body()[0].spans[0].text == "  "@ + ""@ + "Yes"@ && s.body()[1].spans[0].text
            == "▶ "@ + ""@ + "No"@,
{
}

/// The footer counts the questions where it was told to, and what is explained is the option under the
/// cursor, or the question where that says nothing.
pub proof fn law_the_footer_counts_the_questions(s: ScreenView, n: usize, total: usize)
    ensures
        s.step == Some((n, total)) ==> begins(
            s.hint_text(),
            "Step "@ + decimal(n as nat) + " of "@ + decimal(total as nat),
        ),
        s.cursor < s.options().len() && s.options()[s.cursor as int].description.len() > 0
            ==> s.explanation() == s.options()[s.cursor as int].description,
        s.question.kind is YesNo ==> s.explanation() == s.question.help,
{
    if s.step == Some((n, total)) {
        let front = "Step "@ + decimal(n as nat) + " of "@ + decimal(total as nat);
        let back = s.hint_text().skip(front.len() as int);
        assert(s.hint_text() =~= front + back);
        lemma_begins(front, back);
    }
}

/// The review shows each of its rows with label and value, the arrow before the one under the cursor;
/// above them the version and the workspace, every line on AWS, and the hint of a newer release.
pub proof fn law_the_review_shows_its_rows(r: ReviewScreenView, i: int)
    ensures
        r.body().len() == r.rows.len(),
        0 <= i < r.rows.len() ==> {
            &&& r.body()[i].spans[0].text == (if i == r.cursor {
                "▶ "@
            } else {
                "  "@
            }) + padded(r.rows[i].label, 18)
            &&& r.body()[i].spans[1].text == r.rows[i].value
            &&& r.body()[i].reversed == (i == r.cursor)
        },
        r.context.version.len() > 0 ==> r.header()[0].spans[1].text == r.context.version
            && r.header()[0].spans[3].text == r.context.workspace,
        0 <= i < r.context.aws.len() && r.context.version.len() > 0 ==> r.header()[1 + i].spans[0].text
            == r.context.aws[i],
        r.context.version.len() > 0 && r.context.update_hint is Some ==> r.header()[1
            + r.context.aws.len() as int].spans[0].text == r.context.update_hint->0,
{
    let v = r.version_lines();
    let w = r.aws_lines();
    let h = r.hint_lines();
    let all = v + w + h;
    if r.context.version.len() > 0 {
        assert(v.len() == 1);
        assert(r.header()[0] == all[0]);
        if 0 <= i < r.context.aws.len() {
            assert(r.header()[1 + i] == all[1 + i]);
            assert(all[1 + i] == w[i]);
        }
        if r.context.update_hint is Some {
            let k = 1 + w.len() as int;
            assert(r.header()[k] == all[k]);
            assert(all[k] == h[0]);
        }
    }
}

} // verus!
