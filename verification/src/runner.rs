//! The seam through which every external command goes.
//!
//! Nothing in the library starts a process. It asks a [`CommandRunner`], and every contract that
//! involves one is stated over the runner's log: what was asked, in order, and what came back.
//! [`MockRunner`] answers from a script and keeps a record of what it was asked.

use crate::journal::{
    continued, goes, lemma_at_rest, lemma_continued_on, lemma_nothing_added, lemma_one_entry, replayed,
};
use crate::text::{
    chomp, chomped, contains, copy_texts, has_part, has_text, join, joined, owned, same, str_texts,
    texts,
};
use vstd::prelude::*;

verus! {

/// What an external command left behind.
#[derive(Debug, PartialEq, Eq)]
pub struct Output {
    pub status: i32,
    pub stdout: String,
    pub stderr: String,
}

/// What an [`Output`] holds.
#[verifier::ext_equal]
pub struct OutputView {
    pub status: i32,
    pub stdout: Seq<char>,
    pub stderr: Seq<char>,
}

impl View for Output {
    type V = OutputView;

    open spec fn view(&self) -> OutputView {
        OutputView { status: self.status, stdout: self.stdout@, stderr: self.stderr@ }
    }
}

impl OutputView {
    /// Whether the command exited with status 0.
    pub open spec fn ok(self) -> bool {
        self.status == 0
    }
}

impl Clone for Output {
    fn clone(&self) -> (r: Self)
        ensures
            r@ == self@,
    {
        Output { status: self.status, stdout: self.stdout.clone(), stderr: self.stderr.clone() }
    }
}

impl Output {
    /// Whether the command exited with status 0.
    pub fn success(&self) -> (r: bool)
        ensures
            r == self@.ok(),
    {
        self.status == 0
    }

    /// What the command printed, without the newlines at the end.
    pub fn trimmed_stdout(&self) -> (r: &str)
        ensures
            r@ == chomped(self@.stdout),
    {
        chomp(self.stdout.as_str())
    }
}

/// A command line: the program and its arguments.
#[derive(Debug, PartialEq, Eq)]
pub struct Call {
    pub program: String,
    pub args: Vec<String>,
}

/// What a [`Call`] holds.
#[verifier::ext_equal]
pub struct CallView {
    pub program: Seq<char>,
    pub args: Seq<Seq<char>>,
}

impl View for Call {
    type V = CallView;

    open spec fn view(&self) -> CallView {
        CallView { program: self.program@, args: texts(self.args@) }
    }
}

impl CallView {
    /// Whether the command is given `value` for `option`.
    pub open spec fn passes(self, option: Seq<char>, value: Seq<char>) -> bool {
        exists|i: int|
            0 <= i < self.args.len() - 1 && #[trigger] self.args[i] == option && self.args[i + 1]
                == value
    }

    /// The program and its arguments with spaces between them.
    pub open spec fn line(self) -> Seq<char> {
        self.program + " "@ + joined(self.args, " "@)
    }
}

/// A command that holds an option and right after it a value passes the one for the other.
pub proof fn lemma_passes(call: CallView, k: int, option: Seq<char>, value: Seq<char>)
    requires
        0 <= k < call.args.len() - 1,
        call.args[k] == option,
        call.args[k + 1] == value,
    ensures
        call.passes(option, value),
{
}

/// The command line of `program` with `args`.
pub open spec fn command(program: Seq<char>, args: Seq<Seq<char>>) -> CallView {
    CallView { program, args }
}

/// What each call of a list holds.
pub open spec fn call_views(v: Seq<Call>) -> Seq<CallView> {
    v.map_values(|c: Call| c@)
}

impl Clone for Call {
    fn clone(&self) -> (r: Self)
        ensures
            r@ == self@,
    {
        Call { program: self.program.clone(), args: copy_texts(&self.args) }
    }
}

impl Call {
    /// The arguments with spaces between them.
    pub fn joined(&self) -> (r: String)
        ensures
            r@ == joined(self@.args, " "@),
    {
        join(&self.args, " ")
    }
}

fn line_of(program: &str, args: &Vec<String>) -> (r: String)
    ensures
        r@ == command(program@, texts(args@)).line(),
{
    program.to_string().concat(" ").concat(join(args, " ").as_str())
}

// ---------------------------------------------------------------------------
// The log of a runner
// ---------------------------------------------------------------------------

/// One exchange with a runner.
pub enum Event {
    /// The command ran, with this outcome.
    Ran(CallView, OutputView),
    /// The command ran with its output going to the terminal, with this outcome.
    Streamed(CallView, OutputView),
    /// The program was looked up, and was found or not.
    Looked(Seq<char>, bool),
}

/// What a runner can be asked.
pub enum Ask {
    /// Run a command.
    Run(CallView),
    /// Run a command with its output going to the terminal.
    Stream(CallView),
    /// Look a program up.
    Find(Seq<char>),
}

impl Event {
    /// What the runner was asked.
    pub open spec fn ask(self) -> Ask {
        match self {
            Event::Ran(call, _) => Ask::Run(call),
            Event::Streamed(call, _) => Ask::Stream(call),
            Event::Looked(program, _) => Ask::Find(program),
        }
    }

    /// What the command left behind.
    pub open spec fn output(self) -> OutputView {
        match self {
            Event::Ran(_, out) => out,
            Event::Streamed(_, out) => out,
            Event::Looked(_, _) => OutputView { status: 0, stdout: seq![], stderr: seq![] },
        }
    }

    /// Whether the program was found.
    pub open spec fn found(self) -> bool {
        match self {
            Event::Ran(_, _) => false,
            Event::Streamed(_, _) => false,
            Event::Looked(_, found) => found,
        }
    }
}

/// What was asked over a stretch of a log.
pub open spec fn asks(log: Seq<Event>) -> Seq<Ask> {
    log.map_values(|e: Event| e.ask())
}

/// What was added to a log.
pub open spec fn since(before: Seq<Event>, after: Seq<Event>) -> Seq<Event> {
    after.skip(before.len() as int)
}

/// Whether a log was only added to.
pub open spec fn grew(before: Seq<Event>, after: Seq<Event>) -> bool {
    before.len() <= after.len() && after.take(before.len() as int) == before
}

/// Whether a log grew by one exchange: `call` ran, whatever came back.
pub open spec fn ran(before: Seq<Event>, after: Seq<Event>, call: CallView) -> bool {
    after.len() > 0 && after == before.push(Event::Ran(call, after.last().output()))
}

/// A log that is continued by `more` grew by `more`.
pub proof fn lemma_since(before: Seq<Event>, more: Seq<Event>)
    ensures
        grew(before, before + more),
        since(before, before + more) == more,
{
    assert((before + more).take(before.len() as int) =~= before);
    assert((before + more).skip(before.len() as int) =~= more);
}

// ---------------------------------------------------------------------------
// Runners
// ---------------------------------------------------------------------------

/// Something that runs external commands. An exit status other than 0 is an outcome like any other:
/// the caller decides what it means.
pub trait CommandRunner: Sized {
    /// Whether a runner can answer `call` with `out` and be `post` afterwards. One that says nothing
    /// about itself can do anything.
    open spec fn does(pre: Self, call: CallView, out: OutputView, post: Self) -> bool {
        true
    }

    /// Whether a runner can answer the search for `program` with `found` and be `post` afterwards.
    open spec fn finds(pre: Self, program: Seq<char>, found: bool, post: Self) -> bool {
        true
    }

    /// Runs `program` with `args` and returns what it left behind.
    fn run(&mut self, program: &str, args: &[&str]) -> (r: Output)
        ensures
            Self::does(*old(self), command(program@, str_texts(args@)), r@, *final(self)),
    ;

    /// Runs `program` with `args`, its output going to the terminal. A runner that has no terminal
    /// runs it as [`run`](Self::run) does.
    fn run_streaming(&mut self, program: &str, args: &[&str]) -> (r: Output)
        ensures
            Self::does(*old(self), command(program@, str_texts(args@)), r@, *final(self)),
    {
        self.run(program, args)
    }

    /// Whether `program` can be started by its name.
    fn has_command(&mut self, program: &str) -> (r: bool)
        ensures
            Self::finds(*old(self), program@, r, *final(self)),
    ;
}

/// A runner, and the log of what it was asked. The log is kept for contracts only: it is no part of
/// the running program.
pub struct Logged<R: CommandRunner> {
    pub inner: R,
    log: Ghost<Seq<Event>>,
}

/// Whether an exchange can turn the runner `pre` into `post`.
pub open spec fn went<R: CommandRunner>(pre: R, e: Event, post: R) -> bool {
    match e {
        Event::Ran(call, out) => R::does(pre, call, out, post),
        Event::Streamed(call, out) => R::does(pre, call, out, post),
        Event::Looked(program, found) => R::finds(pre, program, found, post),
    }
}

impl<R: CommandRunner> Logged<R> {
    /// Every exchange so far, in order.
    pub closed spec fn events(&self) -> Seq<Event> {
        self.log@
    }

    /// The runner as it is.
    pub closed spec fn current(&self) -> R {
        self.inner
    }

    /// What an exchange can do to the runner.
    pub open spec fn course() -> spec_fn(R, Event, R) -> bool {
        |pre: R, e: Event, post: R| went(pre, e, post)
    }

    /// Whether `post` is this runner after it was asked what the log of `post` holds more, and
    /// nothing else.
    pub open spec fn leads_to(self, post: Self) -> bool {
        continued(Self::course(), self.current(), self.events(), post.current(), post.events())
    }

    /// A runner that was asked nothing yet.
    pub fn new(inner: R) -> (r: Self)
        ensures
            r.current() == inner,
            r.events() == Seq::<Event>::empty(),
    {
        Logged { inner, log: Ghost(Seq::empty()) }
    }

    /// Runs `program` with `args` and returns what it left behind.
    pub fn run(&mut self, program: &str, args: &[&str]) -> (r: Output)
        ensures
            R::does(
                old(self).current(),
                command(program@, str_texts(args@)),
                r@,
                final(self).current(),
            ),
            final(self).events() == old(self).events().push(
                Event::Ran(command(program@, str_texts(args@)), r@),
            ),
            old(self).leads_to(*final(self)),
    {
        let ghost before = *self;
        let out = self.inner.run(program, args);
        let ghost e = Event::Ran(command(program@, str_texts(args@)), out@);
        self.log = Ghost(self.log@.push(e));
        proof {
            lemma_one_entry(Self::course(), before.inner, before.events(), e, self.inner);
        }
        out
    }

    /// Runs `program` with `args`, its output going to the terminal.
    pub fn run_streaming(&mut self, program: &str, args: &[&str]) -> (r: Output)
        ensures
            R::does(
                old(self).current(),
                command(program@, str_texts(args@)),
                r@,
                final(self).current(),
            ),
            final(self).events() == old(self).events().push(
                Event::Streamed(command(program@, str_texts(args@)), r@),
            ),
            old(self).leads_to(*final(self)),
    {
        let ghost before = *self;
        let out = self.inner.run_streaming(program, args);
        let ghost e = Event::Streamed(command(program@, str_texts(args@)), out@);
        self.log = Ghost(self.log@.push(e));
        proof {
            lemma_one_entry(Self::course(), before.inner, before.events(), e, self.inner);
        }
        out
    }

    /// Whether `program` can be started by its name.
    pub fn has_command(&mut self, program: &str) -> (r: bool)
        ensures
            R::finds(old(self).current(), program@, r, final(self).current()),
            final(self).events() == old(self).events().push(Event::Looked(program@, r)),
            old(self).leads_to(*final(self)),
    {
        let ghost before = *self;
        let found = self.inner.has_command(program);
        let ghost e = Event::Looked(program@, found);
        self.log = Ghost(self.log@.push(e));
        proof {
            lemma_one_entry(Self::course(), before.inner, before.events(), e, self.inner);
        }
        found
    }

    /// Whether `program` with `args` exits with status 0.
    pub fn run_ok(&mut self, program: &str, args: &[&str]) -> (r: bool)
        ensures
            ran(old(self).events(), final(self).events(), command(program@, str_texts(args@))),
            r == final(self).events().last().output().ok(),
            old(self).leads_to(*final(self)),
    {
        self.run(program, args).success()
    }
}

/// A runner that is asked nothing stays as it is.
pub broadcast proof fn lemma_runner_at_rest<R: CommandRunner>(pre: Logged<R>, post: Logged<R>)
    requires
        pre == post,
    ensures
        #[trigger] pre.leads_to(post),
{
    lemma_at_rest(Logged::<R>::course(), pre.current(), pre.events());
}

/// What a runner is asked goes on with what it is asked next.
pub broadcast proof fn lemma_runner_goes_on<R: CommandRunner>(
    a: Logged<R>,
    b: Logged<R>,
    c: Logged<R>,
)
    requires
        #[trigger] a.leads_to(b),
        #[trigger] b.leads_to(c),
    ensures
        a.leads_to(c),
{
    lemma_continued_on(
        Logged::<R>::course(),
        a.current(),
        a.events(),
        b.current(),
        b.events(),
        c.current(),
        c.events(),
    );
}

pub broadcast group group_runner {
    lemma_runner_at_rest,
    lemma_runner_goes_on,
}

/// A scripted reply: it answers a call of `program` whose command line holds every part in
/// `match_all`, `remaining` times, or always if that is `None`.
#[derive(Debug)]
struct Stub {
    program: String,
    match_all: Vec<String>,
    output: Output,
    remaining: Option<u32>,
}

/// What a scripted reply holds.
#[verifier::ext_equal]
pub struct StubView {
    pub program: Seq<char>,
    pub match_all: Seq<Seq<char>>,
    pub output: OutputView,
    pub remaining: Option<u32>,
}

impl View for Stub {
    type V = StubView;

    closed spec fn view(&self) -> StubView {
        StubView {
            program: self.program@,
            match_all: texts(self.match_all@),
            output: self.output@,
            remaining: self.remaining,
        }
    }
}

impl StubView {
    /// Whether the reply is meant for `call`.
    pub open spec fn fits(self, call: CallView) -> bool {
        &&& self.program == call.program
        &&& forall|i: int|
            0 <= i < self.match_all.len() ==> contains(call.line(), #[trigger] self.match_all[i])
    }

    /// Whether the reply is meant for `call` and not used up.
    pub open spec fn answers(self, call: CallView) -> bool {
        self.fits(call) && self.remaining != Some(0u32)
    }

    /// The reply after it has been given once more.
    pub open spec fn used(self) -> StubView {
        StubView {
            remaining: match self.remaining {
                Some(n) => Some((n - 1) as u32),
                None => None,
            },
            ..self
        }
    }
}

impl Stub {
    fn fits(&self, program: &str, line: &str, Ghost(call): Ghost<CallView>) -> (r: bool)
        requires
            program@ == call.program,
            line@ == call.line(),
        ensures
            r == self@.fits(call),
    {
        if !same(self.program.as_str(), program) {
            return false;
        }
        for i in 0..self.match_all.len()
            invariant
                line@ == call.line(),
                forall|j: int|
                    0 <= j < i ==> contains(call.line(), #[trigger] self@.match_all[j]),
        {
            if !has_part(line, self.match_all[i].as_str()) {
                assert(!contains(call.line(), self@.match_all[i as int]));
                return false;
            }
        }
        true
    }
}

/// A runner that answers from a script and records every call. A call that no reply of the script
/// answers succeeds and prints nothing, unless another default status is set.
pub struct MockRunner {
    stubs: Vec<Stub>,
    commands: Vec<String>,
    calls: Vec<Call>,
    default_status: i32,
}

/// What a [`MockRunner`] holds.
#[verifier::ext_equal]
pub struct MockView {
    pub stubs: Seq<StubView>,
    pub commands: Seq<Seq<char>>,
    pub calls: Seq<CallView>,
    pub default_status: i32,
}

impl View for MockRunner {
    type V = MockView;

    closed spec fn view(&self) -> MockView {
        MockView {
            stubs: self.stubs@.map_values(|s: Stub| s@),
            commands: texts(self.commands@),
            calls: call_views(self.calls@),
            default_status: self.default_status,
        }
    }
}

impl MockView {
    /// The place of the first reply from place `i` on that answers `call`.
    pub open spec fn first(self, call: CallView, i: int) -> Option<int>
        decreases self.stubs.len() - i,
    {
        if i < 0 || i >= self.stubs.len() {
            None
        } else if self.stubs[i].answers(call) {
            Some(i)
        } else {
            self.first(call, i + 1)
        }
    }

    /// What the script answers to `call`.
    pub open spec fn reply(self, call: CallView) -> OutputView {
        match self.first(call, 0) {
            Some(i) => self.stubs[i].output,
            None => OutputView { status: self.default_status, stdout: seq![], stderr: seq![] },
        }
    }

    /// The script and the record after `call`.
    pub open spec fn after(self, call: CallView) -> MockView {
        MockView {
            calls: self.calls.push(call),
            stubs: match self.first(call, 0) {
                Some(i) => self.stubs.update(i, self.stubs[i].used()),
                None => self.stubs,
            },
            ..self
        }
    }

    /// The script and the record after some calls.
    pub open spec fn after_all(self, calls: Seq<CallView>) -> MockView
        decreases calls.len(),
    {
        if calls.len() == 0 {
            self
        } else {
            self.after_all(calls.drop_last()).after(calls.last())
        }
    }

    /// The script without the reply at place `k`.
    pub open spec fn without(self, k: int) -> MockView {
        MockView { stubs: self.stubs.remove(k), ..self }
    }

    /// The script with one more reply.
    pub open spec fn with_stub(self, stub: StubView) -> MockView {
        MockView { stubs: self.stubs.push(stub), ..self }
    }
}

/// The calls of one program, in order.
pub open spec fn calls_of(calls: Seq<CallView>, program: Seq<char>) -> Seq<CallView>
    decreases calls.len(),
{
    if calls.len() == 0 {
        seq![]
    } else {
        let before = calls_of(calls.drop_last(), program);
        if calls.last().program == program {
            before.push(calls.last())
        } else {
            before
        }
    }
}

impl MockRunner {
    /// A mock with an empty script that knows no commands.
    pub fn new() -> (r: Self)
        ensures
            r@ == (MockView { stubs: seq![], commands: seq![], calls: seq![], default_status: 0 }),
    {
        let r = MockRunner {
            stubs: Vec::new(),
            commands: Vec::new(),
            calls: Vec::new(),
            default_status: 0,
        };
        assert(r@ =~= MockView {
            stubs: seq![],
            commands: seq![],
            calls: seq![],
            default_status: 0,
        });
        r
    }

    /// The same mock with `program` known.
    pub fn with_command(self, program: &str) -> (r: Self)
        ensures
            r@ == (MockView { commands: self@.commands.push(program@), ..self@ }),
    {
        let mut r = self;
        r.commands.push(program.to_string());
        assert(r@ =~= MockView { commands: self@.commands.push(program@), ..self@ });
        r
    }

    fn with_reply(
        self,
        program: &str,
        match_all: &[&str],
        output: Output,
        remaining: Option<u32>,
    ) -> (r: Self)
        ensures
            r@ == self@.with_stub(
                StubView {
                    program: program@,
                    match_all: str_texts(match_all@),
                    output: output@,
                    remaining,
                },
            ),
    {
        let mut r = self;
        let stub = Stub {
            program: program.to_string(),
            match_all: owned(match_all),
            output,
            remaining,
        };
        r.stubs.push(stub);
        assert(r@ =~= self@.with_stub(stub@));
        r
    }

    /// The same mock with one more reply: a status and what is printed.
    pub fn stub(self, program: &str, match_all: &[&str], status: i32, stdout: &str) -> (r: Self)
        ensures
            r@ == self@.with_stub(
                StubView {
                    program: program@,
                    match_all: str_texts(match_all@),
                    output: OutputView { status, stdout: stdout@, stderr: seq![] },
                    remaining: None,
                },
            ),
    {
        let output = Output { status, stdout: stdout.to_string(), stderr: String::new() };
        assert(output@ =~= OutputView { status, stdout: stdout@, stderr: seq![] });
        self.with_reply(program, match_all, output, None)
    }

    /// The same mock with one more reply: a status and what is printed on the error stream.
    pub fn stub_stderr(self, program: &str, match_all: &[&str], status: i32, stderr: &str) -> (r:
        Self)
        ensures
            r@ == self@.with_stub(
                StubView {
                    program: program@,
                    match_all: str_texts(match_all@),
                    output: OutputView { status, stdout: seq![], stderr: stderr@ },
                    remaining: None,
                },
            ),
    {
        let output = Output { status, stdout: String::new(), stderr: stderr.to_string() };
        assert(output@ =~= OutputView { status, stdout: seq![], stderr: stderr@ });
        self.with_reply(program, match_all, output, None)
    }

    /// As [`stub_stderr`](Self::stub_stderr), but the reply is given at most `times` times; then
    /// the replies after it, or the default, take over.
    pub fn stub_stderr_once(
        self,
        program: &str,
        match_all: &[&str],
        status: i32,
        stderr: &str,
        times: u32,
    ) -> (r: Self)
        ensures
            r@ == self@.with_stub(
                StubView {
                    program: program@,
                    match_all: str_texts(match_all@),
                    output: OutputView { status, stdout: seq![], stderr: stderr@ },
                    remaining: Some(times),
                },
            ),
    {
        let output = Output { status, stdout: String::new(), stderr: stderr.to_string() };
        assert(output@ =~= OutputView { status, stdout: seq![], stderr: stderr@ });
        self.with_reply(program, match_all, output, Some(times))
    }

    /// The same mock with another status for calls that the script does not answer.
    pub fn default_status(self, status: i32) -> (r: Self)
        ensures
            r@ == (MockView { default_status: status, ..self@ }),
    {
        let mut r = self;
        r.default_status = status;
        assert(r@ =~= MockView { default_status: status, ..self@ });
        r
    }

    /// Every recorded call, in order.
    pub fn calls(&self) -> (r: Vec<Call>)
        ensures
            call_views(r@) == self@.calls,
    {
        let mut r: Vec<Call> = Vec::new();
        for i in 0..self.calls.len()
            invariant
                r@.len() == i,
                forall|j: int| 0 <= j < i ==> (#[trigger] r@[j])@ == self.calls@[j]@,
        {
            r.push(self.calls[i].clone());
        }
        assert(call_views(r@) =~= self@.calls);
        r
    }

    /// The recorded calls of `program`, in order.
    pub fn calls_to(&self, program: &str) -> (r: Vec<Call>)
        ensures
            call_views(r@) == calls_of(self@.calls, program@),
    {
        let mut r: Vec<Call> = Vec::new();
        let ghost all = self@.calls;
        assert(call_views(r@) =~= calls_of(all.take(0), program@));
        for i in 0..self.calls.len()
            invariant
                all == call_views(self.calls@),
                call_views(r@) == calls_of(all.take(i as int), program@),
        {
            let ghost before = call_views(r@);
            assert(all.take(i + 1).drop_last() == all.take(i as int));
            if same(self.calls[i].program.as_str(), program) {
                let c = self.calls[i].clone();
                r.push(c);
                assert(call_views(r@) =~= before.push(c@));
            }
        }
        assert(all.take(all.len() as int) == all);
        r
    }

    /// Whether the command line of a recorded call holds `needle`.
    pub fn any_call_contains(&self, needle: &str) -> (r: bool)
        ensures
            r == exists|i: int|
                0 <= i < self@.calls.len() && contains((#[trigger] self@.calls[i]).line(), needle@),
    {
        for i in 0..self.calls.len()
            invariant
                forall|j: int|
                    0 <= j < i ==> !contains((#[trigger] self@.calls[j]).line(), needle@),
        {
            let line = line_of(self.calls[i].program.as_str(), &self.calls[i].args);
            assert(self@.calls[i as int] == self.calls@[i as int]@);
            if has_part(line.as_str(), needle) {
                return true;
            }
        }
        false
    }

    /// Uses the reply at place `i` once more.
    fn use_reply(&mut self, i: usize) -> (r: Output)
        requires
            i < old(self)@.stubs.len(),
            old(self)@.stubs[i as int].remaining != Some(0u32),
        ensures
            r@ == old(self)@.stubs[i as int].output,
            final(self)@ == (MockView {
                stubs: old(self)@.stubs.update(i as int, old(self)@.stubs[i as int].used()),
                ..old(self)@
            }),
    {
        let ghost before = self@;
        assert(before.stubs[i as int] == self.stubs@[i as int]@);
        if let Some(n) = self.stubs[i].remaining {
            self.stubs[i].remaining = Some(n - 1);
        }
        assert(self@ =~= MockView {
            stubs: before.stubs.update(i as int, before.stubs[i as int].used()),
            ..before
        });
        self.stubs[i].output.clone()
    }
}

impl CommandRunner for MockRunner {
    open spec fn does(pre: Self, call: CallView, out: OutputView, post: Self) -> bool {
        out == pre@.reply(call) && post@ == pre@.after(call)
    }

    open spec fn finds(pre: Self, program: Seq<char>, found: bool, post: Self) -> bool {
        found == pre@.commands.contains(program) && post@ == pre@
    }

    fn run(&mut self, program: &str, args: &[&str]) -> (r: Output)
        ensures
            r@ == old(self)@.reply(command(program@, str_texts(args@))),
            final(self)@ == old(self)@.after(command(program@, str_texts(args@))),
    {
        let ghost call = command(program@, str_texts(args@));
        let ghost before = self@;
        let list = owned(args);
        let line = line_of(program, &list);
        self.calls.push(Call { program: program.to_string(), args: list });
        let ghost recorded = MockView { calls: before.calls.push(call), ..before };
        assert(self@ =~= recorded);
        let n: usize = self.stubs.len();
        for i in 0..n
            invariant
                n == before.stubs.len(),
                n == self.stubs@.len(),
                program@ == call.program,
                line@ == call.line(),
                call == command(program@, str_texts(args@)),
                before == old(self)@,
                recorded == (MockView { calls: before.calls.push(call), ..before }),
                self@ == recorded,
                before.first(call, 0) == before.first(call, i as int),
        {
            assert(before.stubs[i as int] == self.stubs@[i as int]@);
            if self.stubs[i].fits(program, line.as_str(), Ghost(call)) {
                let spent = matches!(self.stubs[i].remaining, Some(0));
                if !spent {
                    assert(before.first(call, 0) == Some(i as int));
                    let out = self.use_reply(i);
                    assert(self@ =~= before.after(call));
                    return out;
                }
            }
        }
        let out = Output {
            status: self.default_status,
            stdout: String::new(),
            stderr: String::new(),
        };
        assert(out@ =~= before.reply(call));
        assert(self@ =~= before.after(call));
        out
    }

    fn has_command(&mut self, program: &str) -> (r: bool)
        ensures
            r == old(self)@.commands.contains(program@),
            final(self)@ == old(self)@,
    {
        has_text(&self.commands, program)
    }
}

/// The first reply of a script that answers a call is the one that is given, and the replies before
/// it do not answer.
pub proof fn law_the_first_match_wins(m: MockView, call: CallView, from: int)
    requires
        0 <= from <= m.stubs.len(),
    ensures
        match m.first(call, from) {
            Some(i) => from <= i < m.stubs.len() && m.stubs[i].answers(call) && forall|j: int|
                from <= j < i ==> !(#[trigger] m.stubs[j]).answers(call),
            None => forall|j: int|
                from <= j < m.stubs.len() ==> !(#[trigger] m.stubs[j]).answers(call),
        },
    decreases m.stubs.len() - from,
{
    if from < m.stubs.len() && !m.stubs[from].answers(call) {
        law_the_first_match_wins(m, call, from + 1);
    }
}

/// How many of the calls a reply is meant for.
pub open spec fn fitting(stub: StubView, calls: Seq<CallView>) -> nat
    decreases calls.len(),
{
    if calls.len() == 0 {
        0
    } else {
        fitting(stub, calls.drop_last()) + if stub.fits(calls.last()) {
            1nat
        } else {
            0
        }
    }
}

/// Whether the reply at place `k` is the first one that is meant for `call`, if it is meant for it.
pub open spec fn comes_first(m: MockView, k: int, call: CallView) -> bool {
    m.stubs[k].fits(call) ==> forall|j: int| 0 <= j < k ==> !(#[trigger] m.stubs[j]).fits(call)
}

/// A reply that does not answer a call can be taken out: the same reply is then found one place
/// earlier, if it stood behind.
proof fn lemma_first_without(m: MockView, k: int, call: CallView, i: int)
    requires
        0 <= k < m.stubs.len(),
        !m.stubs[k].answers(call),
        0 <= i <= m.stubs.len(),
    ensures
        m.without(k).first(
            call,
            if i <= k {
                i
            } else {
                i - 1
            },
        ) == match m.first(call, i) {
            Some(x) => Some(
                if x < k {
                    x
                } else {
                    x - 1
                },
            ),
            None => None,
        },
    decreases m.stubs.len() - i,
{
    if i < m.stubs.len() && !m.stubs[i].answers(call) {
        lemma_first_without(m, k, call, i + 1);
    }
}

/// A reply that does not answer a call does not matter for what is answered.
proof fn lemma_reply_without(m: MockView, k: int, call: CallView)
    requires
        0 <= k < m.stubs.len(),
        !m.stubs[k].answers(call),
    ensures
        m.reply(call) == m.without(k).reply(call),
{
    lemma_first_without(m, k, call, 0);
    law_the_first_match_wins(m, call, 0);
}

/// A call leaves the script as it is but for how often one reply may still be given.
proof fn lemma_after_keeps(m: MockView, call: CallView)
    ensures
        m.after(call).stubs.len() == m.stubs.len(),
        forall|j: int|
            #![trigger m.after(call).stubs[j]]
            0 <= j < m.stubs.len() ==> {
                &&& m.after(call).stubs[j] == (StubView {
                    remaining: m.after(call).stubs[j].remaining,
                    ..m.stubs[j]
                })
                &&& m.first(call, 0) != Some(j) ==> m.after(call).stubs[j] == m.stubs[j]
            },
{
    law_the_first_match_wins(m, call, 0);
}

/// A reply that may be given `n` times is given to exactly the first `n` calls that it is meant for,
/// wherever it stands in the script, as long as no reply before it is meant for one of them. Calls
/// that it is not meant for do not use it up. Those, and the calls after the first `n`, are answered
/// as if it were not in the script.
pub proof fn law_a_bounded_reply_runs_out(
    m: MockView,
    k: int,
    n: u32,
    calls: Seq<CallView>,
    call: CallView,
)
    requires
        0 <= k < m.stubs.len(),
        m.stubs[k].remaining == Some(n),
        forall|i: int| 0 <= i < calls.len() ==> comes_first(m, k, #[trigger] calls[i]),
        comes_first(m, k, call),
    ensures
        ({
            let now = m.after_all(calls);
            let used = fitting(m.stubs[k], calls);
            &&& now.stubs.len() == m.stubs.len()
            &&& now.stubs[k] == (StubView {
                remaining: Some(
                    if used < n {
                        (n - used) as u32
                    } else {
                        0
                    },
                ),
                ..m.stubs[k]
            })
            &&& if m.stubs[k].fits(call) && used < n {
                now.reply(call) == m.stubs[k].output
            } else {
                now.reply(call) == now.without(k).reply(call)
            }
        }),
{
    lemma_bounded_reply(m, k, n, calls);
    let now = m.after_all(calls);
    law_the_first_match_wins(now, call, 0);
    if m.stubs[k].fits(call) && fitting(m.stubs[k], calls) < n {
        assert(now.stubs[k].fits(call));
        assert forall|j: int| 0 <= j < k implies !(#[trigger] now.stubs[j]).answers(call) by {
            assert(now.stubs[j].match_all == m.stubs[j].match_all);
            assert(!m.stubs[j].fits(call));
        }
        assert(now.first(call, 0) == Some(k));
    } else {
        assert(now.stubs[k].fits(call) == m.stubs[k].fits(call));
        lemma_reply_without(now, k, call);
    }
}

/// What some calls leave of a reply that may be given `n` times.
proof fn lemma_bounded_reply(m: MockView, k: int, n: u32, calls: Seq<CallView>)
    requires
        0 <= k < m.stubs.len(),
        m.stubs[k].remaining == Some(n),
        forall|i: int| 0 <= i < calls.len() ==> comes_first(m, k, #[trigger] calls[i]),
    ensures
        ({
            let now = m.after_all(calls);
            let used = fitting(m.stubs[k], calls);
            &&& now.stubs.len() == m.stubs.len()
            &&& forall|j: int|
                0 <= j < m.stubs.len() ==> #[trigger] now.stubs[j] == (StubView {
                    remaining: now.stubs[j].remaining,
                    ..m.stubs[j]
                })
            &&& now.stubs[k].remaining == Some(
                if used < n {
                    (n - used) as u32
                } else {
                    0
                },
            )
        }),
    decreases calls.len(),
{
    if calls.len() > 0 {
        let before = calls.drop_last();
        let c = calls.last();
        assert forall|i: int| 0 <= i < before.len() implies comes_first(
            m,
            k,
            #[trigger] before[i],
        ) by {
            assert(before[i] == calls[i]);
        }
        assert(comes_first(m, k, calls[calls.len() - 1]));
        lemma_bounded_reply(m, k, n, before);
        let then = m.after_all(before);
        lemma_after_keeps(then, c);
        law_the_first_match_wins(then, c, 0);
        assert(then.stubs[k].fits(c) == m.stubs[k].fits(c));
        if m.stubs[k].fits(c) && fitting(m.stubs[k], before) < n {
            assert forall|j: int| 0 <= j < k implies !(#[trigger] then.stubs[j]).answers(c) by {
                assert(then.stubs[j].match_all == m.stubs[j].match_all);
                assert(!m.stubs[j].fits(c));
            }
            assert(then.first(c, 0) == Some(k));
        }
        let now = m.after_all(calls);
        assert(now == then.after(c));
        assert forall|j: int| 0 <= j < m.stubs.len() implies #[trigger] now.stubs[j] == (StubView {
            remaining: now.stubs[j].remaining,
            ..m.stubs[j]
        }) by {
            assert(then.stubs[j] == (StubView {
                remaining: then.stubs[j].remaining,
                ..m.stubs[j]
            }));
        }
    }
}

/// A call changes nothing but the record and the reply that it uses.
pub proof fn law_a_call_is_recorded(m: MockView, call: CallView)
    ensures
        m.after(call).calls == m.calls.push(call),
        m.after(call).commands == m.commands,
        m.after(call).default_status == m.default_status,
        m.after(call).stubs.len() == m.stubs.len(),
        m.first(call, 0) is None ==> m.after(call).stubs == m.stubs,
{
    law_the_first_match_wins(m, call, 0);
}

/// The commands in a stretch of a log, in order.
pub open spec fn commands_in(log: Seq<Event>) -> Seq<CallView>
    decreases log.len(),
{
    if log.len() == 0 {
        seq![]
    } else {
        let before = commands_in(log.drop_last());
        match log.last() {
            Event::Ran(call, _) => before.push(call),
            Event::Streamed(call, _) => before.push(call),
            Event::Looked(_, _) => before,
        }
    }
}

/// A runner whose log did not grow is the runner that it was: nothing was run and nothing looked up.
pub proof fn law_a_log_that_stays_tells_of_nothing<R: CommandRunner>(
    pre: Logged<R>,
    post: Logged<R>,
)
    requires
        pre.leads_to(post),
        pre.events().len() == post.events().len(),
    ensures
        pre.current() == post.current(),
{
    lemma_nothing_added(
        Logged::<R>::course(),
        pre.current(),
        pre.events(),
        post.current(),
        post.events(),
    );
}

/// Whether the exchange at place `i` of a stretch of a log is what the script, used by the commands
/// before it, answers.
pub open spec fn as_scripted(m: MockView, log: Seq<Event>, i: int) -> bool {
    let now = m.after_all(commands_in(log.take(i)));
    match log[i] {
        Event::Ran(call, out) => out == now.reply(call),
        Event::Streamed(call, out) => out == now.reply(call),
        Event::Looked(program, found) => found == now.commands.contains(program),
    }
}

proof fn lemma_mock_replayed(pre: MockRunner, log: Seq<Event>, post: MockRunner)
    requires
        replayed(Logged::<MockRunner>::course(), pre, log, post),
    ensures
        post@ == pre@.after_all(commands_in(log)),
        forall|i: int| 0 <= i < log.len() ==> #[trigger] as_scripted(pre@, log, i),
    decreases log.len(),
{
    let course = Logged::<MockRunner>::course();
    if log.len() > 0 {
        let before = log.drop_last();
        let mid = choose|mid: MockRunner|
            replayed(course, pre, before, mid) && #[trigger] goes(course, mid, log.last(), post);
        lemma_mock_replayed(pre, before, mid);
        assert(went(mid, log.last(), post));
        let calls = commands_in(log);
        if !(log.last() is Looked) {
            assert(calls.drop_last() =~= commands_in(before));
        }
        assert forall|i: int| 0 <= i < log.len() implies #[trigger] as_scripted(pre@, log, i) by {
            assert(log.take(i) =~= before.take(i));
            if i < before.len() {
                assert(as_scripted(pre@, before, i));
            } else {
                assert(before.take(i) =~= before);
            }
        }
    }
}

proof fn lemma_calls_after(m: MockView, calls: Seq<CallView>)
    ensures
        m.after_all(calls).calls == m.calls + calls,
    decreases calls.len(),
{
    if calls.len() == 0 {
        assert(m.calls + calls =~= m.calls);
    } else {
        lemma_calls_after(m, calls.drop_last());
        assert(m.calls + calls =~= (m.calls + calls.drop_last()).push(calls.last()));
    }
}

/// What a log says was run is what the mock behind it has recorded, and what it says came back is
/// what the script answers.
pub proof fn law_the_mock_records_what_the_log_says(
    pre: Logged<MockRunner>,
    post: Logged<MockRunner>,
)
    requires
        pre.leads_to(post),
    ensures
        ({
            let log = since(pre.events(), post.events());
            &&& post.current()@ == pre.current()@.after_all(commands_in(log))
            &&& post.current()@.calls == pre.current()@.calls + commands_in(log)
            &&& forall|i: int|
                0 <= i < log.len() ==> #[trigger] as_scripted(pre.current()@, log, i)
        }),
{
    let log = since(pre.events(), post.events());
    reveal(continued);
    lemma_mock_replayed(pre.current(), log, post.current());
    lemma_calls_after(pre.current()@, commands_in(log));
}

} // verus!
