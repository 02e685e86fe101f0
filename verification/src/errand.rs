//! External commands that have to succeed before a run goes on.

use crate::error::{fatal, Error, ErrorView};
use crate::passages::{group_contains, lemma_begins};
use crate::runner::{
    asks, command, grew, lemma_since, since, Ask, CallView, CommandRunner, Logged, OutputView,
};
use crate::text::{
    begins, contains, copy_texts, has_part, occurs_at, owned, str_texts, texts, trim, trimmed,
};
use vstd::prelude::*;

verus! {

/// A command that has to succeed.
#[derive(Debug, PartialEq, Eq)]
pub struct Errand {
    /// What it is for.
    pub title: String,
    pub program: String,
    pub args: Vec<String>,
    /// Whether its output goes to the terminal.
    pub streaming: bool,
    /// A failure that says this is none; if it is empty, every failure is one.
    pub tolerated: String,
}

/// What an [`Errand`] holds.
#[verifier::ext_equal]
pub struct ErrandView {
    pub title: Seq<char>,
    pub program: Seq<char>,
    pub args: Seq<Seq<char>>,
    pub streaming: bool,
    pub tolerated: Seq<char>,
}

impl View for Errand {
    type V = ErrandView;

    open spec fn view(&self) -> ErrandView {
        ErrandView {
            title: self.title@,
            program: self.program@,
            args: texts(self.args@),
            streaming: self.streaming,
            tolerated: self.tolerated@,
        }
    }
}

impl Clone for Errand {
    fn clone(&self) -> (r: Self)
        ensures
            r@ == self@,
    {
        Errand {
            title: self.title.clone(),
            program: self.program.clone(),
            args: copy_texts(&self.args),
            streaming: self.streaming,
            tolerated: self.tolerated.clone(),
        }
    }
}

/// What each errand of a list holds.
pub open spec fn errand_views(v: Seq<Errand>) -> Seq<ErrandView> {
    v.map_values(|e: Errand| e@)
}

impl ErrandView {
    /// A command whose every failure counts.
    pub open spec fn plain(title: Seq<char>, program: Seq<char>, args: Seq<Seq<char>>) -> ErrandView {
        ErrandView { title, program, args, streaming: false, tolerated: seq![] }
    }

    /// The command.
    pub open spec fn call(self) -> CallView {
        command(self.program, self.args)
    }

    /// What the runner is asked.
    pub open spec fn ask(self) -> Ask {
        if self.streaming {
            Ask::Stream(self.call())
        } else {
            Ask::Run(self.call())
        }
    }

    /// Whether an outcome is good enough to go on.
    pub open spec fn accepts(self, out: OutputView) -> bool {
        out.ok() || self.tolerated.len() > 0 && contains(out.stderr, self.tolerated)
    }

    /// What an outcome ends the run with.
    pub open spec fn error(self, out: OutputView) -> Option<ErrorView> {
        if self.accepts(out) {
            None
        } else if trimmed(out.stderr).len() == 0 {
            Some(fatal(self.title + " failed"@))
        } else {
            Some(fatal(self.title + " failed: "@ + trimmed(out.stderr)))
        }
    }
}

impl Errand {
    /// A command whose every failure counts.
    pub fn new(title: &str, program: &str, args: &[&str]) -> (r: Self)
        ensures
            r@ == ErrandView::plain(title@, program@, str_texts(args@)),
    {
        let tolerated = String::new();
        assert(tolerated@ =~= seq![]);
        Errand {
            title: title.to_string(),
            program: program.to_string(),
            args: owned(args),
            streaming: false,
            tolerated,
        }
    }

    /// The same command, a failure that says `part` being none.
    pub fn tolerating(self, part: &str) -> (r: Self)
        ensures
            r@ == (ErrandView { tolerated: part@, ..self@ }),
    {
        let mut r = self;
        r.tolerated = part.to_string();
        r
    }

    /// The same command, its output going to the terminal.
    pub fn streamed(self) -> (r: Self)
        ensures
            r@ == (ErrandView { streaming: true, ..self@ }),
    {
        let mut r = self;
        r.streaming = true;
        r
    }

    /// Runs the command, its output going to the terminal where that is wanted.
    pub fn perform<R: CommandRunner>(&self, runner: &mut Logged<R>) -> (r: Result<(), Error>)
        ensures
            grew(old(runner).events(), final(runner).events()),
            ({
                let log = since(old(runner).events(), final(runner).events());
                &&& old(runner).leads_to(*final(runner))
                &&& asks(log) == seq![self@.ask()]
                &&& match r {
                    Ok(_) => self@.error(log[0].output()) is None,
                    Err(e) => self@.error(log[0].output()) == Some(e@),
                }
            }),
    {
        let ghost before = runner.events();
        let mut args: Vec<&str> = Vec::new();
        for i in 0..self.args.len()
            invariant
                args@.len() == i,
                forall|j: int| 0 <= j < i ==> (#[trigger] args@[j])@ == self.args@[j]@,
        {
            args.push(self.args[i].as_str());
        }
        assert(str_texts(args@) =~= texts(self.args@));
        let out = if self.streaming {
            runner.run_streaming(self.program.as_str(), args.as_slice())
        } else {
            runner.run(self.program.as_str(), args.as_slice())
        };
        proof {
            let e = runner.events().last();
            lemma_since(before, seq![e]);
            assert(before + seq![e] =~= before.push(e));
            assert(asks(seq![e]) =~= seq![self@.ask()]);
        }
        if out.success() {
            return Ok(());
        }
        if self.tolerated.as_str().unicode_len() > 0 && has_part(
            out.stderr.as_str(),
            self.tolerated.as_str(),
        ) {
            return Ok(());
        }
        let why = trim(out.stderr.as_str());
        let message = if why.unicode_len() == 0 {
            self.title.clone().concat(" failed")
        } else {
            self.title.clone().concat(" failed: ").concat(why)
        };
        Err(Error::die(message.as_str()))
    }
}

/// Adds an errand to a list.
pub fn add_errand(v: &mut Vec<Errand>, e: Errand)
    ensures
        errand_views(final(v)@) == errand_views(old(v)@).push(e@),
{
    let ghost before = errand_views(v@);
    v.push(e);
    assert(errand_views(v@) =~= before.push(e@));
}

/// An errand is done if its command succeeds, or fails with what it tolerates, and else ends the run
/// with an error that says what it was for and what the command said.
pub proof fn law_when_an_errand_is_done(e: ErrandView, out: OutputView)
    ensures
        out.status == 0 ==> e.error(out) is None,
        out.status != 0 && e.tolerated.len() == 0 ==> e.error(out) is Some,
        out.status != 0 && e.tolerated.len() > 0 ==> (e.error(out) is None <==> contains(
            out.stderr,
            e.tolerated,
        )),
        e.error(out) is Some ==> {
            &&& (e.error(out)->0).code == 1
            &&& begins((e.error(out)->0).message, e.title)
            &&& contains((e.error(out)->0).message, trimmed(out.stderr))
        },
        e.call().program == e.program,
        e.call().args == e.args,
        e.ask() == if e.streaming {
            Ask::Stream(e.call())
        } else {
            Ask::Run(e.call())
        },
{
    broadcast use group_contains;

    let why = trimmed(out.stderr);
    let m = e.title + " failed: "@ + why;
    assert(m.subrange(0, e.title.len() as int) =~= e.title);
    lemma_begins(e.title, " failed"@);
    if why.len() == 0 {
        let short = e.title + " failed"@;
        assert(short.subrange(0, 0) =~= why);
        assert(occurs_at(short, why, 0));
    }
}

} // verus!
