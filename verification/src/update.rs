//! Whether a newer release of the harness is published.

use crate::model::SourceEngine;
use crate::passages::{group_contains, lemma_spanning, lemma_where_a_char_stands};
use crate::runner::{
    asks, command, grew, group_runner, lemma_passes, lemma_since, since, Ask, CommandRunner, Event,
    Logged,
};
use crate::text::{
    after, contains, decimal, find, first_at, law_number_reads_back, lemma_decimal, lemma_first_at,
    lemma_one_piece, lemma_pieces_join, occurs_at, parse_number, parsed, pieces, split, str_texts,
    texts, trim, trimmed, white, Sep,
};
use vstd::prelude::*;

verus! {

broadcast use group_runner;

/// The repository whose releases are looked at.
pub const RELEASE_REPO: &'static str = "AndreKurait/opensearch-migrations-demo";

/// `s` without the letters `v` that it starts with.
pub open spec fn without_v(s: Seq<char>) -> Seq<char>
    decreases s.len(),
{
    if s.len() > 0 && s.first() == 'v' {
        without_v(s.drop_first())
    } else {
        s
    }
}

/// The numbers of a version, as text: what stands before the first hyphen or plus sign, split at
/// the dots.
pub open spec fn version_parts(v: Seq<char>) -> Seq<Seq<char>> {
    pieces(pieces(without_v(trimmed(v)), Sep::Either('-', '+'))[0], Sep::Is('.'))
}

/// One number of a version; 0 where it is missing or no number.
pub open spec fn version_part(parts: Seq<Seq<char>>, i: int) -> u64 {
    if i < parts.len() {
        match parsed(parts[i]) {
            Some(n) => n,
            None => 0,
        }
    } else {
        0
    }
}

/// The major, minor and patch number of a version.
pub open spec fn semver(v: Seq<char>) -> (u64, u64, u64) {
    let p = version_parts(v);
    (version_part(p, 0), version_part(p, 1), version_part(p, 2))
}

/// Whether version `a` comes after version `b`.
pub open spec fn later(a: (u64, u64, u64), b: (u64, u64, u64)) -> bool {
    ||| a.0 > b.0
    ||| a.0 == b.0 && a.1 > b.1
    ||| a.0 == b.0 && a.1 == b.1 && a.2 > b.2
}

fn drop_v<'a>(s: &'a str) -> (r: &'a str)
    ensures
        r@ == without_v(s@),
{
    let n: usize = s.unicode_len();
    let mut i: usize = 0;
    assert(s@.skip(0) =~= s@);
    while i < n && s.get_char(i) == 'v'
        invariant
            n == s@.len(),
            i <= n,
            without_v(s@) == without_v(s@.skip(i as int)),
        decreases n - i,
    {
        assert(s@.skip(i as int).drop_first() =~= s@.skip(i + 1));
        i = i + 1;
    }
    after(s, i)
}

fn part_of(parts: &Vec<String>, i: usize) -> (r: u64)
    ensures
        r == version_part(texts(parts@), i as int),
{
    if i < parts.len() {
        match parse_number(parts[i].as_str()) {
            Some(n) => n,
            None => 0,
        }
    } else {
        0
    }
}

/// The major, minor and patch number of a version. A leading `v` and what follows a hyphen or a plus
/// sign are passed over; a part that is no number counts as 0.
pub fn parse_semver(v: &str) -> (r: (u64, u64, u64))
    ensures
        r == semver(v@),
{
    let core = split(drop_v(trim(v)), Sep::Either('-', '+'));
    assert(texts(core@)[0] == core@[0]@);
    let parts = split(core[0].as_str(), Sep::Is('.'));
    (part_of(&parts, 0), part_of(&parts, 1), part_of(&parts, 2))
}

/// Whether `latest` is a newer release than `current`.
pub fn is_newer(latest: &str, current: &str) -> (r: bool)
    ensures
        r == later(semver(latest@), semver(current@)),
{
    let (a0, a1, a2): (u64, u64, u64) = parse_semver(latest);
    let (b0, b1, b2): (u64, u64, u64) = parse_semver(current);
    a0 > b0 || (a0 == b0 && (a1 > b1 || (a1 == b1 && a2 > b2)))
}

/// The first text in double quotes in `s`.
pub open spec fn first_quoted(s: Seq<char>) -> Option<Seq<char>> {
    match first_at(s, "\""@, 0) {
        Some(a) => {
            let t = s.skip(a + 1);
            match first_at(t, "\""@, 0) {
                Some(b) => Some(t.take(b)),
                None => None,
            }
        },
        None => None,
    }
}

/// The text in double quotes that follows the first occurrence of `key` and a colon.
pub open spec fn value_after(json: Seq<char>, key: Seq<char>) -> Option<Seq<char>> {
    match first_at(json, key, 0) {
        Some(i) => {
            let rest = json.skip(i + key.len());
            match first_at(rest, ":"@, 0) {
                Some(c) => first_quoted(rest.skip(c + 1)),
                None => None,
            }
        },
        None => None,
    }
}

fn quoted_in(s: &str) -> (r: Option<String>)
    ensures
        r is Some <==> first_quoted(s@) is Some,
        r is Some ==> r->0@ == first_quoted(s@)->0,
{
    proof {
        reveal_strlit("\"");
        lemma_first_at(s@, "\""@, 0);
    }
    match find(s, "\"") {
        Some(a) => {
            let t = after(s, a + 1);
            proof {
                lemma_first_at(t@, "\""@, 0);
            }
            match find(t, "\"") {
                Some(b) => {
                    assert(t@.subrange(0, b as int) =~= t@.take(b as int));
                    Some(t.substring_char(0, b).to_string())
                },
                None => None,
            }
        },
        None => None,
    }
}

/// The text in double quotes that follows the first occurrence of `key` and a colon.
pub fn find_value(json: &str, key: &str) -> (r: Option<String>)
    ensures
        r is Some <==> value_after(json@, key@) is Some,
        r is Some ==> r->0@ == value_after(json@, key@)->0,
{
    proof {
        reveal_strlit(":");
        lemma_first_at(json@, key@, 0);
    }
    match find(json, key) {
        Some(i) => {
            let rest = after(json, i + key.unicode_len());
            proof {
                lemma_first_at(rest@, ":"@, 0);
            }
            match find(rest, ":") {
                Some(c) => quoted_in(after(rest, c + 1)),
                None => None,
            }
        },
        None => None,
    }
}

/// The tag in the description of a release.
pub open spec fn tag_in(json: Seq<char>) -> Option<Seq<char>> {
    value_after(json, "\"tag_name\""@)
}

/// The tag in the description of a release.
pub fn parse_latest_tag(json: &str) -> (r: Option<String>)
    ensures
        r is Some <==> tag_in(json@) is Some,
        r is Some ==> r->0@ == tag_in(json@)->0,
{
    find_value(json, "\"tag_name\"")
}

/// What a check for a newer release found.
#[derive(Debug, Clone, PartialEq, Eq)]
pub enum Update {
    /// A newer release is published.
    Available { latest: String },
    /// None is newer.
    UpToDate,
    /// It could not be found out, or was not asked for.
    Unknown,
}

/// What an [`Update`] holds.
#[verifier::ext_equal]
pub enum UpdateView {
    Available { latest: Seq<char> },
    UpToDate,
    Unknown,
}

impl View for Update {
    type V = UpdateView;

    open spec fn view(&self) -> UpdateView {
        match self {
            Update::Available { latest } => UpdateView::Available { latest: latest@ },
            Update::UpToDate => UpdateView::UpToDate,
            Update::Unknown => UpdateView::Unknown,
        }
    }
}

/// The command that asks for the latest release.
pub open spec fn release_query() -> Ask {
    Ask::Run(
        command(
            "curl"@,
            seq![
                "-fsSL"@,
                "--max-time"@,
                "3"@,
                "-H"@,
                "Accept: application/vnd.github+json"@,
                "https://api.github.com/repos/"@ + RELEASE_REPO@ + "/releases/latest"@,
            ],
        ),
    )
}

/// What is asked by a check, given the answers so far.
pub open spec fn check_asks(opted_out: bool, log: Seq<Event>) -> Seq<Ask> {
    if opted_out {
        seq![]
    } else if !log[0].found() {
        seq![Ask::Find("curl"@)]
    } else {
        seq![Ask::Find("curl"@), release_query()]
    }
}

/// What a check finds.
pub open spec fn check_result(opted_out: bool, log: Seq<Event>, current: Seq<char>) -> UpdateView {
    if opted_out || !log[0].found() || !log[1].output().ok() {
        UpdateView::Unknown
    } else {
        match tag_in(log[1].output().stdout) {
            Some(tag) => if later(semver(tag), semver(current)) {
                UpdateView::Available { latest: tag }
            } else {
                UpdateView::UpToDate
            },
            None => UpdateView::Unknown,
        }
    }
}

/// Asks whether a release newer than `current` is published. Whatever goes wrong, and if the check
/// was opted out of, the result is [`Update::Unknown`].
pub fn check<R: CommandRunner>(runner: &mut Logged<R>, current: &str, opted_out: bool) -> (r: Update)
    ensures
        grew(old(runner).events(), final(runner).events()),
        old(runner).leads_to(*final(runner)),
        asks(since(old(runner).events(), final(runner).events())) == check_asks(
            opted_out,
            since(old(runner).events(), final(runner).events()),
        ),
        r@ == check_result(
            opted_out,
            since(old(runner).events(), final(runner).events()),
            current@,
        ),
{
    let ghost before = runner.events();
    if opted_out {
        proof {
            lemma_since(before, seq![]);
            assert(before + seq![] =~= before);
            assert(asks(seq![]) =~= seq![]);
        }
        return Update::Unknown;
    }
    let found = runner.has_command("curl");
    let ghost first = Event::Looked("curl"@, found);
    if !found {
        proof {
            lemma_since(before, seq![first]);
            assert(before + seq![first] =~= before.push(first));
            assert(asks(seq![first]) =~= seq![Ask::Find("curl"@)]);
        }
        return Update::Unknown;
    }
    let url = "https://api.github.com/repos/".to_string().concat(RELEASE_REPO).concat(
        "/releases/latest",
    );
    let args: [&str; 6] = [
        "-fsSL",
        "--max-time",
        "3",
        "-H",
        "Accept: application/vnd.github+json",
        url.as_str(),
    ];
    let out = runner.run("curl", &args);
    proof {
        let call = command("curl"@, str_texts(args@));
        let second = Event::Ran(call, out@);
        lemma_since(before, seq![first, second]);
        assert(before + seq![first, second] =~= before.push(first).push(second));
        assert(Ask::Run(call) == release_query()) by {
            assert(str_texts(args@) =~= seq![
                "-fsSL"@,
                "--max-time"@,
                "3"@,
                "-H"@,
                "Accept: application/vnd.github+json"@,
                "https://api.github.com/repos/"@ + RELEASE_REPO@ + "/releases/latest"@,
            ]);
        }
        assert(asks(seq![first, second]) =~= seq![Ask::Find("curl"@), release_query()]);
    }
    if !out.success() {
        return Update::Unknown;
    }
    match parse_latest_tag(out.stdout.as_str()) {
        Some(tag) => if is_newer(tag.as_str(), current) {
            Update::Available { latest: tag }
        } else {
            Update::UpToDate
        },
        None => Update::Unknown,
    }
}

/// The hint that a newer release can be installed.
pub open spec fn hint_text(latest: Seq<char>, current: Seq<char>) -> Seq<char> {
    "A newer ma-demo is available: "@ + latest + " (you have "@ + current
        + "). Upgrade:\n  curl -fsSL https://github.com/"@ + RELEASE_REPO@
        + "/releases/latest/download/install.sh | bash"@
}

/// The hint that a newer release can be installed.
pub fn upgrade_hint(latest: &str, current: &str) -> (r: String)
    ensures
        r@ == hint_text(latest@, current@),
{
    "A newer ma-demo is available: ".to_string().concat(latest).concat(" (you have ").concat(
        current,
    ).concat("). Upgrade:\n  curl -fsSL https://github.com/").concat(RELEASE_REPO).concat(
        "/releases/latest/download/install.sh | bash",
    )
}

/// Releases are strictly ordered: none is newer than itself, of two at most one is newer, and newer
/// than newer is newer.
pub proof fn law_newer_is_a_strict_order(a: Seq<char>, b: Seq<char>, c: Seq<char>)
    ensures
        !later(semver(a), semver(a)),
        !(later(semver(a), semver(b)) && later(semver(b), semver(a))),
        later(semver(a), semver(b)) && later(semver(b), semver(c)) ==> later(semver(a), semver(c)),
        semver(a) != semver(b) ==> later(semver(a), semver(b)) || later(semver(b), semver(a)),
{
}

proof fn lemma_trimmed_bare(s: Seq<char>)
    requires
        s.len() > 0,
        !white(s.first()),
        !white(s.last()),
    ensures
        trimmed(s) == s,
{
}

/// A build of a version compares like the version itself, whatever is said after the hyphen or the
/// plus sign: a published release is not newer than a development build of the same version.
pub proof fn law_builds_compare_by_their_version(v: Seq<char>, mark: char, build: Seq<char>)
    requires
        v.len() > 0,
        v.first() != 'v',
        forall|i: int| 0 <= i < v.len() ==> !white(#[trigger] v[i]) && v[i] != '-' && v[i] != '+',
        mark == '-' || mark == '+',
        build.len() > 0 ==> !white(build.last()),
    ensures
        semver(v + seq![mark] + build) == semver(v),
        !later(semver(v), semver(v + seq![mark] + build)),
{
    let sep = Sep::Either('-', '+');
    let tail = seq![mark] + build;
    let w = v + seq![mark] + build;
    assert(w =~= v + tail);
    lemma_trimmed_bare(v);
    assert(w.first() == v.first());
    assert(w.last() == tail.last());
    lemma_trimmed_bare(w);
    lemma_one_piece(v, sep);
    lemma_pieces_join(v, mark, build, sep);
    assert(w =~= v.push(mark) + build);
}

/// A version written with its three numbers.
pub open spec fn version_text(n: (u64, u64, u64)) -> Seq<char> {
    decimal(n.0 as nat) + seq!['.'] + decimal(n.1 as nat) + seq!['.'] + decimal(n.2 as nat)
}

/// A version written with its three numbers reads back as those numbers.
pub proof fn law_a_version_reads_back(n: (u64, u64, u64))
    ensures
        semver(version_text(n)) == n,
{
    let (a, b, c) = (decimal(n.0 as nat), decimal(n.1 as nat), decimal(n.2 as nat));
    let v = version_text(n);
    lemma_decimal(n.0 as nat);
    lemma_decimal(n.1 as nat);
    lemma_decimal(n.2 as nat);
    law_number_reads_back(n.0);
    law_number_reads_back(n.1);
    law_number_reads_back(n.2);
    assert(v.first() == a[0]);
    assert(v.last() == c.last());
    lemma_trimmed_bare(v);
    assert(without_v(v) == v);
    assert forall|i: int| 0 <= i < v.len() implies !Sep::Either('-', '+').hits(#[trigger] v[i]) by {
        let m = a.len() as int;
        let k = m + 1 + b.len();
        if i < m {
            assert(v[i] == a[i]);
        } else if m < i < k {
            assert(v[i] == b[i - m - 1]);
        } else if i > k {
            assert(v[i] == c[i - k - 1]);
        }
    }
    lemma_one_piece(v, Sep::Either('-', '+'));
    let dot = Sep::Is('.');
    lemma_one_piece(a, dot);
    lemma_one_piece(b, dot);
    lemma_one_piece(c, dot);
    let two = a.push('.') + b;
    lemma_pieces_join(a, '.', b, dot);
    lemma_pieces_join(two, '.', c, dot);
    assert(two.push('.') + c =~= v);
    assert(pieces(v, dot) =~= seq![a, b, c]);
}

/// The numbers of the versions that can be chosen for an engine.
pub open spec fn version_numbers(e: SourceEngine) -> Seq<(u64, u64, u64)> {
    match e {
        SourceEngine::Elasticsearch => seq![
            (8u64, 17u64, 0u64),
            (7, 17, 22),
            (7, 10, 2),
            (6, 8, 23),
            (5, 6, 16),
        ],
        SourceEngine::OpenSearch => seq![(2u64, 19u64, 0u64), (2, 15, 0), (1, 3, 20)],
        SourceEngine::Solr => seq![(9u64, 7u64, 0u64), (8, 11, 3)],
    }
}

proof fn lemma_version_numbers(e: SourceEngine)
    ensures
        e.version_texts().len() == version_numbers(e).len(),
        forall|i: int|
            0 <= i < e.version_texts().len() ==> semver(#[trigger] e.version_texts()[i])
                == version_numbers(e)[i],
{
    let t = e.version_texts();
    let n = version_numbers(e);
    reveal_with_fuel(decimal, 2);
    reveal_strlit("8.17.0");
    reveal_strlit("7.17.22");
    reveal_strlit("7.10.2");
    reveal_strlit("6.8.23");
    reveal_strlit("5.6.16");
    reveal_strlit("2.19.0");
    reveal_strlit("2.15.0");
    reveal_strlit("1.3.20");
    reveal_strlit("9.7.0");
    reveal_strlit("8.11.3");
    assert(t[0] =~= version_text(n[0]));
    assert(t[1] =~= version_text(n[1]));
    if e.http() {
        assert(t[2] =~= version_text(n[2]));
    }
    if e == SourceEngine::Elasticsearch {
        assert(t[3] =~= version_text(n[3]));
        assert(t[4] =~= version_text(n[4]));
    }
    assert forall|i: int| 0 <= i < t.len() implies semver(#[trigger] t[i]) == n[i] by {
        law_a_version_reads_back(n[i]);
    }
}

/// The versions that can be chosen for an engine are listed strictly newest first, so none is listed
/// twice, and no version can be chosen for two engines. Elasticsearch goes from 8.17.0 to 5.6.16,
/// OpenSearch from 2.19.0 to 1.3.20, Solr from 9.7.0 to 8.11.3.
pub proof fn law_versions_are_listed_newest_first(e: SourceEngine, f: SourceEngine)
    ensures
        e.version_texts().len() > 0,
        forall|i: int, j: int|
            0 <= i < j < e.version_texts().len() ==> later(
                semver(#[trigger] e.version_texts()[i]),
                semver(#[trigger] e.version_texts()[j]),
            ),
        e != f ==> forall|i: int, j: int|
            0 <= i < e.version_texts().len() && 0 <= j < f.version_texts().len()
                ==> #[trigger] e.version_texts()[i] != #[trigger] f.version_texts()[j],
        match e {
            SourceEngine::Elasticsearch => e.version_texts().first() == "8.17.0"@
                && e.version_texts().last() == "5.6.16"@,
            SourceEngine::OpenSearch => e.version_texts().first() == "2.19.0"@
                && e.version_texts().last() == "1.3.20"@,
            SourceEngine::Solr => e.version_texts().first() == "9.7.0"@
                && e.version_texts().last() == "8.11.3"@,
        },
{
    lemma_version_numbers(e);
    lemma_version_numbers(f);
    let (n, m) = (version_numbers(e), version_numbers(f));
    assert(forall|i: int, j: int| 0 <= i < j < n.len() ==> later(#[trigger] n[i], #[trigger] n[j]));
    if e != f {
        assert(forall|i: int, j: int|
            0 <= i < n.len() && 0 <= j < m.len() ==> #[trigger] n[i] != #[trigger] m[j]);
    }
}

/// The value of a key is what stands in quotes after it, as long as the key stands nowhere before.
#[verifier::spinoff_prover]
pub proof fn law_a_value_is_read_after_its_key(
    before: Seq<char>,
    key: Seq<char>,
    value: Seq<char>,
    rest: Seq<char>,
)
    requires
        !value.contains('"'),
        ({
            let json = before + key + ":\""@ + value + "\""@ + rest;
            forall|i: int| 0 <= i < before.len() ==> !#[trigger] occurs_at(json, key, i)
        }),
    ensures
        value_after(before + key + ":\""@ + value + "\""@ + rest, key) == Some(value),
{
    let json = before + key + ":\""@ + value + "\""@ + rest;
    let n = before.len() as int;
    reveal_strlit(":\"");
    reveal_strlit(":");
    reveal_strlit("\"");
    assert(":"@ =~= seq![':'] && "\""@ =~= seq!['"'] && ":\""@ =~= seq![':', '"']);
    assert(json.subrange(n, n + key.len()) =~= key);
    assert(occurs_at(json, key, n));
    lemma_first_at(json, key, 0);
    assert(first_at(json, key, 0) == Some(n));
    let tail = json.skip(n + key.len());
    let body = seq!['"'] + value + seq!['"'] + rest;
    assert(tail =~= seq![':'] + body);
    lemma_where_a_char_stands(tail, ':', 0);
    assert(first_at(tail, ":"@, 0) == Some(0int));
    assert(tail.skip(1) =~= body);
    lemma_where_a_char_stands(body, '"', 0);
    assert(first_at(body, "\""@, 0) == Some(0int));
    let inner = value + seq!['"'] + rest;
    assert(body.skip(1) =~= inner);
    let m = value.len() as int;
    lemma_where_a_char_stands(inner, '"', m);
    lemma_first_at(inner, "\""@, 0);
    let k = first_at(inner, "\""@, 0)->0;
    lemma_where_a_char_stands(inner, '"', k);
    if k < m {
        assert(value[k] == '"');
    }
    assert(inner.take(m) =~= value);
}

/// The tag of a release is read from its description.
pub proof fn law_the_tag_of_a_release_is_read(tag: Seq<char>, rest: Seq<char>)
    requires
        !tag.contains('"'),
    ensures
        tag_in("{"@ + "\"tag_name\""@ + ":\""@ + tag + "\""@ + rest) == Some(tag),
{
    let json = "{"@ + "\"tag_name\""@ + ":\""@ + tag + "\""@ + rest;
    reveal_strlit("{");
    reveal_strlit("\"tag_name\"");
    assert(json[0] == '{');
    if occurs_at(json, "\"tag_name\""@, 0) {
        assert(json.subrange(0, 10)[0] == json[0]);
    }
    law_a_value_is_read_after_its_key("{"@, "\"tag_name\""@, tag, rest);
}

/// A check tells of a release if and only if one was asked for, the tool for it is there, the answer
/// came back, and the release is newer; it then names that release. It asks nothing where it was
/// opted out of.
pub proof fn law_what_a_check_tells(
    opted_out: bool,
    log: Seq<Event>,
    current: Seq<char>,
    tag: Seq<char>,
    rest: Seq<char>,
)
    requires
        !tag.contains('"'),
        log[1].output().stdout == "{"@ + "\"tag_name\""@ + ":\""@ + tag + "\""@ + rest,
    ensures
        ({
            let r = check_result(opted_out, log, current);
            let answered = !opted_out && log[0].found() && log[1].output().status == 0;
            &&& answered && later(semver(tag), semver(current)) ==> r == (UpdateView::Available {
                latest: tag,
            })
            &&& answered && !later(semver(tag), semver(current)) ==> r == UpdateView::UpToDate
            &&& !answered ==> r == UpdateView::Unknown
        }),
        opted_out ==> check_asks(opted_out, log).len() == 0,
        !opted_out ==> check_asks(opted_out, log).len() > 0 && check_asks(opted_out, log)[0]
            == Ask::Find("curl"@),
        !opted_out && log[0].found() ==> check_asks(opted_out, log).len() == 2 && ({
            let call = check_asks(opted_out, log)[1]->Run_0;
            &&& call.program == "curl"@
            &&& call.passes("--max-time"@, "3"@)
            &&& call.args.last() == "https://api.github.com/repos/"@
                + "AndreKurait/opensearch-migrations-demo"@ + "/releases/latest"@
        }),
        !opted_out && !log[0].found() ==> check_asks(opted_out, log).len() == 1,
{
    law_the_tag_of_a_release_is_read(tag, rest);
    lemma_passes(release_query()->Run_0, 1, "--max-time"@, "3"@);
}

/// The hint names the release and the version that runs.
pub proof fn law_the_hint_names_both_versions(latest: Seq<char>, current: Seq<char>)
    ensures
        contains(hint_text(latest, current), "A newer ma-demo is available: "@ + latest + " "@),
        contains(hint_text(latest, current), "(you have "@ + current + ")"@),
{
    broadcast use group_contains;

    let a = "A newer ma-demo is available: "@;
    let b = " (you have "@;
    let c = "). Upgrade:\n  curl -fsSL https://github.com/"@;
    reveal_strlit(" (you have ");
    reveal_strlit("(you have ");
    reveal_strlit("). Upgrade:\n  curl -fsSL https://github.com/");
    reveal_strlit(" ");
    reveal_strlit(")");
    assert(b.take(1) =~= " "@ && b.skip(1) =~= "(you have "@ && c.take(1) =~= ")"@);
    let e = Seq::<char>::empty();
    lemma_spanning(e, a, latest, b, 0, 1);
    assert(a.skip(0) =~= a);
    assert(e + a + latest + b =~= a + latest + b);
    lemma_spanning(a + latest, b, current, c, 1, 1);
}

} // verus!
