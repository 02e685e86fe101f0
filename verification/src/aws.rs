//! AWS profiles, regions and the identity that a deployment runs under.

use crate::model::{Answers, AnswersView};
use crate::passages::{lemma_chomped, solid};
use crate::runner::{command, lemma_passes, ran, CallView, CommandRunner, Logged, OutputView};
use crate::text::{
    after, begins, begins_with, chomped, has_text, lemma_one_piece, lemma_pieces_join, lines,
    lines_of, pieces, same, split, str_texts, texts, trim, trimmed, white, Sep,
};
use vstd::prelude::*;

verus! {

/// The regions that are offered, the most used first.
pub const COMMON_REGIONS: [&'static str; 8] = [
    "us-east-1",
    "us-east-2",
    "us-west-2",
    "eu-west-1",
    "eu-central-1",
    "ap-south-1",
    "ap-southeast-1",
    "ap-northeast-1",
];

// ---------------------------------------------------------------------------
// The environment of commands
// ---------------------------------------------------------------------------

/// What the environment of every command holds of a plan: the profile and the region, where they
/// were chosen.
pub open spec fn exported(a: AnswersView) -> Seq<(Seq<char>, Seq<char>)> {
    let profile = match a.aws_profile {
        Some(p) => seq![("AWS_PROFILE"@, p)],
        None => seq![],
    };
    let region = match a.aws_region {
        Some(r) => seq![("AWS_REGION"@, r)],
        None => seq![],
    };
    profile + region
}

/// What the environment of every command holds of a plan: the profile and the region, where they
/// were chosen.
pub fn exports(answers: &Answers) -> (r: Vec<(String, String)>)
    ensures
        r@.map_values(|p: (String, String)| (p.0@, p.1@)) == exported(answers@),
{
    let mut r: Vec<(String, String)> = Vec::new();
    if let Some(p) = &answers.aws_profile {
        r.push(("AWS_PROFILE".to_string(), p.clone()));
    }
    if let Some(g) = &answers.aws_region {
        r.push(("AWS_REGION".to_string(), g.clone()));
    }
    assert(r@.map_values(|p: (String, String)| (p.0@, p.1@)) =~= exported(answers@));
    r
}

// ---------------------------------------------------------------------------
// Profiles
// ---------------------------------------------------------------------------

/// The profile whose section starts at `line`, if one does. In the configuration file a section is
/// headed `[profile NAME]`, or `[default]`; in the credentials file it is headed `[NAME]`.
pub open spec fn profile_in(line: Seq<char>, prefixed: bool) -> Option<Seq<char>> {
    let l = trimmed(line);
    if l.len() < 2 || l.first() != '[' || l.last() != ']' {
        None
    } else {
        let inner = l.subrange(1, l.len() - 1);
        let name = if prefixed && inner == "default"@ {
            inner
        } else if prefixed && begins(inner, "profile "@) {
            trimmed(inner.skip("profile "@.len() as int))
        } else {
            trimmed(inner)
        };
        if name.len() == 0 {
            None
        } else {
            Some(name)
        }
    }
}

/// The profiles whose sections start in `lines`, in order.
pub open spec fn profiles_in(lines: Seq<Seq<char>>, prefixed: bool) -> Seq<Seq<char>>
    decreases lines.len(),
{
    if lines.len() == 0 {
        seq![]
    } else {
        let before = profiles_in(lines.drop_last(), prefixed);
        match profile_in(lines.last(), prefixed) {
            Some(name) => before.push(name),
            None => before,
        }
    }
}

/// `found` with the names of `more` that it does not hold yet.
pub open spec fn merged(found: Seq<Seq<char>>, more: Seq<Seq<char>>) -> Seq<Seq<char>>
    decreases more.len(),
{
    if more.len() == 0 {
        found
    } else {
        let before = merged(found, more.drop_last());
        if before.contains(more.last()) {
            before
        } else {
            before.push(more.last())
        }
    }
}

/// `found` without the name `default`.
pub open spec fn without_default(found: Seq<Seq<char>>) -> Seq<Seq<char>>
    decreases found.len(),
{
    if found.len() == 0 {
        seq![]
    } else {
        let before = without_default(found.drop_last());
        if found.last() == "default"@ {
            before
        } else {
            before.push(found.last())
        }
    }
}

/// The profiles that a file names; none where there is no file.
pub open spec fn profiles_of(text: Option<Seq<char>>, prefixed: bool) -> Seq<Seq<char>> {
    match text {
        Some(t) => profiles_in(lines_of(t), prefixed),
        None => seq![],
    }
}

/// The profiles to choose from: `default`, then the others in the order in which the configuration
/// file and then the credentials file name them.
pub open spec fn profile_list(config: Option<Seq<char>>, credentials: Option<Seq<char>>) -> Seq<
    Seq<char>,
> {
    let found = merged(
        merged(seq![], profiles_of(config, true)),
        profiles_of(credentials, false),
    );
    seq!["default"@] + without_default(found)
}

fn profile_of(line: &str, prefixed: bool) -> (r: Option<String>)
    ensures
        r is Some <==> profile_in(line@, prefixed) is Some,
        r is Some ==> r->0@ == profile_in(line@, prefixed)->0,
{
    let l = trim(line);
    let n: usize = l.unicode_len();
    if n < 2 || l.get_char(0) != '[' || l.get_char(n - 1) != ']' {
        return None;
    }
    let inner = l.substring_char(1, n - 1);
    let name = if prefixed && same(inner, "default") {
        inner
    } else if prefixed && begins_with(inner, "profile ") {
        trim(after(inner, "profile ".unicode_len()))
    } else {
        trim(inner)
    };
    if name.unicode_len() == 0 {
        None
    } else {
        Some(name.to_string())
    }
}

/// The profiles that a configuration file (`prefixed`) or a credentials file names.
pub fn parse_profiles(text: &str, prefixed: bool) -> (r: Vec<String>)
    ensures
        texts(r@) == profiles_in(lines_of(text@), prefixed),
{
    let ls = lines(text);
    let ghost all = texts(ls@);
    let mut r: Vec<String> = Vec::new();
    assert(texts(r@) =~= profiles_in(all.take(0), prefixed));
    for i in 0..ls.len()
        invariant
            all == texts(ls@),
            texts(r@) == profiles_in(all.take(i as int), prefixed),
    {
        let ghost before = texts(r@);
        assert(all.take(i + 1).drop_last() =~= all.take(i as int));
        if let Some(name) = profile_of(ls[i].as_str(), prefixed) {
            r.push(name);
            assert(texts(r@) =~= before.push(name@));
        }
    }
    assert(all.take(all.len() as int) =~= all);
    r
}

fn merge(found: Vec<String>, more: &Vec<String>) -> (r: Vec<String>)
    ensures
        texts(r@) == merged(texts(found@), texts(more@)),
{
    let ghost start = texts(found@);
    let ghost all = texts(more@);
    let mut r = found;
    assert(all.take(0) =~= seq![]);
    for i in 0..more.len()
        invariant
            all == texts(more@),
            texts(r@) == merged(start, all.take(i as int)),
    {
        let ghost before = texts(r@);
        assert(all.take(i + 1).drop_last() =~= all.take(i as int));
        if !has_text(&r, more[i].as_str()) {
            r.push(more[i].clone());
            assert(texts(r@) =~= before.push(all[i as int]));
        }
    }
    assert(all.take(all.len() as int) =~= all);
    r
}

/// The profiles to choose from, given what stands in the configuration file and in the credentials
/// file, where there are such files. `default` is always there, and comes first.
pub fn list_profiles(config: Option<&str>, credentials: Option<&str>) -> (r: Vec<String>)
    ensures
        texts(r@) == profile_list(
            match config {
                Some(t) => Some(t@),
                None => None,
            },
            match credentials {
                Some(t) => Some(t@),
                None => None,
            },
        ),
{
    let mut found: Vec<String> = Vec::new();
    assert(texts(found@) =~= seq![]);
    let ghost c: Option<Seq<char>> = match config {
        Some(t) => Some(t@),
        None => None,
    };
    if let Some(t) = config {
        found = merge(found, &parse_profiles(t, true));
    }
    assert(texts(found@) == merged(seq![], profiles_of(c, true)));
    if let Some(t) = credentials {
        found = merge(found, &parse_profiles(t, false));
    }
    let ghost all = texts(found@);
    let mut r: Vec<String> = Vec::new();
    r.push("default".to_string());
    assert(texts(r@) =~= seq!["default"@] + without_default(all.take(0)));
    for i in 0..found.len()
        invariant
            all == texts(found@),
            texts(r@) == seq!["default"@] + without_default(all.take(i as int)),
    {
        let ghost before = texts(r@);
        assert(all.take(i + 1).drop_last() =~= all.take(i as int));
        if !same(found[i].as_str(), "default") {
            r.push(found[i].clone());
            assert(texts(r@) =~= before.push(all[i as int]));
            assert(texts(r@) =~= seq!["default"@] + without_default(all.take(i + 1)));
        }
    }
    assert(all.take(all.len() as int) =~= all);
    r
}

// ---------------------------------------------------------------------------
// Identity
// ---------------------------------------------------------------------------

/// The command that asks who the caller is.
pub open spec fn identity_query(profile: Seq<char>, region: Seq<char>) -> CallView {
    command(
        "aws"@,
        seq![
            "sts"@,
            "get-caller-identity"@,
            "--profile"@,
            profile,
            "--region"@,
            region,
            "--query"@,
            "Arn"@,
            "--output"@,
            "text"@,
        ],
    )
}

/// The identity that a reply names: none if the command failed or printed nothing but `None`.
pub open spec fn identity_in(out: OutputView) -> Option<Seq<char>> {
    let arn = trimmed(chomped(out.stdout));
    if out.ok() && arn.len() > 0 && arn != "None"@ {
        Some(arn)
    } else {
        None
    }
}

/// The identity of the caller for a profile and a region, if there are credentials that hold.
pub fn caller_identity<R: CommandRunner>(runner: &mut Logged<R>, profile: &str, region: &str) -> (r: Option<
    String,
>)
    ensures
        ran(old(runner).events(), final(runner).events(), identity_query(profile@, region@)),
        old(runner).leads_to(*final(runner)),
        r is Some <==> identity_in(final(runner).events().last().output()) is Some,
        r is Some ==> r->0@ == identity_in(final(runner).events().last().output())->0,
{
    let args: [&str; 10] = [
        "sts",
        "get-caller-identity",
        "--profile",
        profile,
        "--region",
        region,
        "--query",
        "Arn",
        "--output",
        "text",
    ];
    let out = runner.run("aws", &args);
    assert(str_texts(args@) =~= identity_query(profile@, region@).args);
    let arn = trim(out.trimmed_stdout());
    if out.success() && arn.unicode_len() > 0 && !same(arn, "None") {
        Some(arn.to_string())
    } else {
        None
    }
}

/// The account in an identity: its fifth part.
pub open spec fn account_in(arn: Seq<char>) -> Option<Seq<char>> {
    let p = pieces(arn, Sep::Is(':'));
    if p.len() > 4 && p[4].len() > 0 {
        Some(p[4])
    } else {
        None
    }
}

/// The account in an identity (`arn:aws:sts::ACCOUNT:...`), if it names one.
pub fn account_of(arn: &str) -> (r: Option<String>)
    ensures
        r is Some <==> account_in(arn@) is Some,
        r is Some ==> r->0@ == account_in(arn@)->0,
{
    let p = split(arn, Sep::Is(':'));
    assert(texts(p@).len() == p@.len());
    if p.len() > 4 && p[4].unicode_len() > 0 {
        Some(p[4].clone())
    } else {
        None
    }
}

// ---------------------------------------------------------------------------
// What holds of the profile list
// ---------------------------------------------------------------------------

proof fn lemma_merged(found: Seq<Seq<char>>, more: Seq<Seq<char>>, name: Seq<char>)
    ensures
        merged(found, more).contains(name) <==> found.contains(name) || more.contains(name),
        found.no_duplicates() ==> merged(found, more).no_duplicates(),
    decreases more.len(),
{
    if more.len() > 0 {
        let rest = more.drop_last();
        let before = merged(found, rest);
        lemma_merged(found, rest, name);
        lemma_merged(found, rest, more.last());
        assert(more == rest.push(more.last()));
        assert(more.contains(name) <==> rest.contains(name) || name == more.last()) by {
            if more.contains(name) {
                let i = choose|i: int| 0 <= i < more.len() && more[i] == name;
                if i < rest.len() {
                    assert(rest[i] == name);
                }
            }
            if rest.contains(name) {
                let i = choose|i: int| 0 <= i < rest.len() && rest[i] == name;
                assert(more[i] == name);
            }
            assert(more[more.len() - 1] == more.last());
        }
        if !before.contains(more.last()) {
            let after = before.push(more.last());
            assert(after.contains(name) <==> before.contains(name) || name == more.last()) by {
                if before.contains(name) {
                    let i = choose|i: int| 0 <= i < before.len() && before[i] == name;
                    assert(after[i] == name);
                }
                assert(after[before.len() as int] == more.last());
            }
        }
    }
}

proof fn lemma_without_default(found: Seq<Seq<char>>, name: Seq<char>)
    ensures
        without_default(found).contains(name) <==> found.contains(name) && name != "default"@,
        found.no_duplicates() ==> without_default(found).no_duplicates(),
    decreases found.len(),
{
    if found.len() > 0 {
        let rest = found.drop_last();
        let before = without_default(rest);
        lemma_without_default(rest, name);
        lemma_without_default(rest, found.last());
        assert(found.contains(name) <==> rest.contains(name) || name == found.last()) by {
            if found.contains(name) {
                let i = choose|i: int| 0 <= i < found.len() && found[i] == name;
                if i < rest.len() {
                    assert(rest[i] == name);
                }
            }
            if rest.contains(name) {
                let i = choose|i: int| 0 <= i < rest.len() && rest[i] == name;
                assert(found[i] == name);
            }
            assert(found[found.len() - 1] == found.last());
        }
        if found.last() != "default"@ {
            let after = before.push(found.last());
            assert(after.contains(name) <==> before.contains(name) || name == found.last()) by {
                if before.contains(name) {
                    let i = choose|i: int| 0 <= i < before.len() && before[i] == name;
                    assert(after[i] == name);
                }
                assert(after[before.len() as int] == found.last());
            }
            if found.no_duplicates() {
                assert(!rest.contains(found.last()));
            }
        }
    }
}

/// The list starts with `default`, names nothing twice, and names exactly `default` and what the
/// files name.
pub proof fn law_profiles_are_listed_once(
    config: Option<Seq<char>>,
    credentials: Option<Seq<char>>,
    name: Seq<char>,
)
    ensures
        profile_list(config, credentials)[0] == "default"@,
        profile_list(config, credentials).no_duplicates(),
        profile_list(config, credentials).contains(name) <==> name == "default"@ || profiles_of(
            config,
            true,
        ).contains(name) || profiles_of(credentials, false).contains(name),
{
    let first = merged(seq![], profiles_of(config, true));
    let found = merged(first, profiles_of(credentials, false));
    let rest = without_default(found);
    let all = seq!["default"@] + rest;
    lemma_merged(seq![], profiles_of(config, true), name);
    lemma_merged(first, profiles_of(credentials, false), name);
    lemma_without_default(found, name);
    lemma_without_default(found, "default"@);
    assert(all.no_duplicates()) by {
        assert forall|i: int, j: int| 0 <= i < j < all.len() implies all[i] != all[j] by {
            if i == 0 {
                assert(all[j] == rest[j - 1]);
            } else {
                assert(all[i] == rest[i - 1] && all[j] == rest[j - 1]);
            }
        }
    }
    assert(all.contains(name) <==> name == "default"@ || rest.contains(name)) by {
        if all.contains(name) {
            let i = choose|i: int| 0 <= i < all.len() && all[i] == name;
            if i > 0 {
                assert(rest[i - 1] == name);
            }
        }
        if rest.contains(name) {
            let i = choose|i: int| 0 <= i < rest.len() && rest[i] == name;
            assert(all[i + 1] == name);
        }
        assert(all[0] == "default"@);
    }
}

/// A section of the configuration file is headed `[profile NAME]`, one of the credentials file
/// `[NAME]`; a line that is not in brackets heads none.
pub proof fn law_a_section_names_its_profile(name: Seq<char>, line: Seq<char>, prefixed: bool)
    requires
        name.len() > 0,
        !white(name.first()),
        !white(name.last()),
    ensures
        profile_in(seq!['['] + "profile "@ + name + seq![']'], true) == Some(name),
        profile_in(seq!['['] + name + seq![']'], false) == Some(name),
        profile_in(seq!['['] + "default"@ + seq![']'], true) == Some("default"@),
        line.len() > 0 && !white(line.first()) && !white(line.last()) && (line.first() != '['
            || line.last() != ']') ==> profile_in(line, prefixed) is None,
{
    let a = seq!['['] + "profile "@ + name + seq![']'];
    assert(a.first() == '[' && a.last() == ']');
    assert(trimmed(a) == a);
    reveal_strlit("profile ");
    reveal_strlit("default");
    let inner = "profile "@ + name;
    assert(a.subrange(1, a.len() - 1) =~= inner);
    assert(inner.subrange(0, 8) =~= "profile "@);
    assert(inner.skip(8) =~= name);
    assert(inner[0] == 'p' && "default"@[0] == 'd');
    assert(trimmed(name) == name);
    let b = seq!['['] + name + seq![']'];
    assert(b.first() == '[' && b.last() == ']');
    assert(trimmed(b) == b);
    assert(b.subrange(1, b.len() - 1) =~= name);
    let c = seq!['['] + "default"@ + seq![']'];
    assert(c.first() == '[' && c.last() == ']');
    assert(trimmed(c) == c);
    assert(c.subrange(1, c.len() - 1) =~= "default"@);
}

/// The caller is who the reply names; a failed command, and a reply without a name, names nobody. The
/// caller is asked for with the profile and the region that are given.
pub proof fn law_the_caller_is_who_the_reply_names(
    out: OutputView,
    arn: Seq<char>,
    profile: Seq<char>,
    region: Seq<char>,
)
    requires
        solid(arn),
    ensures
        out.status == 0 && (out.stdout == arn || out.stdout == arn + seq!['\n']) ==> identity_in(out)
            == if arn == "None"@ {
            None
        } else {
            Some(arn)
        },
        out.status != 0 ==> identity_in(out) is None,
        out.stdout.len() == 0 ==> identity_in(out) is None,
        identity_query(profile, region).program == "aws"@,
        identity_query(profile, region).passes("sts"@, "get-caller-identity"@),
        identity_query(profile, region).passes("--profile"@, profile),
        identity_query(profile, region).passes("--region"@, region),
{
    assert(!white(arn[0]) && !white(arn[arn.len() - 1]));
    lemma_chomped(arn);
    assert(trimmed(arn) == arn);
    let call = identity_query(profile, region);
    lemma_passes(call, 0, "sts"@, "get-caller-identity"@);
    lemma_passes(call, 2, "--profile"@, profile);
    lemma_passes(call, 4, "--region"@, region);
}

/// The account of an identity is its fifth part.
pub proof fn law_the_account_is_the_fifth_part(
    p: Seq<char>,
    q: Seq<char>,
    r: Seq<char>,
    s: Seq<char>,
    account: Seq<char>,
    rest: Seq<char>,
)
    requires
        !p.contains(':'),
        !q.contains(':'),
        !r.contains(':'),
        !s.contains(':'),
        !account.contains(':'),
    ensures
        account_in(
            p + seq![':'] + q + seq![':'] + r + seq![':'] + s + seq![':'] + account + seq![':']
                + rest,
        ) == if account.len() > 0 {
            Some(account)
        } else {
            None
        },
{
    let sep = Sep::Is(':');
    let all = p + seq![':'] + q + seq![':'] + r + seq![':'] + s + seq![':'] + account + seq![':']
        + rest;
    lemma_no_colon(p);
    lemma_no_colon(q);
    lemma_no_colon(r);
    lemma_no_colon(s);
    lemma_no_colon(account);
    let t2 = p.push(':') + q;
    let t3 = t2.push(':') + r;
    let t4 = t3.push(':') + s;
    let t5 = t4.push(':') + account;
    lemma_pieces_join(p, ':', q, sep);
    lemma_pieces_join(t2, ':', r, sep);
    lemma_pieces_join(t3, ':', s, sep);
    lemma_pieces_join(t4, ':', account, sep);
    lemma_pieces_join(t5, ':', rest, sep);
    assert(t5.push(':') + rest =~= all);
    assert(pieces(t5, sep) =~= seq![p, q, r, s, account]);
    assert(pieces(all, sep)[4] == account);
}

proof fn lemma_no_colon(s: Seq<char>)
    requires
        !s.contains(':'),
    ensures
        pieces(s, Sep::Is(':')) == seq![s],
{
    assert forall|i: int| 0 <= i < s.len() implies !Sep::Is(':').hits(#[trigger] s[i]) by {
        assert(s.contains(s[i]));
    }
    lemma_one_piece(s, Sep::Is(':'));
}

/// What was chosen of profile and region is exported under the names that the tools know, and nothing
/// is exported that was not chosen.
pub proof fn law_what_was_chosen_is_exported(a: AnswersView, i: int)
    ensures
        a.aws_profile is Some ==> exported(a).contains(("AWS_PROFILE"@, a.aws_profile->0)),
        a.aws_region is Some ==> exported(a).contains(("AWS_REGION"@, a.aws_region->0)),
        0 <= i < exported(a).len() ==> (exported(a)[i].0 == "AWS_PROFILE"@ && a.aws_profile == Some(
            exported(a)[i].1,
        )) || (exported(a)[i].0 == "AWS_REGION"@ && a.aws_region == Some(exported(a)[i].1)),
{
    let e = exported(a);
    if a.aws_profile is Some {
        assert(e[0] == ("AWS_PROFILE"@, a.aws_profile->0));
    }
    if a.aws_region is Some {
        assert(e.last() == ("AWS_REGION"@, a.aws_region->0));
    }
}

/// The profiles that lines name are those of its sections.
proof fn lemma_sections(lines: Seq<Seq<char>>, prefixed: bool, name: Seq<char>)
    ensures
        profiles_in(lines, prefixed).contains(name) <==> exists|i: int|
            0 <= i < lines.len() && profile_in(#[trigger] lines[i], prefixed) == Some(name),
    decreases lines.len(),
{
    if lines.len() > 0 {
        let rest = lines.drop_last();
        let before = profiles_in(rest, prefixed);
        let all = profiles_in(lines, prefixed);
        lemma_sections(rest, prefixed, name);
        if before.contains(name) {
            let i = choose|i: int|
                0 <= i < rest.len() && profile_in(#[trigger] rest[i], prefixed) == Some(name);
            assert(lines[i] == rest[i]);
            let k = choose|k: int| 0 <= k < before.len() && before[k] == name;
            assert(all[k] == name);
        }
        if profile_in(lines.last(), prefixed) == Some(name) {
            assert(lines[lines.len() - 1] == lines.last());
            assert(all[all.len() - 1] == name);
        }
        if all.contains(name) && !before.contains(name) {
            assert(profile_in(lines.last(), prefixed) == Some(name)) by {
                let k = choose|k: int| 0 <= k < all.len() && all[k] == name;
                if k < before.len() {
                    assert(before[k] == name);
                }
            }
        }
        if exists|i: int|
            0 <= i < lines.len() && profile_in(#[trigger] lines[i], prefixed) == Some(name) {
            let i = choose|i: int|
                0 <= i < lines.len() && profile_in(#[trigger] lines[i], prefixed) == Some(name);
            if i < rest.len() {
                assert(rest[i] == lines[i]);
            }
        }
    }
}

/// Every section of the two files is offered as a profile, and nothing is offered but these and
/// `default`.
pub proof fn law_every_section_is_offered(
    config: Seq<char>,
    credentials: Seq<char>,
    name: Seq<char>,
)
    ensures
        profile_list(Some(config), Some(credentials)).contains(name) <==> name == "default"@ || (
        exists|i: int|
            0 <= i < lines_of(config).len() && profile_in(#[trigger] lines_of(config)[i], true)
                == Some(name)) || (exists|i: int|
            0 <= i < lines_of(credentials).len() && profile_in(
                #[trigger] lines_of(credentials)[i],
                false,
            ) == Some(name)),
        profile_list(None, None) == seq!["default"@],
{
    law_profiles_are_listed_once(Some(config), Some(credentials), name);
    lemma_sections(lines_of(config), true, name);
    lemma_sections(lines_of(credentials), false, name);
    assert(profile_list(None, None) =~= seq!["default"@]);
}

} // verus!
