//! Small helpers for the artifacts that are rendered.

use crate::text::{
    blanks, join, joined, lemma_one_piece, lemma_pieces_join, lines, lines_of, pieces, spaces,
    texts, Sep,
};
use vstd::prelude::*;

verus! {

/// `line` moved `n` spaces to the right; an empty line stays empty.
pub open spec fn moved(line: Seq<char>, n: nat) -> Seq<char> {
    if line.len() == 0 {
        line
    } else {
        blanks(n) + line
    }
}

/// `text` with every line that is not empty moved `n` spaces to the right.
pub open spec fn indented(text: Seq<char>, n: nat) -> Seq<char> {
    joined(lines_of(text).map_values(|l: Seq<char>| moved(l, n)), "\n"@)
}

/// `text` with every line that is not empty moved `n` spaces to the right.
pub fn indent(text: &str, n: usize) -> (r: String)
    ensures
        r@ == indented(text@, n as nat),
{
    let ls = lines(text);
    let pad = spaces(n);
    let mut r: Vec<String> = Vec::new();
    for i in 0..ls.len()
        invariant
            pad@ == blanks(n as nat),
            r@.len() == i,
            forall|j: int| 0 <= j < i ==> (#[trigger] r@[j])@ == moved(ls@[j]@, n as nat),
    {
        if ls[i].unicode_len() == 0 {
            r.push(ls[i].clone());
        } else {
            r.push(pad.clone().concat(ls[i].as_str()));
        }
    }
    assert(texts(r@) =~= texts(ls@).map_values(|l: Seq<char>| moved(l, n as nat)));
    join(&r, "\n")
}

/// Whether `c` may stand in a DNS label.
pub open spec fn label_char(c: char) -> bool {
    'a' <= c <= 'z' || '0' <= c <= '9' || c == '-'
}

/// Whether `s` is a DNS label: at most 63 lower-case letters, digits and hyphens, at least one, with
/// no hyphen at either end.
pub open spec fn dns_label(s: Seq<char>) -> bool {
    &&& 0 < s.len() <= 63
    &&& s.first() != '-'
    &&& s.last() != '-'
    &&& forall|i: int| 0 <= i < s.len() ==> label_char(#[trigger] s[i])
}

/// Whether `name` is a DNS label.
pub fn is_dns1123_label(name: &str) -> (r: bool)
    ensures
        r == dns_label(name@),
{
    let n: usize = name.unicode_len();
    if n == 0 || n > 63 {
        return false;
    }
    if name.get_char(0) == '-' || name.get_char(n - 1) == '-' {
        return false;
    }
    for i in 0..n
        invariant
            n == name@.len(),
            forall|j: int| 0 <= j < i ==> label_char(#[trigger] name@[j]),
    {
        let c: char = name.get_char(i);
        if !(('a' <= c && c <= 'z') || ('0' <= c && c <= '9') || c == '-') {
            assert(!label_char(name@[i as int]));
            return false;
        }
    }
    true
}

/// What stands for `c` between double quotes.
pub open spec fn escape(c: char) -> Seq<char> {
    if c == '\\' {
        seq!['\\', '\\']
    } else if c == '"' {
        seq!['\\', '"']
    } else {
        seq![c]
    }
}

/// What stands for `s` between double quotes.
pub open spec fn escaped(s: Seq<char>) -> Seq<char>
    decreases s.len(),
{
    if s.len() == 0 {
        s
    } else {
        escape(s.first()) + escaped(s.drop_first())
    }
}

/// `s` as a YAML scalar in double quotes.
pub open spec fn quoted(s: Seq<char>) -> Seq<char> {
    "\""@ + escaped(s) + "\""@
}

/// What a text between double quotes stands for: a backslash stands for the character after it.
pub open spec fn unescaped(s: Seq<char>) -> Seq<char>
    decreases s.len(),
{
    if s.len() == 0 {
        s
    } else if s.first() == '\\' && s.len() > 1 {
        seq![s[1]] + unescaped(s.skip(2))
    } else {
        seq![s.first()] + unescaped(s.drop_first())
    }
}

proof fn lemma_escaped_push(s: Seq<char>, c: char)
    ensures
        escaped(s.push(c)) == escaped(s) + escape(c),
    decreases s.len(),
{
    reveal_with_fuel(escaped, 2);
    if s.len() == 0 {
        assert(s.push(c).drop_first() =~= Seq::<char>::empty());
        assert(escaped(s.push(c)) =~= escaped(s) + escape(c));
    } else {
        lemma_escaped_push(s.drop_first(), c);
        assert(s.push(c).drop_first() =~= s.drop_first().push(c));
        assert(escaped(s.push(c)) =~= escaped(s) + escape(c));
    }
}

/// `s` as a YAML scalar in double quotes: backslashes and double quotes are escaped.
pub fn yaml_quote(s: &str) -> (r: String)
    ensures
        r@ == quoted(s@),
{
    proof {
        reveal_strlit("\\\\");
        reveal_strlit("\\\"");
    }
    let mut r: String = "\"".to_string();
    let n: usize = s.unicode_len();
    assert(r@ =~= "\""@ + escaped(s@.take(0)));
    for i in 0..n
        invariant
            n == s@.len(),
            "\\\\"@ =~= seq!['\\', '\\'],
            "\\\""@ =~= seq!['\\', '"'],
            r@ == "\""@ + escaped(s@.take(i as int)),
    {
        let ghost before = r@;
        let c: char = s.get_char(i);
        proof {
            lemma_escaped_push(s@.take(i as int), c);
        }
        assert(s@.take(i + 1) =~= s@.take(i as int).push(c));
        if c == '\\' {
            r.append("\\\\");
        } else if c == '"' {
            r.append("\\\"");
        } else {
            let one = s.substring_char(i, i + 1);
            assert(one@ =~= seq![c]);
            r.append(one);
        }
        assert(r@ =~= before + escape(c));
        assert(r@ =~= "\""@ + escaped(s@.take(i + 1)));
    }
    assert(s@.take(n as int) =~= s@);
    r.concat("\"")
}

/// Quoting loses nothing: what stands between the quotes stands for the text that was quoted.
pub proof fn law_quoting_can_be_undone(s: Seq<char>)
    ensures
        unescaped(escaped(s)) == s,
    decreases s.len(),
{
    if s.len() > 0 {
        let rest = s.drop_first();
        law_quoting_can_be_undone(rest);
        let e = escaped(s);
        if s.first() == '\\' || s.first() == '"' {
            assert(e[0] == '\\' && e[1] == s.first());
            assert(e.skip(2) =~= escaped(rest));
        } else {
            assert(e[0] == s.first());
            assert(e.drop_first() =~= escaped(rest));
        }
        assert(seq![s.first()] + rest =~= s);
    }
}

/// Two texts are quoted alike only if they are the same.
pub proof fn law_quoting_is_injective(s: Seq<char>, t: Seq<char>)
    ensures
        quoted(s) == quoted(t) ==> s == t,
{
    reveal_strlit("\"");
    if quoted(s) == quoted(t) {
        assert(quoted(s).subrange(1, quoted(s).len() - 1) =~= escaped(s));
        assert(quoted(t).subrange(1, quoted(t).len() - 1) =~= escaped(t));
        law_quoting_can_be_undone(s);
        law_quoting_can_be_undone(t);
    }
}

/// Indenting moves every line that is not empty by the same number of spaces and changes nothing else.
pub proof fn law_indenting_moves_lines(line: Seq<char>, n: nat)
    ensures
        line.len() == 0 ==> moved(line, n) == line,
        line.len() > 0 ==> moved(line, n).len() == n + line.len() && moved(line, n).skip(n as int)
            == line && forall|i: int| 0 <= i < n ==> #[trigger] moved(line, n)[i] == ' ',
{
    if line.len() > 0 {
        assert(moved(line, n).skip(n as int) =~= line);
    }
}

/// Indenting two lines is indenting each of them.
pub proof fn law_indenting_goes_line_by_line(a: Seq<char>, b: Seq<char>, n: nat)
    requires
        !a.contains('\n'),
        !b.contains('\n'),
        a.len() > 0 ==> a.last() != '\r',
        b.len() > 0,
    ensures
        indented(b, n) == moved(b, n),
        indented(a + seq!['\n'] + b, n) == moved(a, n) + seq!['\n'] + moved(b, n),
{
    let nl = Sep::Is('\n');
    reveal_strlit("\n");
    assert("\n"@ =~= seq!['\n']);
    assert forall|i: int| 0 <= i < a.len() implies !nl.hits(#[trigger] a[i]) by {
        assert(a.contains(a[i]));
    }
    assert forall|i: int| 0 <= i < b.len() implies !nl.hits(#[trigger] b[i]) by {
        assert(b.contains(b[i]));
    }
    lemma_one_piece(a, nl);
    lemma_one_piece(b, nl);
    lemma_pieces_join(a, '\n', b, nl);
    let both = a + seq!['\n'] + b;
    assert(a.push('\n') + b =~= both);
    assert(pieces(both, nl) =~= seq![a, b]);
    let f = |l: Seq<char>| moved(l, n);
    assert(lines_of(b) =~= seq![b]);
    assert(lines_of(both) =~= seq![a, b]);
    assert(seq![b].map_values(f) =~= seq![moved(b, n)]);
    let m = seq![moved(a, n), moved(b, n)];
    assert(seq![a, b].map_values(f) =~= m);
    assert(m.drop_last() =~= seq![moved(a, n)]);
    reveal_with_fuel(joined, 3);
}

/// A DNS label has one to 63 characters, lower-case letters, digits and hyphens, with no hyphen at its
/// ends.
pub proof fn law_what_a_dns_label_is(s: Seq<char>, c: char, t: Seq<char>)
    ensures
        dns_label(s) ==> 1 <= s.len() <= 63,
        !dns_label(Seq::empty()),
        s.len() > 63 ==> !dns_label(s),
        !dns_label(seq!['-'] + s) && !dns_label(s + seq!['-']),
        !('a' <= c <= 'z' || '0' <= c <= '9' || c == '-') ==> !dns_label(s + seq![c] + t),
        dns_label(s) && dns_label(t) && s.len() + t.len() < 63 ==> dns_label(s + seq!['-'] + t),
{
    let a = seq!['-'] + s;
    let b = s + seq!['-'];
    assert(a.first() == '-' && b.last() == '-');
    let d = s + seq![c] + t;
    assert(d[s.len() as int] == c);
    if !('a' <= c <= 'z' || '0' <= c <= '9' || c == '-') {
        assert(!label_char(d[s.len() as int]));
    }
    if dns_label(s) && dns_label(t) && s.len() + t.len() < 63 {
        let e = s + seq!['-'] + t;
        assert(e.first() == s.first() && e.last() == t.last());
        assert forall|i: int| 0 <= i < e.len() implies label_char(#[trigger] e[i]) by {
            if i < s.len() {
                assert(e[i] == s[i]);
            } else if i > s.len() {
                assert(e[i] == t[i - s.len() - 1]);
            }
        }
    }
}



} // verus!
