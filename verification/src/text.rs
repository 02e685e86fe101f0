//! Text as sequences of characters: the string operations that the rest of the library is built on.

use vstd::prelude::*;

verus! {

/// The characters of each string in `v`.
pub open spec fn texts(v: Seq<String>) -> Seq<Seq<char>> {
    v.map_values(|s: String| s@)
}

/// The characters of each string slice in `v`.
pub open spec fn str_texts(v: Seq<&str>) -> Seq<Seq<char>> {
    v.map_values(|s: &str| s@)
}

/// The characters of an optional string.
pub open spec fn opt_text(o: Option<String>) -> Option<Seq<char>> {
    match o {
        Some(s) => Some(s@),
        None => None,
    }
}

/// Whether two strings hold the same characters.
pub fn same(a: &str, b: &str) -> (r: bool)
    ensures
        r == (a@ == b@),
{
    a.to_string() == b.to_string()
}

/// The characters of `s`, in order.
pub fn chars_of(s: &str) -> (r: Vec<char>)
    ensures
        r@ == s@,
{
    let mut r: Vec<char> = Vec::new();
    for c in it: s.chars()
        invariant
            it.seq() == s@,
            r@ == s@.take(it.index() as int),
    {
        r.push(c);
    }
    assert(s@.take(s@.len() as int) == s@);
    r
}

/// The texts of a list, each on its own.
pub fn owned(v: &[&str]) -> (r: Vec<String>)
    ensures
        texts(r@) == str_texts(v@),
{
    let mut r: Vec<String> = Vec::new();
    for i in 0..v.len()
        invariant
            r@.len() == i,
            forall|j: int| 0 <= j < i ==> (#[trigger] r@[j])@ == v@[j]@,
    {
        r.push(v[i].to_string());
    }
    assert(texts(r@) =~= str_texts(v@));
    r
}

/// A copy of every string in `v`.
pub fn copy_texts(v: &Vec<String>) -> (r: Vec<String>)
    ensures
        texts(r@) == texts(v@),
{
    let mut r: Vec<String> = Vec::new();
    for i in 0..v.len()
        invariant
            r@.len() == i,
            forall|j: int| 0 <= j < i ==> (#[trigger] r@[j])@ == v@[j]@,
    {
        r.push(v[i].clone());
    }
    assert(texts(r@) =~= texts(v@));
    r
}

/// A copy of an optional string.
pub fn copy_opt(o: &Option<String>) -> (r: Option<String>)
    ensures
        opt_text(r) == opt_text(*o),
{
    match o {
        Some(s) => Some(s.clone()),
        None => None,
    }
}

/// Whether `s` is one of the strings in `v`.
pub fn has_text(v: &Vec<String>, s: &str) -> (r: bool)
    ensures
        r == texts(v@).contains(s@),
{
    for i in 0..v.len()
        invariant
            forall|j: int| 0 <= j < i ==> #[trigger] texts(v@)[j] != s@,
    {
        if same(v[i].as_str(), s) {
            assert(texts(v@)[i as int] == s@);
            return true;
        }
    }
    false
}

// ---------------------------------------------------------------------------
// Searching
// ---------------------------------------------------------------------------

/// Whether `needle` stands in `hay` at position `i`.
pub open spec fn occurs_at(hay: Seq<char>, needle: Seq<char>, i: int) -> bool {
    &&& 0 <= i
    &&& i + needle.len() <= hay.len()
    &&& hay.subrange(i, i + needle.len()) == needle
}

/// Whether `needle` stands anywhere in `hay`.
pub open spec fn contains(hay: Seq<char>, needle: Seq<char>) -> bool {
    exists|i: int| occurs_at(hay, needle, i)
}

/// The first position at or after `from` where `needle` stands in `hay`.
pub open spec fn first_at(hay: Seq<char>, needle: Seq<char>, from: int) -> Option<int>
    decreases hay.len() + 1 - from,
{
    if from + needle.len() > hay.len() {
        None
    } else if occurs_at(hay, needle, from) {
        Some(from)
    } else {
        first_at(hay, needle, from + 1)
    }
}

/// What [`first_at`] finds is an occurrence, and there is none before it.
pub proof fn lemma_first_at(hay: Seq<char>, needle: Seq<char>, from: int)
    requires
        0 <= from,
    ensures
        match first_at(hay, needle, from) {
            Some(i) => from <= i && occurs_at(hay, needle, i) && forall|j: int|
                from <= j < i ==> !occurs_at(hay, needle, j),
            None => forall|j: int| from <= j ==> !occurs_at(hay, needle, j),
        },
    decreases hay.len() + 1 - from,
{
    if from + needle.len() <= hay.len() && !occurs_at(hay, needle, from) {
        lemma_first_at(hay, needle, from + 1);
    }
}

/// The first position of `needle` in `hay`, counted in characters.
pub fn find(hay: &str, needle: &str) -> (r: Option<usize>)
    ensures
        match r {
            Some(i) => first_at(hay@, needle@, 0) == Some(i as int) && i + needle@.len()
                <= hay@.len() <= usize::MAX,
            None => first_at(hay@, needle@, 0) is None,
        },
{
    let n: usize = hay.unicode_len();
    let m: usize = needle.unicode_len();
    if m > n {
        return None;
    }
    let mut i: usize = 0;
    while i <= n - m
        invariant
            i <= n - m + 1,
            m <= n,
            n == hay@.len(),
            m == needle@.len(),
            first_at(hay@, needle@, 0) == first_at(hay@, needle@, i as int),
        decreases n - i,
    {
        if same(hay.substring_char(i, i + m), needle) {
            return Some(i);
        }
        if i == n - m {
            assert(first_at(hay@, needle@, i + 1) is None);
            return None;
        }
        i = i + 1;
    }
    None
}

/// Whether `hay` holds `needle`.
pub fn has_part(hay: &str, needle: &str) -> (r: bool)
    ensures
        r == contains(hay@, needle@),
{
    proof {
        lemma_first_at(hay@, needle@, 0);
    }
    match find(hay, needle) {
        Some(_) => true,
        None => false,
    }
}

/// What stands in a text stands in every longer text made from it.
pub proof fn lemma_contains_in_longer(before: Seq<char>, s: Seq<char>, after: Seq<char>, needle: Seq<char>)
    requires
        contains(s, needle),
    ensures
        contains(before + s + after, needle),
{
    let i = choose|i: int| occurs_at(s, needle, i);
    let all = before + s + after;
    let at = before.len() + i;
    assert(all.subrange(at, at + needle.len()) =~= s.subrange(i, i + needle.len()));
    assert(occurs_at(all, needle, at));
}

/// A text stands in what is made of it and something before and after.
pub proof fn lemma_contains_middle(before: Seq<char>, needle: Seq<char>, after: Seq<char>)
    ensures
        contains(before + needle + after, needle),
{
    assert(needle.subrange(0, needle.len() as int) =~= needle);
    assert(occurs_at(needle, needle, 0));
    lemma_contains_in_longer(before, needle, after, needle);
}

/// Whether `s` begins with `prefix`.
pub open spec fn begins(s: Seq<char>, prefix: Seq<char>) -> bool {
    occurs_at(s, prefix, 0)
}

/// Whether `s` begins with `prefix`.
pub fn begins_with(s: &str, prefix: &str) -> (r: bool)
    ensures
        r == begins(s@, prefix@),
{
    let n: usize = s.unicode_len();
    let m: usize = prefix.unicode_len();
    m <= n && same(s.substring_char(0, m), prefix)
}

/// What of `s` follows its first `n` characters.
pub fn after<'a>(s: &'a str, n: usize) -> (r: &'a str)
    requires
        n <= s@.len(),
    ensures
        r@ == s@.skip(n as int),
{
    let len: usize = s.unicode_len();
    let r = s.substring_char(n, len);
    assert(s@.subrange(n as int, len as int) == s@.skip(n as int));
    r
}

// ---------------------------------------------------------------------------
// White space
// ---------------------------------------------------------------------------

/// Whether `c` is Unicode white space.
pub open spec fn white(c: char) -> bool {
    ||| '\u{9}' <= c <= '\u{d}'
    ||| c == ' '
    ||| c == '\u{85}'
    ||| c == '\u{a0}'
    ||| c == '\u{1680}'
    ||| '\u{2000}' <= c <= '\u{200a}'
    ||| c == '\u{2028}'
    ||| c == '\u{2029}'
    ||| c == '\u{202f}'
    ||| c == '\u{205f}'
    ||| c == '\u{3000}'
}

/// Whether `c` is Unicode white space.
pub fn is_white(c: char) -> (r: bool)
    ensures
        r == white(c),
{
    ('\u{9}' <= c && c <= '\u{d}') || c == ' ' || c == '\u{85}' || c == '\u{a0}' || c == '\u{1680}'
        || ('\u{2000}' <= c && c <= '\u{200a}') || c == '\u{2028}' || c == '\u{2029}'
        || c == '\u{202f}' || c == '\u{205f}' || c == '\u{3000}'
}

/// `s` without the white space at its ends.
pub open spec fn trimmed(s: Seq<char>) -> Seq<char>
    decreases s.len(),
{
    if s.len() == 0 {
        s
    } else if white(s.first()) {
        trimmed(s.drop_first())
    } else if white(s.last()) {
        trimmed(s.drop_last())
    } else {
        s
    }
}

/// `s` without the white space at its ends.
pub fn trim<'a>(s: &'a str) -> (r: &'a str)
    ensures
        r@ == trimmed(s@),
{
    let cs: Vec<char> = chars_of(s);
    let mut i: usize = 0;
    let mut j: usize = cs.len();
    assert(s@.subrange(0, s@.len() as int) == s@);
    while i < j && is_white(cs[i])
        invariant
            cs@ == s@,
            i <= j == s@.len(),
            trimmed(s@) == trimmed(s@.subrange(i as int, j as int)),
        decreases j - i,
    {
        assert(s@.subrange(i as int, j as int).drop_first() == s@.subrange(i + 1, j as int));
        i = i + 1;
    }
    while i < j && is_white(cs[j - 1])
        invariant
            cs@ == s@,
            i <= j <= s@.len(),
            i < j ==> !white(s@[i as int]),
            trimmed(s@) == trimmed(s@.subrange(i as int, j as int)),
        decreases j - i,
    {
        assert(s@.subrange(i as int, j as int).drop_last() == s@.subrange(i as int, j - 1));
        j = j - 1;
    }
    s.substring_char(i, j)
}

/// `s` without the newlines at its end.
pub open spec fn chomped(s: Seq<char>) -> Seq<char>
    decreases s.len(),
{
    if s.len() > 0 && s.last() == '\n' {
        chomped(s.drop_last())
    } else {
        s
    }
}

/// `s` without the newlines at its end.
pub fn chomp<'a>(s: &'a str) -> (r: &'a str)
    ensures
        r@ == chomped(s@),
{
    let cs: Vec<char> = chars_of(s);
    let mut j: usize = cs.len();
    assert(s@.take(s@.len() as int) == s@);
    while j > 0 && cs[j - 1] == '\n'
        invariant
            cs@ == s@,
            j <= s@.len(),
            chomped(s@) == chomped(s@.take(j as int)),
        decreases j,
    {
        assert(s@.take(j as int).drop_last() == s@.take(j - 1));
        j = j - 1;
    }
    assert(s@.subrange(0, j as int) == s@.take(j as int));
    s.substring_char(0, j)
}

// ---------------------------------------------------------------------------
// Splitting and joining
// ---------------------------------------------------------------------------

/// What separates the pieces of a split.
#[derive(Debug, Clone, Copy, PartialEq, Eq, Structural)]
pub enum Sep {
    /// This character.
    Is(char),
    /// Either of these characters.
    Either(char, char),
    /// Any white space.
    White,
}

impl Sep {
    /// Whether `c` separates.
    pub open spec fn hits(self, c: char) -> bool {
        match self {
            Sep::Is(x) => c == x,
            Sep::Either(x, y) => c == x || c == y,
            Sep::White => white(c),
        }
    }

    /// Whether `c` separates.
    pub fn hit(self, c: char) -> (r: bool)
        ensures
            r == self.hits(c),
    {
        match self {
            Sep::Is(x) => c == x,
            Sep::Either(x, y) => c == x || c == y,
            Sep::White => is_white(c),
        }
    }
}

/// The pieces of `s` between separators: one more than there are separators.
pub open spec fn pieces(s: Seq<char>, sep: Sep) -> Seq<Seq<char>>
    decreases s.len(),
{
    if s.len() == 0 {
        seq![Seq::<char>::empty()]
    } else {
        let p = pieces(s.drop_last(), sep);
        if sep.hits(s.last()) {
            p.push(Seq::<char>::empty())
        } else {
            p.drop_last().push(p.last().push(s.last()))
        }
    }
}

/// There is always at least one piece.
pub proof fn lemma_pieces_len(s: Seq<char>, sep: Sep)
    ensures
        pieces(s, sep).len() >= 1,
    decreases s.len(),
{
    if s.len() > 0 {
        lemma_pieces_len(s.drop_last(), sep);
    }
}

/// The pieces of `s` between separators.
pub fn split(s: &str, sep: Sep) -> (r: Vec<String>)
    ensures
        texts(r@) == pieces(s@, sep),
        r@.len() >= 1,
{
    let cs: Vec<char> = chars_of(s);
    let mut r: Vec<String> = Vec::new();
    let mut start: usize = 0;
    assert(s@.take(0) == Seq::<char>::empty());
    assert(texts(r@).push(s@.subrange(0, 0)) =~= pieces(s@.take(0), sep));
    for i in 0..cs.len()
        invariant
            cs@ == s@,
            start <= i <= s@.len(),
            pieces(s@.take(i as int), sep) == texts(r@).push(s@.subrange(start as int, i as int)),
    {
        let ghost before = texts(r@);
        assert(s@.take(i + 1).drop_last() == s@.take(i as int));
        if sep.hit(cs[i]) {
            let ghost piece = s@.subrange(start as int, i as int);
            r.push(s.substring_char(start, i).to_string());
            start = i + 1;
            assert(texts(r@) =~= before.push(piece));
            assert(s@.subrange(start as int, i + 1) == Seq::<char>::empty());
        } else {
            assert(s@.subrange(start as int, i as int).push(s@[i as int]) == s@.subrange(
                start as int,
                i + 1,
            ));
            assert(before.push(s@.subrange(start as int, i as int)).drop_last() == before);
        }
    }
    let ghost before = texts(r@);
    r.push(s.substring_char(start, cs.len()).to_string());
    assert(texts(r@) =~= before.push(s@.subrange(start as int, s@.len() as int)));
    assert(s@.take(s@.len() as int) == s@);
    r
}

/// The strings of `p` that are not empty, in order.
pub open spec fn nonempty(p: Seq<Seq<char>>) -> Seq<Seq<char>>
    decreases p.len(),
{
    if p.len() == 0 {
        p
    } else if p.last().len() == 0 {
        nonempty(p.drop_last())
    } else {
        nonempty(p.drop_last()).push(p.last())
    }
}

/// The words of `s`: its maximal runs of characters that are not white space.
pub open spec fn words_of(s: Seq<char>) -> Seq<Seq<char>> {
    nonempty(pieces(s, Sep::White))
}

/// The words of `s`.
pub fn words(s: &str) -> (r: Vec<String>)
    ensures
        texts(r@) == words_of(s@),
{
    let p: Vec<String> = split(s, Sep::White);
    let ghost all = texts(p@);
    let mut r: Vec<String> = Vec::new();
    assert(all.take(0) == Seq::<Seq<char>>::empty());
    assert(texts(r@) =~= nonempty(all.take(0)));
    for i in 0..p.len()
        invariant
            all == texts(p@),
            texts(r@) == nonempty(all.take(i as int)),
    {
        let ghost before = texts(r@);
        assert(all.take(i + 1).drop_last() == all.take(i as int));
        assert(all.take(i + 1).last() == p@[i as int]@);
        if p[i].unicode_len() > 0 {
            r.push(p[i].clone());
            assert(texts(r@) =~= before.push(p@[i as int]@));
        }
    }
    assert(all.take(all.len() as int) == all);
    r
}

/// `line` without the carriage return that ends it, if one does.
pub open spec fn without_cr(line: Seq<char>) -> Seq<char> {
    if line.len() > 0 && line.last() == '\r' {
        line.drop_last()
    } else {
        line
    }
}

/// The lines of `s`. A line ends at a newline, or at a carriage return and a newline; what follows
/// the last newline is a line only if it is not empty.
pub open spec fn lines_of(s: Seq<char>) -> Seq<Seq<char>> {
    let p = pieces(s, Sep::Is('\n'));
    let ended = p.drop_last().map_values(|l: Seq<char>| without_cr(l));
    if p.last().len() == 0 {
        ended
    } else {
        ended.push(p.last())
    }
}

/// The lines of `s`.
pub fn lines(s: &str) -> (r: Vec<String>)
    ensures
        texts(r@) == lines_of(s@),
{
    let p: Vec<String> = split(s, Sep::Is('\n'));
    let n: usize = p.len();
    let mut r: Vec<String> = Vec::new();
    let ghost all = texts(p@);
    for i in 0..n - 1
        invariant
            n == p@.len() >= 1,
            r@.len() == i,
            forall|j: int| 0 <= j < i ==> (#[trigger] r@[j])@ == without_cr(p@[j]@),
    {
        let len: usize = p[i].unicode_len();
        if len > 0 && p[i].get_char(len - 1) == '\r' {
            assert(p@[i as int]@.subrange(0, len - 1) == p@[i as int]@.drop_last());
            r.push(p[i].substring_char(0, len - 1).to_string());
        } else {
            r.push(p[i].clone());
        }
    }
    assert(texts(r@) =~= all.drop_last().map_values(|l: Seq<char>| without_cr(l)));
    if p[n - 1].unicode_len() > 0 {
        let ghost ended = texts(r@);
        r.push(p[n - 1].clone());
        assert(texts(r@) =~= ended.push(all.last()));
    }
    r
}

/// The strings of `p`, one after the other, with `sep` between them.
pub open spec fn joined(p: Seq<Seq<char>>, sep: Seq<char>) -> Seq<char>
    decreases p.len(),
{
    if p.len() == 0 {
        Seq::<char>::empty()
    } else if p.len() == 1 {
        p[0]
    } else {
        joined(p.drop_last(), sep) + sep + p.last()
    }
}

/// The first `n` strings of `v`, with `sep` between them.
pub fn join_first(v: &Vec<String>, n: usize, sep: &str) -> (r: String)
    requires
        n <= v@.len(),
    ensures
        r@ == joined(texts(v@).take(n as int), sep@),
{
    let mut r = String::new();
    let ghost all = texts(v@);
    assert(all.take(0) == Seq::<Seq<char>>::empty());
    for i in 0..n
        invariant
            all == texts(v@),
            n <= v@.len(),
            r@ == joined(all.take(i as int), sep@),
    {
        assert(all.take(i + 1).drop_last() == all.take(i as int));
        if i > 0 {
            r.append(sep);
        } else {
            assert(r@ + all[0] == all[0]);
        }
        r.append(v[i].as_str());
    }
    r
}

/// The strings of `v`, with `sep` between them.
pub fn join(v: &Vec<String>, sep: &str) -> (r: String)
    ensures
        r@ == joined(texts(v@), sep@),
{
    assert(texts(v@).take(v@.len() as int) == texts(v@));
    join_first(v, v.len(), sep)
}

/// Joining the pieces of a split with the separator gives the text back.
pub proof fn law_split_then_join(s: Seq<char>, c: char)
    ensures
        joined(pieces(s, Sep::Is(c)), seq![c]) == s,
    decreases s.len(),
{
    let sep = Sep::Is(c);
    let p = pieces(s, sep);
    if s.len() == 0 {
        assert(p[0] == s);
    } else {
        let q = pieces(s.drop_last(), sep);
        lemma_pieces_len(s.drop_last(), sep);
        law_split_then_join(s.drop_last(), c);
        assert(p.drop_last() == if sep.hits(s.last()) { q } else { q.drop_last() });
        assert(s == s.drop_last().push(s.last()));
        if sep.hits(s.last()) {
            assert(joined(p, seq![c]) =~= s.drop_last() + seq![c] + Seq::<char>::empty());
        } else if q.len() == 1 {
            assert(joined(p, seq![c]) =~= q[0].push(s.last()));
        } else {
            assert(joined(p, seq![c]) =~= (joined(q.drop_last(), seq![c]) + seq![c] + q.last()).push(
                s.last(),
            ));
        }
    }
}

/// No piece of a split holds a separator.
pub proof fn law_pieces_hold_no_separator(s: Seq<char>, sep: Sep, k: int, i: int)
    requires
        0 <= k < pieces(s, sep).len(),
        0 <= i < pieces(s, sep)[k].len(),
    ensures
        !sep.hits(pieces(s, sep)[k][i]),
    decreases s.len(),
{
    if s.len() > 0 {
        let q = pieces(s.drop_last(), sep);
        lemma_pieces_len(s.drop_last(), sep);
        if sep.hits(s.last()) {
            if k < q.len() {
                law_pieces_hold_no_separator(s.drop_last(), sep, k, i);
            }
        } else if k < q.len() - 1 || i < q.last().len() {
            law_pieces_hold_no_separator(s.drop_last(), sep, k, i);
        }
    }
}

/// A text without separators is one piece.
pub proof fn lemma_one_piece(s: Seq<char>, sep: Sep)
    requires
        forall|i: int| 0 <= i < s.len() ==> !sep.hits(#[trigger] s[i]),
    ensures
        pieces(s, sep) == seq![s],
    decreases s.len(),
{
    if s.len() > 0 {
        lemma_one_piece(s.drop_last(), sep);
        assert(s.drop_last().push(s.last()) =~= s);
        assert(pieces(s, sep) =~= seq![s]);
    } else {
        assert(s =~= Seq::<char>::empty());
    }
}

/// The pieces of a text with a separator in it are those before and those after the separator.
pub proof fn lemma_pieces_join(s: Seq<char>, c: char, t: Seq<char>, sep: Sep)
    requires
        sep.hits(c),
    ensures
        pieces(s.push(c) + t, sep) == pieces(s, sep) + pieces(t, sep),
    decreases t.len(),
{
    let all = s.push(c) + t;
    let p = pieces(s, sep);
    if t.len() == 0 {
        assert(all =~= s.push(c));
        assert(all.drop_last() =~= s);
        assert(pieces(all, sep) =~= p + pieces(t, sep));
    } else {
        let u = t.drop_last();
        lemma_pieces_join(s, c, u, sep);
        lemma_pieces_len(u, sep);
        let q = pieces(u, sep);
        assert(all.drop_last() =~= s.push(c) + u);
        assert((p + q).drop_last() =~= p + q.drop_last());
        assert((p + q).last() == q.last());
        assert(pieces(all, sep) =~= p + pieces(t, sep));
    }
}

/// Splitting what was joined gives the pieces back, if there is one and none holds the separator.
pub proof fn law_join_then_split(p: Seq<Seq<char>>, c: char)
    requires
        p.len() > 0,
        forall|k: int, i: int| 0 <= k < p.len() && 0 <= i < p[k].len() ==> #[trigger] p[k][i] != c,
    ensures
        pieces(joined(p, seq![c]), Sep::Is(c)) == p,
    decreases p.len(),
{
    let sep = Sep::Is(c);
    let last = p.last();
    assert forall|i: int| 0 <= i < last.len() implies !sep.hits(#[trigger] last[i]) by {
        assert(p[p.len() - 1][i] != c);
    }
    lemma_one_piece(last, sep);
    if p.len() == 1 {
        assert(p =~= seq![last]);
    } else {
        let q = p.drop_last();
        assert forall|k: int, i: int| 0 <= k < q.len() && 0 <= i < q[k].len() implies #[trigger]
            q[k][i] != c by {
            assert(p[k][i] != c);
        }
        law_join_then_split(q, c);
        lemma_pieces_join(joined(q, seq![c]), c, last, sep);
        assert(joined(q, seq![c]) + seq![c] + last =~= joined(q, seq![c]).push(c) + last);
        assert(q + seq![last] =~= p);
    }
}

// ---------------------------------------------------------------------------
// Numbers
// ---------------------------------------------------------------------------

/// Whether `c` is an ASCII decimal digit.
pub open spec fn digit(c: char) -> bool {
    '0' <= c <= '9'
}

/// Whether `c` is an ASCII decimal digit.
pub fn is_digit(c: char) -> (r: bool)
    ensures
        r == digit(c),
{
    '0' <= c && c <= '9'
}

/// The decimal digits of `n`.
pub open spec fn decimal(n: nat) -> Seq<char>
    decreases n,
{
    if n < 10 {
        seq![(48 + n) as char]
    } else {
        decimal(n / 10).push((48 + n % 10) as char)
    }
}

/// The digit of a number below ten.
fn digit_text(d: u64) -> (r: &'static str)
    requires
        d < 10,
    ensures
        r@ == seq![(48 + d) as char],
{
    proof {
        reveal_strlit("0");
        reveal_strlit("1");
        reveal_strlit("2");
        reveal_strlit("3");
        reveal_strlit("4");
        reveal_strlit("5");
        reveal_strlit("6");
        reveal_strlit("7");
        reveal_strlit("8");
        reveal_strlit("9");
    }
    match d {
        0 => "0",
        1 => "1",
        2 => "2",
        3 => "3",
        4 => "4",
        5 => "5",
        6 => "6",
        7 => "7",
        8 => "8",
        _ => "9",
    }
}

/// `n` in decimal.
pub fn number(n: u64) -> (r: String)
    ensures
        r@ == decimal(n as nat),
    decreases n,
{
    if n < 10 {
        digit_text(n).to_string()
    } else {
        let mut r = number(n / 10);
        r.append(digit_text(n % 10));
        r
    }
}

/// The number that a run of digits stands for.
pub open spec fn value(s: Seq<char>) -> nat
    decreases s.len(),
{
    if s.len() == 0 {
        0
    } else {
        (value(s.drop_last()) * 10 + (s.last() as int - 48)) as nat
    }
}

/// The part of a number's text that holds its digits: a leading plus sign is allowed.
pub open spec fn digits_of(s: Seq<char>) -> Seq<char> {
    if s.len() > 0 && s[0] == '+' {
        s.skip(1)
    } else {
        s
    }
}

/// The number that `s` spells, if it spells one that fits in 64 bits.
pub open spec fn parsed(s: Seq<char>) -> Option<u64> {
    let d = digits_of(s);
    if d.len() > 0 && (forall|i: int| 0 <= i < d.len() ==> digit(#[trigger] d[i])) && value(d)
        <= u64::MAX {
        Some(value(d) as u64)
    } else {
        None
    }
}

/// The number that `s` spells, if it spells one that fits in 64 bits.
pub fn parse_number(s: &str) -> (r: Option<u64>)
    ensures
        r == parsed(s@),
{
    let cs: Vec<char> = chars_of(s);
    let from: usize = if cs.len() > 0 && cs[0] == '+' { 1 } else { 0 };
    let ghost d = digits_of(s@);
    assert(d == s@.skip(from as int)) by {
        assert(s@.skip(0) == s@);
    }
    if from == cs.len() {
        return None;
    }
    let mut acc: Option<u64> = Some(0);
    assert(d.take(0) == Seq::<char>::empty());
    for i in from..cs.len()
        invariant
            cs@ == s@,
            from <= i <= s@.len(),
            d == s@.skip(from as int),
            d == digits_of(s@),
            forall|j: int| 0 <= j < i - from ==> digit(#[trigger] d[j]),
            match acc {
                Some(v) => v == value(d.take(i - from)),
                None => value(d.take(i - from)) > u64::MAX,
            },
    {
        let c: char = cs[i];
        assert(d[i - from] == c);
        if !is_digit(c) {
            assert(!digit(d[i - from]));
            return None;
        }
        assert(d.take(i - from + 1).drop_last() == d.take(i - from));
        let x: u64 = (c as u32 - 48) as u64;
        acc = match acc {
            Some(v) => if v <= (u64::MAX - x) / 10 {
                Some(v * 10 + x)
            } else {
                None
            },
            None => None,
        };
    }
    assert(d.take(d.len() as int) == d);
    acc
}

/// A number written in decimal reads back as itself.
pub proof fn law_number_reads_back(n: u64)
    ensures
        parsed(decimal(n as nat)) == Some(n),
{
    lemma_decimal(n as nat);
    let d = decimal(n as nat);
    assert(digit(d[0]));
    assert(digits_of(d) == d);
}

/// The decimal digits of a number are digits, and stand for it.
pub proof fn lemma_decimal(n: nat)
    ensures
        decimal(n).len() > 0,
        value(decimal(n)) == n,
        forall|i: int| 0 <= i < decimal(n).len() ==> digit(#[trigger] decimal(n)[i]),
    decreases n,
{
    let d = decimal(n);
    reveal_with_fuel(value, 2);
    if n < 10 {
        assert(d.drop_last() == Seq::<char>::empty());
    } else {
        lemma_decimal(n / 10);
        assert(d.drop_last() == decimal(n / 10));
    }
}

/// How many characters at the start of `s` are digits.
pub open spec fn digit_run(s: Seq<char>) -> nat
    decreases s.len(),
{
    if s.len() > 0 && digit(s.first()) {
        1 + digit_run(s.drop_first())
    } else {
        0
    }
}

/// How many characters at the start of `s` are digits.
pub fn leading_digits(s: &str) -> (r: usize)
    ensures
        r == digit_run(s@),
        r <= s@.len(),
{
    let n: usize = s.unicode_len();
    let mut i: usize = 0;
    assert(s@.skip(0) =~= s@);
    while i < n && is_digit(s.get_char(i))
        invariant
            n == s@.len(),
            i <= n,
            digit_run(s@) == i + digit_run(s@.skip(i as int)),
        decreases n - i,
    {
        assert(s@.skip(i as int).drop_first() =~= s@.skip(i + 1));
        i = i + 1;
    }
    i
}

// ---------------------------------------------------------------------------
// Padding and case
// ---------------------------------------------------------------------------

/// `n` spaces.
pub open spec fn blanks(n: nat) -> Seq<char> {
    Seq::new(n, |i: int| ' ')
}

/// `n` spaces.
pub fn spaces(n: usize) -> (r: String)
    ensures
        r@ == blanks(n as nat),
{
    let mut r = String::new();
    proof {
        reveal_strlit(" ");
    }
    for i in 0..n
        invariant
            " "@ == seq![' '],
            r@ == blanks(i as nat),
    {
        r.append(" ");
        assert(r@ =~= blanks((i + 1) as nat));
    }
    r
}

/// `s` with spaces after it, up to `width` characters.
pub open spec fn padded(s: Seq<char>, width: nat) -> Seq<char> {
    if s.len() >= width {
        s
    } else {
        s + blanks((width - s.len()) as nat)
    }
}

/// `s` with spaces after it, up to `width` characters.
pub fn pad(s: &str, width: usize) -> (r: String)
    ensures
        r@ == padded(s@, width as nat),
{
    let n: usize = s.unicode_len();
    if n >= width {
        s.to_string()
    } else {
        s.to_string().concat(spaces(width - n).as_str())
    }
}

/// The lower case of an ASCII letter; any other character is left as it is.
pub open spec fn lower(c: char) -> char {
    if 'A' <= c <= 'Z' {
        (c as u32 + 32) as char
    } else {
        c
    }
}

/// `s` with its ASCII letters in lower case.
pub open spec fn lowered(s: Seq<char>) -> Seq<char> {
    s.map_values(|c: char| lower(c))
}

fn lower_char(c: char) -> (r: char)
    ensures
        r == lower(c),
{
    if 'A' <= c && c <= 'Z' {
        ((c as u8) + 32) as char
    } else {
        c
    }
}

/// Whether two strings are the same but for the case of ASCII letters.
pub fn same_but_case(a: &str, b: &str) -> (r: bool)
    ensures
        r == (lowered(a@) == lowered(b@)),
{
    let x: Vec<char> = chars_of(a);
    let y: Vec<char> = chars_of(b);
    if x.len() != y.len() {
        assert(lowered(a@).len() != lowered(b@).len());
        return false;
    }
    for i in 0..x.len()
        invariant
            x@ == a@,
            y@ == b@,
            x@.len() == y@.len(),
            forall|j: int| 0 <= j < i ==> lowered(a@)[j] == #[trigger] lowered(b@)[j],
    {
        if lower_char(x[i]) != lower_char(y[i]) {
            assert(lowered(a@)[i as int] != lowered(b@)[i as int]);
            return false;
        }
        assert(lowered(a@)[i as int] == lowered(b@)[i as int]);
    }
    assert(lowered(a@) =~= lowered(b@));
    true
}

} // verus!
