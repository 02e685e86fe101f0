//! Passages: what stands where in a text.

use crate::text::{
    begins, chomped, contains, lemma_contains_in_longer, lemma_contains_middle, occurs_at, white,
};
use vstd::prelude::*;

verus! {

/// A text holds itself.
pub broadcast proof fn lemma_contains_itself(s: Seq<char>)
    ensures
        #[trigger] contains(s, s),
{
    assert(s.subrange(0, s.len() as int) =~= s);
    assert(occurs_at(s, s, 0));
}

/// What the first part of a text holds, the text holds.
pub broadcast proof fn lemma_contains_in_front(front: Seq<char>, back: Seq<char>, needle: Seq<char>)
    requires
        contains(front, needle),
    ensures
        #[trigger] contains(front + back, needle),
{
    lemma_contains_in_longer(seq![], front, back, needle);
    assert(seq![] + front + back =~= front + back);
}

/// What the last part of a text holds, the text holds.
pub broadcast proof fn lemma_contains_in_back(front: Seq<char>, back: Seq<char>, needle: Seq<char>)
    requires
        contains(back, needle),
    ensures
        #[trigger] contains(front + back, needle),
{
    lemma_contains_in_longer(front, back, seq![], needle);
    assert(front + back + seq![] =~= front + back);
}

pub broadcast group group_contains {
    lemma_contains_itself,
    lemma_contains_in_front,
    lemma_contains_in_back,
}

/// What a text with `c` in it holds without reaching over that `c` stands before or after it.
pub proof fn lemma_contains_beside(a: Seq<char>, c: char, b: Seq<char>, needle: Seq<char>)
    requires
        !needle.contains(c),
        contains(a + seq![c] + b, needle),
    ensures
        contains(a, needle) || contains(b, needle),
{
    let all = a + seq![c] + b;
    let n = a.len() as int;
    let i = choose|i: int| occurs_at(all, needle, i);
    assert(all.subrange(i, i + needle.len()) == needle);
    if i <= n < i + needle.len() {
        assert(needle[n - i] == all[n]);
        assert(needle.contains(c));
    } else if i + needle.len() <= n {
        assert(a.subrange(i, i + needle.len()) =~= needle);
        assert(occurs_at(a, needle, i));
    } else {
        assert(b.subrange(i - n - 1, i - n - 1 + needle.len()) =~= needle);
        assert(occurs_at(b, needle, i - n - 1));
    }
}

/// Three texts at the end of a text stand there as one.
pub proof fn lemma_last_three(x: Seq<char>, a: Seq<char>, b: Seq<char>, c: Seq<char>)
    ensures
        x + a + b + c == x + (a + b + c),
        contains(x + a + b + c, a + b + c),
{
    assert(x + a + b + c =~= x + (a + b + c));
    lemma_contains_itself(a + b + c);
    lemma_contains_in_back(x, a + b + c, a + b + c);
}

/// The end of one part, the next part and the start of the one after it stand together.
pub proof fn lemma_spanning(
    front: Seq<char>,
    a: Seq<char>,
    m: Seq<char>,
    b: Seq<char>,
    i: int,
    j: int,
)
    requires
        0 <= i <= a.len(),
        0 <= j <= b.len(),
    ensures
        contains(front + a + m + b, a.skip(i) + m + b.take(j)),
{
    let whole = front + a + m + b;
    let needle = a.skip(i) + m + b.take(j);
    let before = front + a.take(i);
    let after = b.skip(j);
    assert(whole =~= before + needle + after);
    lemma_contains_middle(before, needle, after);
}

/// What stands between two given texts can be read back.
pub proof fn lemma_between(front: Seq<char>, s: Seq<char>, t: Seq<char>, back: Seq<char>)
    requires
        front + s + back == front + t + back,
    ensures
        s == t,
{
    let x = front + s + back;
    let y = front + t + back;
    assert(x.len() == front.len() + s.len() + back.len());
    assert(y.len() == front.len() + t.len() + back.len());
    let n = front.len() as int;
    assert(x.subrange(n, n + s.len()) =~= s);
    assert(y.subrange(n, n + t.len()) =~= t);
}

/// A text that begins with another is that text and the rest.
pub proof fn lemma_begins(front: Seq<char>, back: Seq<char>)
    ensures
        begins(front + back, front),
{
    assert((front + back).subrange(0, front.len() as int) =~= front);
}

/// Text without a newline at its end is printed as it is, with or without one newline after it.
pub proof fn lemma_chomped(s: Seq<char>)
    requires
        s.len() > 0 ==> s.last() != '\n',
    ensures
        chomped(s) == s,
        chomped(s + seq!['\n']) == s,
{
    assert((s + seq!['\n']).drop_last() =~= s);
}

/// Text without white space.
pub open spec fn solid(s: Seq<char>) -> bool {
    s.len() > 0 && forall|i: int| 0 <= i < s.len() ==> !white(#[trigger] s[i])
}

/// Where one character stands in a text.
pub proof fn lemma_where_a_char_stands(s: Seq<char>, c: char, i: int)
    ensures
        occurs_at(s, seq![c], i) <==> 0 <= i < s.len() && s[i] == c,
{
    if 0 <= i < s.len() {
        let t = s.subrange(i, i + 1);
        assert(t.len() == 1 && t[0] == s[i]);
        if s[i] == c {
            assert(t =~= seq![c]);
        }
    }
}

/// A longer text does not stand in a shorter one.
pub proof fn lemma_none_in_shorter(hay: Seq<char>, needle: Seq<char>)
    requires
        hay.len() < needle.len(),
    ensures
        !contains(hay, needle),
{
}

/// No white space stands in text without white space.
pub proof fn lemma_solid(s: Seq<char>, c: char)
    requires
        solid(s),
        white(c),
    ensures
        !s.contains(c),
{
}

} // verus!
