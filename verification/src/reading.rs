//! How texts are read: their ends, their words, their lines and their numbers.

use crate::text::{
    chomped, decimal, digit, digit_run, digits_of, lemma_one_piece, lemma_pieces_join,
    lemma_pieces_len, lines_of, lowered, nonempty, padded, parsed, pieces, trimmed, white,
    without_cr, words_of, Sep,
};
use vstd::prelude::*;

verus! {

/// White space is taken off both ends of a text, and nothing else.
pub proof fn law_trimming_takes_white_space_off(front: Seq<char>, s: Seq<char>, back: Seq<char>)
    requires
        forall|i: int| 0 <= i < front.len() ==> white(#[trigger] front[i]),
        forall|i: int| 0 <= i < back.len() ==> white(#[trigger] back[i]),
        s.len() > 0 ==> !white(s.first()) && !white(s.last()),
    ensures
        trimmed(front + s + back) == s,
    decreases front.len() + back.len(),
{
    let all = front + s + back;
    if front.len() > 0 {
        assert(all.first() == front[0]);
        assert(all.drop_first() =~= front.drop_first() + s + back);
        assert forall|i: int| 0 <= i < front.drop_first().len() implies white(
            #[trigger] front.drop_first()[i],
        ) by {
            assert(white(front[i + 1]));
        }
        law_trimming_takes_white_space_off(front.drop_first(), s, back);
    } else if back.len() > 0 {
        assert(all.last() == back[back.len() - 1]);
        if s.len() > 0 {
            assert(all.first() == s[0]);
            assert(all.drop_last() =~= front + s + back.drop_last());
            law_trimming_takes_white_space_off(front, s, back.drop_last());
        } else {
            assert(all.first() == back[0]);
            assert(all.drop_first() =~= front + s + back.drop_first());
            assert forall|i: int| 0 <= i < back.drop_first().len() implies white(
                #[trigger] back.drop_first()[i],
            ) by {
                assert(white(back[i + 1]));
            }
            law_trimming_takes_white_space_off(front, s, back.drop_first());
        }
    } else {
        assert(all =~= s);
    }
}

/// Newlines are taken off the end of a text, all of them and nothing else.
pub proof fn law_chomping_takes_newlines_off(s: Seq<char>, n: nat)
    requires
        s.len() > 0 ==> s.last() != '\n',
    ensures
        chomped(s + Seq::new(n, |i: int| '\n')) == s,
    decreases n,
{
    let all = s + Seq::new(n, |i: int| '\n');
    if n > 0 {
        let m = (n - 1) as nat;
        assert(all.last() == '\n');
        assert(all.drop_last() =~= s + Seq::new(m, |i: int| '\n'));
        law_chomping_takes_newlines_off(s, m);
    } else {
        assert(all =~= s);
    }
}

/// What is empty is left out part by part.
proof fn lemma_nonempty_parts(p: Seq<Seq<char>>, q: Seq<Seq<char>>)
    ensures
        nonempty(p + q) == nonempty(p) + nonempty(q),
    decreases q.len(),
{
    if q.len() == 0 {
        assert(p + q =~= p);
    } else {
        lemma_nonempty_parts(p, q.drop_last());
        assert((p + q).drop_last() =~= p + q.drop_last());
        assert((p + q).last() == q.last());
        if q.last().len() > 0 {
            assert(nonempty(p) + nonempty(q.drop_last()).push(q.last()) =~= (nonempty(p) + nonempty(
                q.drop_last(),
            )).push(q.last()));
        }
    }
}

/// White space separates words: the words on its two sides follow each other. A text without white
/// space is one word, and an empty one none.
pub proof fn law_words_are_separated_by_white_space(
    s: Seq<char>,
    c: char,
    t: Seq<char>,
    word: Seq<char>,
)
    requires
        white(c),
        word.len() > 0,
        forall|i: int| 0 <= i < word.len() ==> !white(#[trigger] word[i]),
    ensures
        words_of(s.push(c) + t) == words_of(s) + words_of(t),
        words_of(word) == seq![word],
        words_of(Seq::empty()).len() == 0,
{
    lemma_pieces_join(s, c, t, Sep::White);
    lemma_nonempty_parts(pieces(s, Sep::White), pieces(t, Sep::White));
    lemma_one_piece(word, Sep::White);
    reveal_with_fuel(nonempty, 3);
    assert(seq![word].drop_last() =~= Seq::<Seq<char>>::empty());
    assert(words_of(word) =~= seq![word]);
    let none = Seq::<char>::empty();
    assert(pieces(none, Sep::White) == seq![none]);
    assert(seq![none].drop_last() =~= Seq::<Seq<char>>::empty());
}

/// A line ends at a newline, a carriage return before it not being part of the line. What follows the
/// last newline is a line if there is anything.
pub proof fn law_lines_end_at_newlines(line: Seq<char>, rest: Seq<char>)
    requires
        forall|i: int| 0 <= i < line.len() ==> #[trigger] line[i] != '\n',
    ensures
        (line.len() == 0 || line.last() != '\r') ==> lines_of(line + seq!['\n'] + rest) == seq![line]
            + lines_of(rest),
        lines_of(line + seq!['\r', '\n'] + rest) == seq![line] + lines_of(rest),
        line.len() > 0 ==> lines_of(line) == seq![line],
        lines_of(Seq::empty()).len() == 0,
{
    let sep = Sep::Is('\n');
    lemma_one_piece(line, sep);
    let q = pieces(rest, sep);
    lemma_pieces_len(rest, sep);
    assert(line + seq!['\n'] + rest =~= line.push('\n') + rest);
    lemma_pieces_join(line, '\n', rest, sep);
    lemma_first_line(line, q);
    let cr = line.push('\r');
    assert forall|i: int| 0 <= i < cr.len() implies !sep.hits(#[trigger] cr[i]) by {
        if i < line.len() {
            assert(line[i] != '\n');
        }
    }
    lemma_one_piece(cr, sep);
    assert(line + seq!['\r', '\n'] + rest =~= cr.push('\n') + rest);
    lemma_pieces_join(cr, '\n', rest, sep);
    lemma_first_line(cr, q);
    assert(without_cr(cr) =~= line);
    assert(seq![line].drop_last() =~= Seq::<Seq<char>>::empty());
    assert(lines_of(line + seq!['\r', '\n'] + rest) =~= seq![line] + lines_of(rest));
    if line.len() > 0 {
        assert(lines_of(line) =~= seq![line]);
    }
    if line.len() == 0 || line.last() != '\r' {
        assert(lines_of(line + seq!['\n'] + rest) =~= seq![line] + lines_of(rest));
    }
    let none = Seq::<char>::empty();
    assert(pieces(none, sep) == seq![none]);
}

proof fn lemma_first_line(first: Seq<char>, q: Seq<Seq<char>>)
    requires
        q.len() > 0,
    ensures
        (seq![first] + q).last() == q.last(),
        (seq![first] + q).drop_last().map_values(|l: Seq<char>| without_cr(l)) == seq![
            without_cr(first),
        ] + q.drop_last().map_values(|l: Seq<char>| without_cr(l)),
{
    let p = seq![first] + q;
    assert(p.drop_last() =~= seq![first] + q.drop_last());
    assert(p.drop_last().map_values(|l: Seq<char>| without_cr(l)) =~= seq![without_cr(first)]
        + q.drop_last().map_values(|l: Seq<char>| without_cr(l)));
}

/// Lowering a text changes its capital letters and nothing else.
pub proof fn law_lowering_changes_capitals(s: Seq<char>, i: int)
    requires
        0 <= i < s.len(),
    ensures
        lowered(s).len() == s.len(),
        'A' <= s[i] <= 'Z' ==> lowered(s)[i] as int == s[i] as int + ('a' as int - 'A' as int),
        !('A' <= s[i] <= 'Z') ==> lowered(s)[i] == s[i],
{
}

/// The digits that a text starts with end where something else begins.
pub proof fn law_a_run_of_digits_ends(d: Seq<char>, rest: Seq<char>)
    requires
        forall|i: int| 0 <= i < d.len() ==> '0' <= #[trigger] d[i] <= '9',
        rest.len() > 0 ==> !('0' <= rest[0] <= '9'),
    ensures
        digit_run(d + rest) == d.len(),
    decreases d.len(),
{
    let all = d + rest;
    if d.len() > 0 {
        assert(all.first() == d[0]);
        assert(all.drop_first() =~= d.drop_first() + rest);
        assert forall|i: int| 0 <= i < d.drop_first().len() implies '0' <= #[trigger] d.drop_first()[i]
            <= '9' by {
            assert('0' <= d[i + 1] <= '9');
        }
        law_a_run_of_digits_ends(d.drop_first(), rest);
    } else {
        assert(all =~= rest);
    }
}

/// A padded text is that text and then spaces, as wide as is asked for, or wider if the text is.
pub proof fn law_padding_follows_the_text(s: Seq<char>, width: nat, i: int)
    ensures
        padded(s, width).len() == if s.len() < width {
            width
        } else {
            s.len()
        },
        0 <= i < s.len() ==> padded(s, width)[i] == s[i],
        s.len() <= i < width ==> padded(s, width)[i] == ' ',
{
}

/// What is not written in digits is no number; a sign before it does not matter.
pub proof fn law_what_is_a_number(s: Seq<char>, n: u64, i: int)
    ensures
        parsed(seq![]) is None,
        0 < i < s.len() && !('0' <= s[i] <= '9') ==> parsed(s) is None,
        s.len() > 0 && s[0] != '+' && !('0' <= s[0] <= '9') ==> parsed(s) is None,
        parsed(seq!['+'] + decimal(n as nat)) == parsed(decimal(n as nat)),
{
    let d = digits_of(s);
    if 0 < i < s.len() && !('0' <= s[i] <= '9') {
        if s[0] == '+' {
            assert(d[i - 1] == s[i]);
            assert(!digit(d[i - 1]));
        } else {
            assert(!digit(d[i]));
        }
    }
    if s.len() > 0 && s[0] != '+' && !('0' <= s[0] <= '9') {
        assert(!digit(d[0]));
    }
    crate::text::lemma_decimal(n as nat);
    let t = decimal(n as nat);
    assert((seq!['+'] + t).skip(1) =~= t);
    assert(digit(t[0]));
    assert(digits_of(t) == t);
}

} // verus!
