//! What it means that a record tells what happened.
//!
//! The records that contracts speak of (what a runner was asked, what was said, what was put to the
//! operator) exist for contracts only. A record is worth something only if it is tied to what it is
//! a record of: here it is said when a record, entry by entry, accounts for how a thing changed.

use vstd::prelude::*;

verus! {

/// Whether one entry of a record can turn `pre` into `post`, where `step` says what an entry can do.
pub open spec fn goes<S, E>(step: spec_fn(S, E, S) -> bool, pre: S, entry: E, post: S) -> bool {
    step(pre, entry, post)
}

/// Whether the entries of a record, one after the other and with nothing between them, can turn `pre`
/// into `post`.
pub open spec fn replayed<S, E>(
    step: spec_fn(S, E, S) -> bool,
    pre: S,
    record: Seq<E>,
    post: S,
) -> bool
    decreases record.len(),
{
    if record.len() == 0 {
        pre == post
    } else {
        exists|mid: S|
            replayed(step, pre, record.drop_last(), mid) && #[trigger] goes(
                step,
                mid,
                record.last(),
                post,
            )
    }
}

/// Whether a record was only added to, and what was added accounts for how `pre` became `post`.
#[verifier::opaque]
pub open spec fn continued<S, E>(
    step: spec_fn(S, E, S) -> bool,
    pre: S,
    before: Seq<E>,
    post: S,
    after: Seq<E>,
) -> bool {
    &&& before.len() <= after.len()
    &&& after.take(before.len() as int) == before
    &&& replayed(step, pre, after.skip(before.len() as int), post)
}

/// One stretch of a record after another.
proof fn lemma_replayed_on<S, E>(
    step: spec_fn(S, E, S) -> bool,
    a: S,
    first: Seq<E>,
    b: S,
    second: Seq<E>,
    c: S,
)
    requires
        replayed(step, a, first, b),
        replayed(step, b, second, c),
    ensures
        replayed(step, a, first + second, c),
    decreases second.len(),
{
    let all = first + second;
    if second.len() == 0 {
        assert(all =~= first);
    } else {
        let mid = choose|mid: S|
            replayed(step, b, second.drop_last(), mid) && #[trigger] goes(
                step,
                mid,
                second.last(),
                c,
            );
        lemma_replayed_on(step, a, first, b, second.drop_last(), mid);
        assert(all.drop_last() =~= first + second.drop_last());
        assert(all.last() == second.last());
        assert(goes(step, mid, all.last(), c));
    }
}

/// Where nothing happens, nothing is added.
pub proof fn lemma_at_rest<S, E>(step: spec_fn(S, E, S) -> bool, s: S, record: Seq<E>)
    ensures
        continued(step, s, record, s, record),
{
    reveal(continued);
    assert(record.take(record.len() as int) =~= record);
}

/// One entry accounts for what it says.
pub proof fn lemma_one_entry<S, E>(
    step: spec_fn(S, E, S) -> bool,
    pre: S,
    record: Seq<E>,
    entry: E,
    post: S,
)
    requires
        step(pre, entry, post),
    ensures
        continued(step, pre, record, post, record.push(entry)),
{
    reveal(continued);
    let more = record.push(entry).skip(record.len() as int);
    assert(more =~= seq![entry]);
    assert(record.push(entry).take(record.len() as int) =~= record);
    assert(more.drop_last() =~= Seq::<E>::empty());
    assert(replayed(step, pre, more.drop_last(), pre));
    assert(goes(step, pre, more.last(), post));
}

/// What was added goes on with what is added next.
pub proof fn lemma_continued_on<S, E>(
    step: spec_fn(S, E, S) -> bool,
    a: S,
    first: Seq<E>,
    b: S,
    second: Seq<E>,
    c: S,
    third: Seq<E>,
)
    requires
        continued(step, a, first, b, second),
        continued(step, b, second, c, third),
    ensures
        continued(step, a, first, c, third),
{
    reveal(continued);
    let (n, m) = (first.len() as int, second.len() as int);
    assert(third.take(n) =~= third.take(m).take(n));
    assert(third.skip(n) =~= second.skip(n) + third.skip(m)) by {
        assert(second == third.take(m));
    }
    lemma_replayed_on(step, a, second.skip(n), b, third.skip(m), c);
}

/// Where nothing was added, nothing happened.
pub proof fn lemma_nothing_added<S, E>(
    step: spec_fn(S, E, S) -> bool,
    pre: S,
    before: Seq<E>,
    post: S,
    after: Seq<E>,
)
    requires
        continued(step, pre, before, post, after),
        before.len() == after.len(),
    ensures
        pre == post,
{
    reveal(continued);
}

} // verus!
