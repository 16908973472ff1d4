//! Facts about sequences that the laws of the emitters rest on: what
//! striking items out of a ranked sequence keeps, and where a token stands
//! in a text.

use vstd::prelude::*;

verus! {

/// Whether the ranks grow strictly along `items`.
pub open spec fn strictly_ranked<A>(items: Seq<A>, rank: spec_fn(A) -> int) -> bool {
    forall|i: int, j: int| 0 <= i < j < items.len() ==> rank(#[trigger] items[i]) < rank(#[trigger] items[j])
}

/// Filtering keeps exactly the items that pass, and keeps them in the order
/// they had: if the ranks grew strictly before, they still do.
pub proof fn lemma_filter_keeps_ranking<A>(
    items: Seq<A>,
    keep: spec_fn(A) -> bool,
    rank: spec_fn(A) -> int,
)
    requires
        strictly_ranked(items, rank),
    ensures
        strictly_ranked(items.filter(keep), rank),
        forall|x: A| #[trigger] items.filter(keep).contains(x) <==> items.contains(x) && keep(x),
    decreases items.len(),
{
    reveal(Seq::filter);
    let kept = items.filter(keep);
    if items.len() > 0 {
        let front = items.drop_last();
        let last = items.last();
        lemma_filter_keeps_ranking(front, keep, rank);
        let kept_front = front.filter(keep);
        assert forall|x: A| #[trigger] kept.contains(x) <==> items.contains(x) && keep(x) by {
            if kept.contains(x) {
                let i = choose|i: int| 0 <= i < kept.len() && kept[i] == x;
                if i < kept_front.len() {
                    assert(kept_front.contains(x));
                }
            }
        }
        assert forall|i: int, j: int| 0 <= i < j < kept.len() implies rank(#[trigger] kept[i])
            < rank(#[trigger] kept[j]) by {
            if j >= kept_front.len() {
                assert(kept_front.contains(kept_front[i]));
            }
        }
    }
}

/// Along strictly growing ranks nothing occurs twice.
pub proof fn lemma_ranked_is_distinct<A>(items: Seq<A>, rank: spec_fn(A) -> int)
    requires
        strictly_ranked(items, rank),
    ensures
        items.no_duplicates(),
{
    assert forall|i: int, j: int| 0 <= i < items.len() && 0 <= j < items.len() && i != j implies items[i]
        != items[j] by {
        assert(i < j || j < i);
    }
}

/// Whether `token` stands in `text` from position `at` on.
pub open spec fn occurs_at(token: Seq<char>, text: Seq<char>, at: int) -> bool {
    0 <= at && at + token.len() <= text.len() && text.subrange(at, at + token.len()) == token
}

/// Whether `token` stands somewhere in `text`.
pub open spec fn occurs_in(token: Seq<char>, text: Seq<char>) -> bool {
    exists|at: int| occurs_at(token, text, at)
}

/// What stands in a text still stands in it when more text is put before
/// it and after it.
pub proof fn lemma_occurs_in_between(
    token: Seq<char>,
    before: Seq<char>,
    text: Seq<char>,
    after: Seq<char>,
)
    requires
        occurs_in(token, text),
    ensures
        occurs_in(token, before + text + after),
{
    let at = choose|at: int| occurs_at(token, text, at);
    let whole = before + text + after;
    let moved = before.len() + at;
    assert(whole.subrange(moved, moved + token.len()) =~= text.subrange(at, at + token.len()));
    assert(occurs_at(token, whole, moved));
}

/// What stands in one of several texts stands in all of them put together.
pub proof fn lemma_occurs_in_flatten(token: Seq<char>, texts: Seq<Seq<char>>, which: int)
    requires
        0 <= which < texts.len(),
        occurs_in(token, texts[which]),
    ensures
        occurs_in(token, texts.flatten()),
    decreases texts.len(),
{
    let nothing = Seq::<char>::empty();
    let rest = texts.drop_first();
    if which == 0 {
        lemma_occurs_in_between(token, nothing, texts[0], rest.flatten());
        assert(nothing + texts[0] + rest.flatten() =~= texts.flatten());
    } else {
        assert(rest[which - 1] == texts[which]);
        lemma_occurs_in_flatten(token, rest, which - 1);
        lemma_occurs_in_between(token, texts[0], rest.flatten(), nothing);
        assert(texts[0] + rest.flatten() + nothing =~= texts.flatten());
    }
}

/// Where a token of four characters or more stands, its first four
/// characters stand.
pub proof fn lemma_occurrence_starts(token: Seq<char>, text: Seq<char>, at: int)
    requires
        occurs_at(token, text, at),
        token.len() >= 4,
    ensures
        text[at] == token[0],
        text[at + 1] == token[1],
        text[at + 2] == token[2],
        text[at + 3] == token[3],
{
    let part = text.subrange(at, at + token.len());
    assert(part[0] == token[0] && part[1] == token[1] && part[2] == token[2] && part[3]
        == token[3]);
}

/// Whether `text` is a run of lines: not empty, and ending in a line break.
pub open spec fn ends_a_line(text: Seq<char>) -> bool {
    text.len() > 0 && text.last() == '\n'
}

/// A token without a line break that stands in several runs of lines put
/// together stands in one of them: it cannot reach across the break between
/// two.
pub proof fn lemma_occurs_in_one_of(token: Seq<char>, texts: Seq<Seq<char>>) -> (which: int)
    requires
        token.len() > 0,
        forall|k: int| 0 <= k < token.len() ==> token[k] != '\n',
        forall|i: int| 0 <= i < texts.len() ==> ends_a_line(#[trigger] texts[i]),
        occurs_in(token, texts.flatten()),
    ensures
        0 <= which < texts.len(),
        occurs_in(token, texts[which]),
    decreases texts.len(),
{
    let whole = texts.flatten();
    let at = choose|at: int| occurs_at(token, whole, at);
    let first = texts[0];
    let rest = texts.drop_first();
    assert(whole == first + rest.flatten());
    if at + token.len() <= first.len() {
        assert(first.subrange(at, at + token.len()) =~= whole.subrange(at, at + token.len()));
        assert(occurs_at(token, first, at));
        0
    } else if at >= first.len() {
        let moved = at - first.len();
        assert(rest.flatten().subrange(moved, moved + token.len()) =~= whole.subrange(
            at,
            at + token.len(),
        ));
        assert(occurs_at(token, rest.flatten(), moved));
        assert forall|i: int| 0 <= i < rest.len() implies ends_a_line(#[trigger] rest[i]) by {
            assert(rest[i] == texts[i + 1]);
        }
        lemma_occurs_in_one_of(token, rest) + 1
    } else {
        let part = whole.subrange(at, at + token.len());
        assert(part[first.len() - 1 - at] == first.last());
        0
    }
}

} // verus!
