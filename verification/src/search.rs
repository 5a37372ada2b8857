//! The match engine: which notes a query finds, in which order, and how many.

use crate::note::Note;
use vstd::prelude::*;

verus! {

/// The most notes that one search reports.
pub const MAX_MATCHES: usize = 5;

/// The positions below `upto` of the notes that match `term`, in ascending
/// order.
pub open spec fn positions_below(notes: Seq<Note>, term: Seq<char>, upto: int) -> Seq<int> {
    Seq::new(upto as nat, |i: int| i).filter(|i: int| notes[i]@.matches(term))
}

/// The positions of all notes that match `term`, in ascending order.
pub open spec fn matching_positions(notes: Seq<Note>, term: Seq<char>) -> Seq<int> {
    positions_below(notes, term, notes.len() as int)
}

/// The positions of the notes that a search for `term` reports: the first
/// [`MAX_MATCHES`] of those that match, or all of them if they are fewer.
pub open spec fn found_positions(notes: Seq<Note>, term: Seq<char>) -> Seq<int> {
    let all = matching_positions(notes, term);
    if all.len() <= MAX_MATCHES {
        all
    } else {
        all.take(MAX_MATCHES as int)
    }
}

/// The notes that a search for `term` reports, in the order of the store.
pub open spec fn found_notes(notes: Seq<Note>, term: Seq<char>) -> Seq<Note> {
    found_positions(notes, term).map_values(|i: int| notes[i])
}

/// The result set that belongs to a query: nothing while the query is empty,
/// and else what a search for the query finds.
pub open spec fn results_for(notes: Seq<Note>, query: Seq<char>) -> Seq<Note> {
    if query.len() == 0 {
        Seq::empty()
    } else {
        found_notes(notes, query)
    }
}

/// One position more: it joins the matching positions if its note matches.
proof fn lemma_positions_step(notes: Seq<Note>, term: Seq<char>, upto: int)
    requires
        0 <= upto,
    ensures
        positions_below(notes, term, upto + 1) == if notes[upto]@.matches(term) {
            positions_below(notes, term, upto).push(upto)
        } else {
            positions_below(notes, term, upto)
        },
{
    let pred = |i: int| notes[i]@.matches(term);
    let below = Seq::new(upto as nat, |i: int| i);
    assert(Seq::new((upto + 1) as nat, |i: int| i) =~= below.push(upto));
    below.lemma_filter_push(upto, pred);
}

/// What the matching positions below a bound are: they ascend strictly, each
/// lies below the bound and holds a note that matches, and no position below
/// the bound whose note matches is missing.
pub proof fn lemma_positions_below(notes: Seq<Note>, term: Seq<char>, upto: int)
    requires
        0 <= upto,
    ensures
        positions_below(notes, term, upto).len() <= upto,
        forall|k: int|
            0 <= k < positions_below(notes, term, upto).len() ==> {
                let p = #[trigger] positions_below(notes, term, upto)[k];
                0 <= p < upto && notes[p]@.matches(term)
            },
        forall|j: int, k: int|
            0 <= j < k < positions_below(notes, term, upto).len() ==> positions_below(
                notes,
                term,
                upto,
            )[j] < positions_below(notes, term, upto)[k],
        forall|i: int|
            0 <= i < upto && notes[i]@.matches(term) ==> positions_below(
                notes,
                term,
                upto,
            ).contains(i),
    decreases upto,
{
    if upto == 0 {
        let pred = |i: int| notes[i]@.matches(term);
        Seq::new(0nat, |i: int| i).lemma_filter_len(pred);
    } else {
        lemma_positions_below(notes, term, upto - 1);
        lemma_positions_step(notes, term, upto - 1);
        let before = positions_below(notes, term, upto - 1);
        let now = positions_below(notes, term, upto);
        assert forall|i: int| 0 <= i < upto && notes[i]@.matches(term) implies now.contains(
            i,
        ) by {
            if i < upto - 1 {
                assert(before.contains(i));
                let k = choose|k: int| 0 <= k < before.len() && before[k] == i;
                assert(now[k] == i);
            } else {
                assert(now[now.len() - 1] == i);
            }
        }
    }
}

/// The matching positions below a bound begin the matching positions below
/// any larger bound.
proof fn lemma_positions_prefix(notes: Seq<Note>, term: Seq<char>, upto: int, end: int)
    requires
        0 <= upto <= end,
    ensures
        positions_below(notes, term, upto).is_prefix_of(positions_below(notes, term, end)),
    decreases end - upto,
{
    if upto < end {
        lemma_positions_prefix(notes, term, upto, end - 1);
        lemma_positions_step(notes, term, end - 1);
    }
}

/// Match correctness. A search reports at most [`MAX_MATCHES`] notes. Every
/// reported position lies in the store and holds a note that matches. The
/// positions ascend strictly, so the notes come in the order of the store.
/// No matching note is passed over: one that stands before the last reported
/// note is reported, and where fewer than [`MAX_MATCHES`] are reported, every
/// note that matches is among them.
pub proof fn law_match_correctness(notes: Seq<Note>, term: Seq<char>)
    ensures
        found_notes(notes, term).len() == found_positions(notes, term).len(),
        found_positions(notes, term).len() <= MAX_MATCHES,
        forall|k: int|
            0 <= k < found_positions(notes, term).len() ==> {
                let p = #[trigger] found_positions(notes, term)[k];
                &&& 0 <= p < notes.len()
                &&& notes[p]@.matches(term)
                &&& found_notes(notes, term)[k] == notes[p]
            },
        forall|j: int, k: int|
            0 <= j < k < found_positions(notes, term).len() ==> found_positions(notes, term)[j]
                < found_positions(notes, term)[k],
        forall|i: int|
            0 <= i < notes.len() && notes[i]@.matches(term) && (found_positions(notes, term).len()
                < MAX_MATCHES || i <= found_positions(notes, term).last())
                ==> found_positions(notes, term).contains(i),
{
    let all = matching_positions(notes, term);
    let found = found_positions(notes, term);
    lemma_positions_below(notes, term, notes.len() as int);
    assert forall|i: int|
        0 <= i < notes.len() && notes[i]@.matches(term) && (found.len() < MAX_MATCHES || i
            <= found.last()) implies found.contains(i) by {
        assert(all.contains(i));
        let k = choose|k: int| 0 <= k < all.len() && all[k] == i;
        if k >= found.len() {
            assert(all[found.len() - 1] < all[k]);
        }
        assert(found[k] == i);
    }
}

/// Finds the notes that match a query: a note matches if the lower-cased
/// query is a substring of its lower-cased title or of its lower-cased
/// contents. The notes come in the order of the store, and the search ends
/// with the [`MAX_MATCHES`]th match.
pub fn find<'a>(notes: &'a Vec<Note>, term: &str) -> (found: Vec<&'a Note>)
    ensures
        found@.unref() == found_notes(notes@, term@),
{
    let mut found: Vec<&'a Note> = Vec::new();
    let mut i: usize = 0;
    while i < notes.len() && found.len() < MAX_MATCHES
        invariant
            i <= notes.len(),
            found@.len() <= MAX_MATCHES,
            found@.unref() =~= positions_below(notes@, term@, i as int).map_values(
                |p: int| notes@[p],
            ),
        decreases notes.len() - i,
    {
        let ghost before = found@;
        if notes[i].matches(term) {
            found.push(&notes[i]);
            assert(found@.unref() =~= before.unref().push(notes@[i as int]));
        }
        proof {
            let here = positions_below(notes@, term@, i as int);
            let note_at = |p: int| notes@[p];
            lemma_positions_step(notes@, term@, i as int);
            assert(here.push(i as int).map_values(note_at) =~= here.map_values(note_at).push(
                notes@[i as int],
            ));
        }
        i += 1;
    }
    proof {
        let here = positions_below(notes@, term@, i as int);
        let all = matching_positions(notes@, term@);
        lemma_positions_prefix(notes@, term@, i as int, notes@.len() as int);
        assert(found@.len() == here.len());
        if i < notes.len() {
            assert(here =~= all.take(MAX_MATCHES as int));
        }
        assert(here =~= found_positions(notes@, term@));
    }
    found
}

} // verus!
