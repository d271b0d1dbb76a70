//! Texts as sequences of characters: where one text occurs in another, and
//! what can be said of a tag's occurrences in a text put together from
//! pieces.

use vstd::prelude::*;

verus! {

/// `pattern` occurs in `text` at index `at`.
pub open spec fn occurs_at(text: Seq<char>, pattern: Seq<char>, at: int) -> bool {
    &&& 0 <= at
    &&& at + pattern.len() <= text.len()
    &&& text.subrange(at, at + pattern.len()) == pattern
}

/// `pattern` occurs somewhere in `text`.
pub open spec fn contains(text: Seq<char>, pattern: Seq<char>) -> bool {
    exists|at: int| occurs_at(text, pattern, at)
}

/// `pattern` occurs in `text` at index `at` and nowhere else.
pub open spec fn occurs_only_at(text: Seq<char>, pattern: Seq<char>, at: int) -> bool {
    forall|i: int| occurs_at(text, pattern, i) <==> i == at
}

/// `pattern` occurs in `text` exactly once.
pub open spec fn occurs_once(text: Seq<char>, pattern: Seq<char>) -> bool {
    exists|at: int| occurs_only_at(text, pattern, at)
}

/// Every occurrence of `first` in `text` ends before any occurrence of
/// `second` starts.
pub open spec fn precedes(text: Seq<char>, first: Seq<char>, second: Seq<char>) -> bool {
    forall|i: int, j: int|
        occurs_at(text, first, i) && occurs_at(text, second, j) ==> i + first.len() <= j
}

/// `text` starts with `prefix`.
pub open spec fn starts_with(text: Seq<char>, prefix: Seq<char>) -> bool {
    occurs_at(text, prefix, 0)
}

/// `text` ends with `suffix`.
pub open spec fn ends_with(text: Seq<char>, suffix: Seq<char>) -> bool {
    occurs_at(text, suffix, text.len() - suffix.len())
}

/// In `piece` an opening angle bracket stands only at the start and a
/// closing one only at the end.
pub open spec fn brackets_at_ends(piece: Seq<char>) -> bool {
    forall|k: int|
        0 <= k < piece.len() ==> (#[trigger] piece[k] == '<' ==> k == 0) && (piece[k] == '>' ==> k
            == piece.len() - 1)
}

/// A tag: `<`, then characters that are no angle bracket, then `>`.
pub open spec fn is_tag(tag: Seq<char>) -> bool {
    &&& tag.len() >= 2
    &&& tag[0] == '<'
    &&& tag.last() == '>'
    &&& brackets_at_ends(tag)
}

/// No occurrence of `tag` in `left + right` can lie across the place where
/// the two meet: one of them is empty, or `left` ends in `>`, or `right`
/// starts with `<`, or the character on one side of the place is none of
/// the tag's.
pub open spec fn sealed(left: Seq<char>, right: Seq<char>, tag: Seq<char>) -> bool {
    ||| left.len() == 0
    ||| right.len() == 0
    ||| left.last() == '>'
    ||| right[0] == '<'
    ||| !tag.contains(left.last())
    ||| !tag.contains(right[0])
}

/// Inside a piece with its brackets at its ends a tag occurs only as the
/// whole piece.
pub proof fn lemma_tag_in_piece(piece: Seq<char>, tag: Seq<char>)
    requires
        brackets_at_ends(piece),
        is_tag(tag),
    ensures
        forall|at: int| #[trigger] occurs_at(piece, tag, at) <==> at == 0 && piece == tag,
{
    assert forall|at: int| #[trigger] occurs_at(piece, tag, at) implies at == 0 && piece == tag by {
        let found = piece.subrange(at, at + tag.len());
        assert(found[0] == piece[at]);
        assert(found[tag.len() - 1] == piece[at + tag.len() - 1]);
        assert(piece =~= found);
    }
    if piece == tag {
        assert(piece.subrange(0, tag.len() as int) =~= tag);
    }
}

/// What occurs in one of two texts occurs in the two put together: where
/// it did, if it was in `left`, and shifted by the length of `left` if it
/// was in `right`.
pub proof fn lemma_occurrences_stay(left: Seq<char>, right: Seq<char>, pattern: Seq<char>)
    ensures
        forall|at: int|
            occurs_at(left, pattern, at) || occurs_at(right, pattern, at - left.len())
                ==> #[trigger] occurs_at(left + right, pattern, at),
{
    let whole = left + right;
    let n = pattern.len() as int;
    let m = left.len() as int;
    assert forall|at: int| occurs_at(left, pattern, at) implies #[trigger] occurs_at(
        whole,
        pattern,
        at,
    ) by {
        assert(whole.subrange(at, at + n) =~= left.subrange(at, at + n));
    }
    assert forall|at: int| occurs_at(right, pattern, at - m) implies #[trigger] occurs_at(
        whole,
        pattern,
        at,
    ) by {
        assert(whole.subrange(at, at + n) =~= right.subrange(at - m, at - m + n));
    }
}

/// Where the place at which two texts meet is sealed, a tag occurs in
/// `left + right` where it occurs in `left`, and where it occurs in
/// `right`, shifted by the length of `left`.
pub proof fn lemma_tag_in_concat(left: Seq<char>, right: Seq<char>, tag: Seq<char>)
    requires
        is_tag(tag),
        sealed(left, right, tag),
    ensures
        forall|at: int| #[trigger]
            occurs_at(left + right, tag, at) <==> occurs_at(left, tag, at) || occurs_at(
                right,
                tag,
                at - left.len(),
            ),
{
    let whole = left + right;
    let n = tag.len() as int;
    let m = left.len() as int;
    lemma_occurrences_stay(left, right, tag);
    assert forall|at: int| #[trigger] occurs_at(whole, tag, at) implies occurs_at(left, tag, at)
        || occurs_at(right, tag, at - m) by {
        let found = whole.subrange(at, at + n);
        if at + n <= m {
            assert(left.subrange(at, at + n) =~= found);
        } else if at >= m {
            assert(right.subrange(at - m, at - m + n) =~= found);
        } else {
            let k = m - 1 - at;
            assert(found[k] == whole[m - 1]);
            assert(found[k + 1] == whole[m]);
            assert(whole[m - 1] == left.last());
            assert(whole[m] == right[0]);
            assert(tag[k] == left.last());
            assert(tag[k + 1] == right[0]);
            assert(tag.contains(left.last()));
            assert(tag.contains(right[0]));
            assert(false);
        }
    }
}

/// The characters of `s`, in order.
pub fn chars_of(s: &str) -> (chars: Vec<char>)
    ensures
        chars@ == s@,
{
    let mut chars: Vec<char> = Vec::new();
    for c in it: s.chars()
        invariant
            it.seq() == s@,
            chars@ == it.seq().take(it.index()),
    {
        chars.push(c);
    }
    chars
}

} // verus!
