//! Finding the first occurrence of a value in a sequence.

use vstd::prelude::*;

verus! {

/// The first position in `items` at or after `from` that holds `wanted`, or
/// the length of `items` when there is none.
pub open spec fn position_from<T>(items: Seq<T>, wanted: T, from: int) -> int
    decreases items.len() - from,
{
    if from < 0 || from >= items.len() {
        items.len() as int
    } else if items[from] == wanted {
        from
    } else {
        position_from(items, wanted, from + 1)
    }
}

/// The first position in `items` that holds `wanted`, or the length of
/// `items` when none does.
pub open spec fn position<T>(items: Seq<T>, wanted: T) -> int {
    position_from(items, wanted, 0)
}

/// `position_from` lies between `from` and the length, holds `wanted` where
/// it is a position, and nothing before it from `from` on holds `wanted`.
pub proof fn lemma_position_from<T>(items: Seq<T>, wanted: T, from: int)
    requires
        0 <= from <= items.len(),
    ensures
        from <= position_from(items, wanted, from) <= items.len(),
        position_from(items, wanted, from) < items.len() ==> items[position_from(
            items,
            wanted,
            from,
        )] == wanted,
        forall|k: int| from <= k < position_from(items, wanted, from) ==> items[k] != wanted,
    decreases items.len() - from,
{
    if from < items.len() && items[from] != wanted {
        lemma_position_from(items, wanted, from + 1);
    }
}

/// `position` is the one index that holds `wanted` with no earlier index
/// holding it; it is the length exactly when `wanted` does not occur.
pub proof fn lemma_position<T>(items: Seq<T>, wanted: T)
    ensures
        0 <= position(items, wanted) <= items.len(),
        position(items, wanted) < items.len() ==> items[position(items, wanted)] == wanted,
        forall|k: int| 0 <= k < position(items, wanted) ==> items[k] != wanted,
        position(items, wanted) == items.len() <==> !items.contains(wanted),
{
    lemma_position_from(items, wanted, 0);
    let p = position(items, wanted);
    if p < items.len() {
        assert(items.contains(wanted));
    }
}

/// The position of the first `false` among `verdicts`, if there is one.
pub fn first_rejected(verdicts: &Vec<bool>) -> (found: Option<usize>)
    ensures
        match found {
            Some(index) => index < verdicts@.len() && index == position(verdicts@, false),
            None => position(verdicts@, false) == verdicts@.len(),
        },
{
    let mut i: usize = 0;
    while i < verdicts.len()
        invariant
            i <= verdicts.len(),
            position(verdicts@, false) == position_from(verdicts@, false, i as int),
        decreases verdicts.len() - i,
    {
        if !verdicts[i] {
            return Some(i);
        }
        i = i + 1;
    }
    None
}

/// Whether one of `items` is spelled as `wanted`.
pub fn holds(items: &Vec<String>, wanted: &str) -> (found: bool)
    ensures
        found == items.deep_view().contains(wanted@),
{
    let text = wanted.to_owned();
    let mut i: usize = 0;
    while i < items.len()
        invariant
            i <= items.len(),
            text@ == wanted@,
            forall|k: int| 0 <= k < i ==> items.deep_view()[k] != wanted@,
        decreases items.len() - i,
    {
        if items[i] == text {
            assert(items.deep_view()[i as int] == wanted@);
            return true;
        }
        i = i + 1;
    }
    false
}

} // verus!
