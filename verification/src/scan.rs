//! Finding the first position of a list at which a check fails.

use vstd::prelude::*;

verus! {

/// The first position before `end` at which `ok` does not hold, or -1 where
/// it holds at every one.
pub open spec fn first_failing(ok: spec_fn(int) -> bool, end: int) -> int
    decreases end,
{
    if end <= 0 {
        -1
    } else if first_failing(ok, end - 1) >= 0 {
        first_failing(ok, end - 1)
    } else if !ok(end - 1) {
        end - 1
    } else {
        -1
    }
}

/// At the first failing position `ok` fails and before it `ok` holds; where
/// there is none, `ok` holds everywhere before `end`.
pub proof fn lemma_first_failing(ok: spec_fn(int) -> bool, end: int)
    requires
        0 <= end,
    ensures
        -1 <= first_failing(ok, end) < end,
        first_failing(ok, end) >= 0 ==> !ok(first_failing(ok, end)),
        forall|j: int|
            0 <= j < end && (first_failing(ok, end) < 0 || j < first_failing(ok, end))
                ==> #[trigger] ok(j),
    decreases end,
{
    if end > 0 {
        lemma_first_failing(ok, end - 1);
    }
}

/// A failing position found before `from` is still the first one before any
/// later `end`.
pub proof fn lemma_failing_stays(ok: spec_fn(int) -> bool, from: int, end: int)
    requires
        0 <= from <= end,
        first_failing(ok, from) >= 0,
    ensures
        first_failing(ok, end) == first_failing(ok, from),
    decreases end - from,
{
    if from < end {
        lemma_failing_stays(ok, from, end - 1);
    }
}

} // verus!
