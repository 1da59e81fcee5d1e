//! The first position at which a sequence of flags holds `true`.

use vstd::prelude::*;

verus! {

/// The least position from `from` on at which `flags` holds `true`, if
/// there is one.
pub open spec fn first_true_from(flags: Seq<bool>, from: int) -> Option<int>
    decreases flags.len() - from,
{
    if from < 0 || from >= flags.len() {
        None
    } else if flags[from] {
        Some(from)
    } else {
        first_true_from(flags, from + 1)
    }
}

/// The least position at which `flags` holds `true`, if there is one.
pub open spec fn first_true(flags: Seq<bool>) -> Option<int> {
    first_true_from(flags, 0)
}

/// What `first_true_from` finds is in range, holds `true`, and has only
/// `false` between `from` and itself; it finds nothing only where every
/// flag from `from` on is `false`.
pub proof fn lemma_first_true_from(flags: Seq<bool>, from: int)
    requires
        0 <= from,
    ensures
        match first_true_from(flags, from) {
            Some(k) => from <= k < flags.len() && flags[k] && forall|j: int|
                from <= j < k ==> !flags[j],
            None => forall|j: int| from <= j < flags.len() ==> !flags[j],
        },
    decreases flags.len() - from,
{
    if from < flags.len() && !flags[from] {
        lemma_first_true_from(flags, from + 1);
    }
}

/// `first_true` finds position `k` exactly where `flags[k]` holds and no
/// flag before it does.
pub proof fn lemma_first_true_is(flags: Seq<bool>, k: int)
    requires
        0 <= k < flags.len(),
        flags[k],
        forall|j: int| 0 <= j < k ==> !flags[j],
    ensures
        first_true(flags) == Some(k),
{
    lemma_first_true_from(flags, 0);
}

/// `first_true` finds nothing exactly where no flag holds.
pub proof fn lemma_first_true_none(flags: Seq<bool>)
    requires
        forall|j: int| 0 <= j < flags.len() ==> !flags[j],
    ensures
        first_true(flags) is None,
{
    lemma_first_true_from(flags, 0);
}

} // verus!
