//! Element-wise copying between slices.

use vstd::prelude::*;

verus! {

/// Copies the first `min(into.len(), from.len())` elements of `from` into the
/// same positions of `into`, cloning each one. Elements of `into` beyond that
/// prefix are left as they were, and `into` keeps its length; a longer `from`
/// is silently cut short.
pub fn copy<T: Clone>(into: &mut [T], from: &[T])
    ensures
        final(into)@.len() == old(into)@.len(),
        forall|i: int|
            0 <= i < old(into)@.len() && i < from@.len() ==> cloned::<T>(
                #[trigger] from@[i],
                final(into)@[i],
            ),
        forall|i: int|
            from@.len() <= i < old(into)@.len() ==> #[trigger] final(into)@[i] == old(into)@[i],
{
    let l: usize = if into.len() < from.len() {
        into.len()
    } else {
        from.len()
    };
    let mut i: usize = 0;
    while i < l
        invariant
            i <= l,
            l <= from@.len(),
            l <= into@.len(),
            into@.len() == old(into)@.len(),
            forall|j: int| 0 <= j < i ==> cloned::<T>(#[trigger] from@[j], into@[j]),
            forall|j: int| i <= j < into@.len() ==> #[trigger] into@[j] == old(into)@[j],
        decreases l - i,
    {
        into[i] = from[i].clone();
        i += 1;
    }
}

} // verus!
