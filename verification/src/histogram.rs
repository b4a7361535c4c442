//! The histogram drawn beside an image.
use vstd::prelude::*;

verus! {

/// The largest of the bins' counts, or `None` where there is no bin. The
/// histogram is drawn scaled to it, and not at all without it.
pub fn max_count(counts: &Vec<usize>) -> (r: Option<usize>)
    ensures
        counts@.len() == 0 <==> r is None,
        r matches Some(m) ==> counts@.contains(m) && forall|i: int|
            0 <= i < counts@.len() ==> #[trigger] counts@[i] <= m,
{
    if counts.len() == 0 {
        return None;
    }
    let mut m = counts[0];
    let mut k: usize = 0;
    let mut i: usize = 1;
    while i < counts.len()
        invariant
            1 <= i <= counts@.len(),
            k < i,
            counts@[k as int] == m,
            forall|j: int| 0 <= j < i ==> #[trigger] counts@[j] <= m,
        decreases counts@.len() - i,
    {
        if counts[i] > m {
            m = counts[i];
            k = i;
        }
        i = i + 1;
    }
    assert(counts@[k as int] == m);
    Some(m)
}

} // verus!
