//! The question supply: which questions of a pool are still unused, and the
//! draw of the next one.

use crate::chance::random_below;
use vstd::prelude::*;
use vstd::relations::injective;
use vstd::set_lib::{lemma_int_range, lemma_len_subset, set_int_range};

verus! {

/// The indices below `n` that `used` does not hold, in increasing order.
pub open spec fn unused_indices(n: usize, used: Seq<usize>) -> Seq<usize>
    decreases n,
{
    if n == 0 {
        Seq::empty()
    } else {
        let below = unused_indices((n - 1) as usize, used);
        if used.contains((n - 1) as usize) {
            below
        } else {
            below.push((n - 1) as usize)
        }
    }
}

/// What the unused indices are: exactly the indices below `n` that are not
/// in `used`, each once and in increasing order.
pub proof fn lemma_unused_indices(n: usize, used: Seq<usize>)
    ensures
        unused_indices(n, used).len() <= n,
        forall|k: int|
            0 <= k < unused_indices(n, used).len() ==> {
                &&& (#[trigger] unused_indices(n, used)[k]) < n
                &&& !used.contains(unused_indices(n, used)[k])
            },
        forall|i: usize| i < n && !used.contains(i) ==> unused_indices(n, used).contains(i),
        forall|j: int, k: int|
            0 <= j < k < unused_indices(n, used).len() ==> unused_indices(n, used)[j]
                < unused_indices(n, used)[k],
        unused_indices(n, used).no_duplicates(),
    decreases n,
{
    if n > 0 {
        let m = (n - 1) as usize;
        let below = unused_indices(m, used);
        let all = unused_indices(n, used);
        lemma_unused_indices(m, used);
        if !used.contains(m) {
            assert(all == below.push(m));
            assert(all[below.len() as int] == m);
            assert forall|i: usize| i < n && !used.contains(i) implies all.contains(i) by {
                if i < m {
                    let k = choose|k: int| 0 <= k < below.len() && below[k] == i;
                    assert(all[k] == i);
                } else {
                    assert(all[below.len() as int] == i);
                }
            }
        }
    }
}

/// When nothing is left: every index below `n` is in `used`.
pub proof fn lemma_exhausted(n: usize, used: Seq<usize>)
    ensures
        unused_indices(n, used).len() == 0 <==> forall|i: usize| i < n ==> used.contains(i),
{
    lemma_unused_indices(n, used);
    let all = unused_indices(n, used);
    if all.len() > 0 {
        assert(!used.contains(all[0]));
    }
    if all.len() == 0 {
        assert forall|i: usize| i < n implies used.contains(i) by {
            if !used.contains(i) {
                assert(all.contains(i));
            }
        }
    }
}

/// Distinct indices below `n` are at most `n` in number.
pub proof fn lemma_distinct_indices_fit(used: Seq<usize>, n: nat)
    requires
        used.no_duplicates(),
        forall|i: int| 0 <= i < used.len() ==> (#[trigger] used[i]) < n,
    ensures
        used.len() <= n,
{
    let widen = |x: usize| x as int;
    let wide = used.map_values(widen);
    assert(injective(widen));
    used.lemma_no_duplicates_injective(widen);
    wide.unique_seq_to_set();
    lemma_int_range(0, n as int);
    assert(wide.to_set().subset_of(set_int_range(0, n as int))) by {
        assert forall|v: int| wide.to_set().contains(v) implies set_int_range(
            0,
            n as int,
        ).contains(v) by {
            let k = choose|k: int| 0 <= k < wide.len() && wide[k] == v;
            assert(wide[k] == used[k] as int);
        }
    }
    lemma_len_subset(wide.to_set(), set_int_range(0, n as int));
}

/// Whether `used` holds `i`.
pub fn is_used(used: &Vec<usize>, i: usize) -> (found: bool)
    ensures
        found == used@.contains(i),
{
    let mut k: usize = 0;
    while k < used.len()
        invariant
            k <= used.len(),
            forall|j: int| 0 <= j < k ==> used@[j] != i,
        decreases used.len() - k,
    {
        if used[k] == i {
            return true;
        }
        k += 1;
    }
    false
}

/// Lists the indices below `n` that are not in `used`, in increasing order.
pub fn unused(n: usize, used: &Vec<usize>) -> (avail: Vec<usize>)
    ensures
        avail@ == unused_indices(n, used@),
{
    let mut avail: Vec<usize> = Vec::new();
    let mut i: usize = 0;
    while i < n
        invariant
            i <= n,
            avail@ == unused_indices(i, used@),
        decreases n - i,
    {
        if !is_used(used, i) {
            avail.push(i);
        }
        i += 1;
    }
    avail
}

/// The `k`-th unused index, counting from zero, if there are that many.
pub open spec fn spec_nth_unused(n: usize, used: Seq<usize>, k: usize) -> Option<usize> {
    if k < unused_indices(n, used).len() {
        Some(unused_indices(n, used)[k as int])
    } else {
        None
    }
}

/// The `k`-th of the indices below `n` that are not in `used`, counting from
/// zero in increasing order; `None` where fewer than `k + 1` are left.
pub fn nth_unused(n: usize, used: &Vec<usize>, k: usize) -> (found: Option<usize>)
    ensures
        found == spec_nth_unused(n, used@, k),
{
    let avail = unused(n, used);
    if k < avail.len() {
        Some(avail[k])
    } else {
        None
    }
}

/// How many of the indices below `n` are not in `used`.
pub fn count_unused(n: usize, used: &Vec<usize>) -> (count: usize)
    ensures
        count == unused_indices(n, used@).len(),
{
    let mut count: usize = 0;
    let mut i: usize = 0;
    while i < n
        invariant
            i <= n,
            count == unused_indices(i, used@).len(),
            count <= i,
        decreases n - i,
    {
        if !is_used(used, i) {
            count += 1;
        }
        i += 1;
    }
    count
}

/// Draws the next question at random among the indices below `n` that are not
/// in `used`: a number `k` is drawn below the number of unused indices, and
/// the `k`-th of them is the question. Exhaustion is told apart from a draw:
/// `None` comes back exactly when every index below `n` is used, and a drawn
/// index is always one that was not.
pub fn draw_next(n: usize, used: &Vec<usize>) -> (drawn: Option<usize>)
    ensures
        drawn is None <==> forall|i: usize| i < n ==> used@.contains(i),
        drawn matches Some(i) ==> i < n && !used@.contains(i),
{
    proof {
        lemma_unused_indices(n, used@);
        lemma_exhausted(n, used@);
    }
    let count = count_unused(n, used);
    if count == 0 {
        None
    } else {
        let k = random_below(count);
        nth_unused(n, used, k)
    }
}

} // verus!
