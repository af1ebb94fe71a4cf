//! Closed polygons as vertex lists: walking round them, taking vertices out, and finding a
//! position among them.

use vstd::prelude::*;
use godot::builtin::Vector2;
use crate::math::{equal, same_point};

verus! {

/// The index after `i` on a closed polygon of `len` vertices.
pub open spec fn next_index(len: int, i: int) -> int {
    if i == len - 1 {
        0
    } else {
        i + 1
    }
}

/// The index before `i` on a closed polygon of `len` vertices.
pub open spec fn prior_index(len: int, i: int) -> int {
    if i == 0 {
        len - 1
    } else {
        i - 1
    }
}

/// Index of the vertex that follows vertex `i`; the last vertex is followed by the first.
pub fn next_point<V>(points: &Vec<V>, i: usize) -> (r: usize)
    requires
        i < points.len(),
    ensures
        r == next_index(points.len() as int, i as int),
        r < points.len(),
{
    if i == points.len() - 1 {
        0
    } else {
        i + 1
    }
}

/// Index of the vertex that precedes vertex `i`; the first vertex is preceded by the last.
pub fn prior_point<V>(points: &Vec<V>, i: usize) -> (r: usize)
    requires
        i < points.len(),
    ensures
        r == prior_index(points.len() as int, i as int),
        r < points.len(),
{
    if i == 0 {
        points.len() - 1
    } else {
        i - 1
    }
}

/// Stepping forward and then back, or back and then forward, returns to the start.
pub proof fn next_and_prior_undo_each_other(len: int, i: int)
    requires
        0 <= i < len,
    ensures
        prior_index(len, next_index(len, i)) == i,
        next_index(len, prior_index(len, i)) == i,
        0 <= next_index(len, i) < len,
        0 <= prior_index(len, i) < len,
{
}

/// What is left of `s` once the positions in `dropped` are taken out, in the old order.
pub open spec fn without<V>(s: Seq<V>, dropped: Set<int>) -> Seq<V>
    decreases s.len(),
{
    if s.len() == 0 {
        s
    } else if dropped.contains(s.len() - 1) {
        without(s.drop_last(), dropped)
    } else {
        without(s.drop_last(), dropped).push(s.last())
    }
}

/// The positions that a stack of indices names.
pub open spec fn named(stack: Seq<usize>) -> Set<int> {
    Set::new(|j: int| exists|k: int| 0 <= k < stack.len() && stack[k] as int == j)
}

/// Taking positions out never makes a sequence longer, and below the lowest position taken out
/// everything stays where it was.
pub proof fn lemma_without_keeps_prefix<V>(s: Seq<V>, dropped: Set<int>, below: int)
    requires
        0 <= below <= s.len(),
        forall|j: int| dropped.contains(j) ==> j >= below,
    ensures
        below <= without(s, dropped).len() <= s.len(),
        forall|i: int| 0 <= i < below ==> without(s, dropped)[i] == s[i],
    decreases s.len(),
{
    if s.len() > 0 {
        let shorter = s.drop_last();
        let kept = without(shorter, dropped);
        if below == s.len() {
            lemma_without_keeps_prefix(shorter, dropped, below - 1);
        } else {
            lemma_without_keeps_prefix(shorter, dropped, below);
        }
        assert forall|i: int| 0 <= i < below implies without(s, dropped)[i] == s[i] by {
            if i < kept.len() {
                assert(kept[i] == shorter[i]);
            }
        }
    }
}

/// With nothing named inside the sequence, nothing is taken out.
pub proof fn lemma_without_nothing<V>(s: Seq<V>, dropped: Set<int>)
    requires
        forall|j: int| 0 <= j < s.len() ==> !dropped.contains(j),
    ensures
        without(s, dropped) == s,
    decreases s.len(),
{
    if s.len() > 0 {
        lemma_without_nothing(s.drop_last(), dropped);
    }
}

/// Taking out one more position, lower than all the others, is one `remove` at that position.
pub proof fn lemma_without_one_more<V>(s: Seq<V>, dropped: Set<int>, k: int)
    requires
        0 <= k < s.len(),
        forall|j: int| dropped.contains(j) ==> j > k,
    ensures
        k < without(s, dropped).len(),
        without(s, dropped.insert(k)) == without(s, dropped).remove(k),
    decreases s.len(),
{
    let shorter = s.drop_last();
    let last = s.len() - 1;
    lemma_without_keeps_prefix(s, dropped, k + 1);
    if k == last {
        lemma_without_keeps_prefix(shorter, dropped, last);
        lemma_without_keeps_prefix(shorter, dropped.insert(k), last);
        assert(without(shorter, dropped.insert(k)) =~= shorter);
    } else {
        lemma_without_one_more(shorter, dropped, k);
    }
}

/// `slice::sort` of std on a list of indices: afterwards the list is in ascending order and
/// holds what it held before, each index as often as before.
#[verifier::external_body]
fn sort_indices(stack: &mut Vec<usize>)
    ensures
        final(stack)@.to_multiset() == old(stack)@.to_multiset(),
        forall|i: int, j: int| 0 <= i < j < final(stack)@.len() ==> final(stack)@[i] <= final(stack)@[j],
{
    stack.sort();
}

/// Removes from `polygon` the vertices whose indices are on `stack`, and empties the stack.
///
/// The indices are sorted first and then taken from the top, so that each removal leaves the
/// indices still to come where they were.
pub fn remove_points<V>(polygon: &mut Vec<V>, stack: &mut Vec<usize>)
    requires
        old(stack)@.no_duplicates(),
        forall|k: int| 0 <= k < old(stack)@.len() ==> old(stack)@[k] < old(polygon)@.len(),
    ensures
        final(polygon)@ == without(old(polygon)@, named(old(stack)@)),
        final(stack)@.len() == 0,
{
    let ghost before = polygon@;
    let ghost unsorted = stack@;
    sort_indices(stack);
    let ghost sorted = stack@;
    proof {
        broadcast use vstd::seq_lib::to_multiset_contains;
        unsorted.lemma_multiset_has_no_duplicates();
        sorted.lemma_multiset_has_no_duplicates_conv();
        assert forall|j: usize| sorted.contains(j) <==> unsorted.contains(j) by {
            assert(sorted.to_multiset().count(j) == unsorted.to_multiset().count(j));
        }
        assert forall|k: int| 0 <= k < sorted.len() implies sorted[k] < before.len() by {
            assert(unsorted.contains(sorted[k]));
        }
        assert(named(sorted) =~= named(unsorted)) by {
            assert forall|j: int| named(sorted).contains(j) implies named(unsorted).contains(j) by {
                let k = choose|k: int| 0 <= k < sorted.len() && sorted[k] as int == j;
                assert(unsorted.contains(sorted[k]));
            }
            assert forall|j: int| named(unsorted).contains(j) implies named(sorted).contains(j) by {
                let k = choose|k: int| 0 <= k < unsorted.len() && unsorted[k] as int == j;
                assert(sorted.contains(unsorted[k]));
            }
        }
        lemma_without_nothing(before, named(sorted.skip(sorted.len() as int)));
    }
    while stack.len() > 0
        invariant
            stack@ == sorted.take(stack@.len() as int),
            stack@.len() <= sorted.len(),
            sorted.no_duplicates(),
            forall|i: int, j: int| 0 <= i < j < sorted.len() ==> sorted[i] <= sorted[j],
            forall|k: int| 0 <= k < sorted.len() ==> sorted[k] < before.len(),
            polygon@ == without(before, named(sorted.skip(stack@.len() as int))),
        decreases stack@.len(),
    {
        let ghost height = stack@.len() as int;
        let ghost done = named(sorted.skip(height));
        let index = stack.pop().unwrap();
        proof {
            assert(forall|j: int| done.contains(j) ==> j > index);
            lemma_without_one_more(before, done, index as int);
            assert(named(sorted.skip(height - 1)) =~= done.insert(index as int)) by {
                let longer = sorted.skip(height - 1);
                let shorter = sorted.skip(height);
                assert forall|j: int| named(longer).contains(j) implies done.insert(index as int).contains(j) by {
                    let k = choose|k: int| 0 <= k < longer.len() && longer[k] as int == j;
                    if k > 0 {
                        assert(shorter[k - 1] as int == j);
                    }
                }
                assert forall|j: int| done.insert(index as int).contains(j) implies named(longer).contains(j) by {
                    if j == index as int {
                        assert(longer[0] as int == j);
                    } else {
                        let k = choose|k: int| 0 <= k < shorter.len() && shorter[k] as int == j;
                        assert(longer[k + 1] as int == j);
                    }
                }
            }
        }
        polygon.remove(index);
    }
    proof {
        assert(sorted.skip(0) =~= sorted);
    }
}

/// `r` is the first vertex that equals `position`, or nothing where no vertex does.
pub open spec fn is_first_at(points: Seq<Vector2>, position: Vector2, r: Option<usize>) -> bool {
    match r {
        Some(index) => {
            &&& index < points.len()
            &&& equal(points[index as int], position)
            &&& forall|j: int| 0 <= j < index ==> !equal(#[trigger] points[j], position)
        },
        None => forall|j: int| 0 <= j < points.len() ==> !equal(#[trigger] points[j], position),
    }
}

/// Index of the first vertex that equals `position`.
pub fn find_point(points: &Vec<Vector2>, position: Vector2) -> (r: Option<usize>)
    ensures
        is_first_at(points@, position, r),
{
    let mut i: usize = 0;
    while i < points.len()
        invariant
            i <= points.len(),
            forall|j: int| 0 <= j < i ==> !equal(#[trigger] points@[j], position),
        decreases points.len() - i,
    {
        if same_point(points[i], position) {
            return Some(i);
        }
        i += 1;
    }
    None
}

} // verus!
