//! What the stacking order is: a rearrangement of the slices given, by
//! ascending z, with slices of equal rank in their order of arrival.

use crate::dicom::assembly::{insert_by_z, same_grid_spec, slice_z_spec, sort_by_z, stack_order};
use crate::error::VolumeError;
use crate::dicom::ct_image::CTImage;
use crate::dicom::table::{children, lemma_children_upto};
use crate::field::Field;
use vstd::prelude::*;
use vstd::seq_lib::{to_multiset_build, to_multiset_contains};

verus! {

/// The order of `T` ranks its scalars: no two are each below the other, and
/// being not below is transitive.
#[verifier::opaque]
pub open spec fn ranks_scalars<T: Field>() -> bool {
    &&& forall|a: T, b: T| #[trigger] a.lt_spec(b) ==> !b.lt_spec(a)
    &&& forall|a: T, b: T, c: T|
        !(#[trigger] a.lt_spec(b)) && !(#[trigger] b.lt_spec(c)) ==> !a.lt_spec(c)
}

/// No two scalars are each below the other.
pub proof fn lemma_asymmetric<T: Field>(a: T, b: T)
    requires
        ranks_scalars::<T>(),
        a.lt_spec(b),
    ensures
        !b.lt_spec(a),
{
    reveal(ranks_scalars);
}

/// Being not below is transitive.
pub proof fn lemma_not_below<T: Field>(a: T, b: T, c: T)
    requires
        ranks_scalars::<T>(),
        !a.lt_spec(b),
        !b.lt_spec(c),
    ensures
        !a.lt_spec(c),
{
    reveal(ranks_scalars);
}

/// Slice `a` is stacked before slice `b`: it lies below in z, or at the same
/// rank and arrived earlier.
pub open spec fn precedes<T: Field>(images: Seq<CTImage<T>>, a: usize, b: usize) -> bool {
    let za = slice_z_spec(images[a as int]);
    let zb = slice_z_spec(images[b as int]);
    za.lt_spec(zb) || (!zb.lt_spec(za) && a < b)
}

/// Each slice of `order` precedes every later one.
pub open spec fn stacked_in_order<T: Field>(images: Seq<CTImage<T>>, order: Seq<usize>) -> bool {
    forall|k: int, l: int|
        0 <= k < l < order.len() ==> precedes(images, #[trigger] order[k], #[trigger] order[l])
}

/// The positions of `order` ascend strictly: the slices are in their order
/// of arrival.
pub open spec fn ascending(order: Seq<usize>) -> bool {
    forall|k: int, l: int| 0 <= k < l < order.len() ==> #[trigger] order[k] < #[trigger] order[l]
}

/// Inserting a slice adds that slice and no other.
pub proof fn lemma_insert_is_rearrangement<T: Field>(
    images: Seq<CTImage<T>>,
    order: Seq<usize>,
    x: usize,
)
    ensures
        insert_by_z(images, order, x).to_multiset() == order.to_multiset().insert(x),
    decreases order.len(),
{
    if order.len() == 0 || !slice_z_spec(images[x as int]).lt_spec(
        slice_z_spec(images[order.last() as int]),
    ) {
        to_multiset_build(order, x);
    } else {
        let rest = order.drop_last();
        let last = order.last();
        lemma_insert_is_rearrangement(images, rest, x);
        to_multiset_build(insert_by_z(images, rest, x), last);
        to_multiset_build(rest, last);
        assert(rest.push(last) =~= order);
        assert(rest.to_multiset().insert(x).insert(last) =~= rest.to_multiset().insert(last).insert(
            x,
        ));
    }
}

/// The stacking order holds the slices given, each as often as given.
pub proof fn lemma_sort_is_rearrangement<T: Field>(images: Seq<CTImage<T>>, order: Seq<usize>)
    ensures
        sort_by_z(images, order).to_multiset() == order.to_multiset(),
    decreases order.len(),
{
    if order.len() > 0 {
        let rest = order.drop_last();
        lemma_sort_is_rearrangement(images, rest);
        lemma_insert_is_rearrangement(images, sort_by_z(images, rest), order.last());
        to_multiset_build(rest, order.last());
        assert(rest.push(order.last()) =~= order);
    }
}

/// Inserting a slice that arrived after all those in place keeps the
/// stack in order.
proof fn lemma_insert_keeps_order<T: Field>(images: Seq<CTImage<T>>, order: Seq<usize>, x: usize)
    requires
        ranks_scalars::<T>(),
        stacked_in_order(images, order),
        forall|k: int| 0 <= k < order.len() ==> #[trigger] order[k] < x,
    ensures
        stacked_in_order(images, insert_by_z(images, order, x)),
    decreases order.len(),
{
    let zx = slice_z_spec(images[x as int]);
    let r = insert_by_z(images, order, x);
    if order.len() == 0 {
    } else if !zx.lt_spec(slice_z_spec(images[order.last() as int])) {
        let last = order.last();
        let zl = slice_z_spec(images[last as int]);
        assert forall|k: int, l: int| 0 <= k < l < r.len() implies precedes(
            images,
            #[trigger] r[k],
            #[trigger] r[l],
        ) by {
            if l == order.len() {
                let zk = slice_z_spec(images[order[k] as int]);
                if k < order.len() - 1 {
                    assert(precedes(images, order[k], order[order.len() - 1]));
                    if zk.lt_spec(zl) {
                        lemma_asymmetric(zk, zl);
                    }
                    lemma_not_below(zx, zl, zk);
                }
            } else {
                assert(precedes(images, order[k], order[l]));
            }
        }
    } else {
        let rest = order.drop_last();
        let last = order.last();
        let inner = insert_by_z(images, rest, x);
        assert(stacked_in_order(images, rest)) by {
            assert forall|k: int, l: int| 0 <= k < l < rest.len() implies precedes(
                images,
                #[trigger] rest[k],
                #[trigger] rest[l],
            ) by {
                assert(precedes(images, order[k], order[l]));
            }
        }
        assert forall|k: int| 0 <= k < rest.len() implies #[trigger] rest[k] < x by {
            assert(order[k] < x);
        }
        lemma_insert_keeps_order(images, rest, x);
        lemma_insert_is_rearrangement(images, rest, x);
        assert forall|k: int, l: int| 0 <= k < l < r.len() implies precedes(
            images,
            #[trigger] r[k],
            #[trigger] r[l],
        ) by {
            if l < inner.len() {
                assert(precedes(images, inner[k], inner[l]));
            } else {
                let e = inner[k];
                to_multiset_contains(inner, e);
                to_multiset_contains(rest, e);
                assert(inner.contains(e));
                if e != x {
                    assert(rest.to_multiset().insert(x).count(e) == rest.to_multiset().count(e));
                    let q = choose|q: int| 0 <= q < rest.len() && rest[q] == e;
                    assert(precedes(images, order[q], order[order.len() - 1]));
                }
            }
        }
    }
}

/// Where the order of the scalars ranks them, and the slices are given in
/// their order of arrival, the stacking order runs by ascending z, and
/// slices of equal rank stay in their order of arrival.
pub proof fn lemma_sort_is_in_order<T: Field>(images: Seq<CTImage<T>>, order: Seq<usize>)
    requires
        ranks_scalars::<T>(),
        ascending(order),
    ensures
        stacked_in_order(images, sort_by_z(images, order)),
    decreases order.len(),
{
    if order.len() > 0 {
        let rest = order.drop_last();
        let x = order.last();
        let sorted = sort_by_z(images, rest);
        assert(ascending(rest)) by {
            assert forall|k: int, l: int| 0 <= k < l < rest.len() implies #[trigger] rest[k]
                < #[trigger] rest[l] by {
                assert(order[k] < order[l]);
            }
        }
        lemma_sort_is_in_order(images, rest);
        lemma_sort_is_rearrangement(images, rest);
        assert forall|k: int| 0 <= k < sorted.len() implies #[trigger] sorted[k] < x by {
            let e = sorted[k];
            to_multiset_contains(sorted, e);
            to_multiset_contains(rest, e);
            assert(sorted.contains(e));
            let q = choose|q: int| 0 <= q < rest.len() && rest[q] == e;
            assert(order[q] < order[order.len() - 1]);
        }
        lemma_insert_keeps_order(images, sorted, x);
    }
}

/// The slices of a series are stacked by ascending z, those of equal rank
/// in their order of arrival, and the stack holds each slice of the series
/// once.
pub proof fn lemma_series_is_stacked_in_order<T: Field>(
    images: Seq<CTImage<T>>,
    series: Seq<char>,
)
    requires
        ranks_scalars::<T>(),
        images.len() <= usize::MAX,
    ensures
        stacked_in_order(images, sort_by_z(images, children(images, series))),
        sort_by_z(images, children(images, series)).to_multiset() == children(
            images,
            series,
        ).to_multiset(),
        ascending(children(images, series)),
{
    lemma_children_upto(images, series, images.len() as int);
    lemma_sort_is_in_order(images, children(images, series));
    lemma_sort_is_rearrangement(images, children(images, series));
}

/// A series with two slices that differ in rows or in columns is not
/// stacked: the grid is found inconsistent, wherever the two slices stand.
pub proof fn lemma_mismatch_is_rejected<T: Field>(
    images: Seq<CTImage<T>>,
    picked: Seq<usize>,
    a: int,
    b: int,
)
    requires
        0 <= a < picked.len(),
        0 <= b < picked.len(),
        images[picked[a] as int].rows != images[picked[b] as int].rows || images[picked[a] as int].columns
            != images[picked[b] as int].columns,
    ensures
        stack_order(picked, images) == Err::<Seq<usize>, VolumeError>(
            VolumeError::InconsistentGeometry,
        ),
{
    let sorted = sort_by_z(images, picked);
    lemma_sort_is_rearrangement(images, picked);
    if same_grid_spec(images, sorted) {
        to_multiset_contains(picked, picked[a]);
        to_multiset_contains(picked, picked[b]);
        to_multiset_contains(sorted, picked[a]);
        to_multiset_contains(sorted, picked[b]);
        assert(picked.contains(picked[a]));
        assert(picked.contains(picked[b]));
        let i = choose|i: int| 0 <= i < sorted.len() && sorted[i] == picked[a];
        let j = choose|j: int| 0 <= j < sorted.len() && sorted[j] == picked[b];
        assert(images[sorted[i] as int].rows == images[sorted[0] as int].rows);
        assert(images[sorted[j] as int].rows == images[sorted[0] as int].rows);
        assert(false);
    }
}

/// A scalar below one that is below another is below that one.
pub proof fn lemma_below_is_transitive<T: Field>(a: T, b: T, c: T)
    requires
        ranks_scalars::<T>(),
        a.lt_spec(b),
        b.lt_spec(c),
    ensures
        a.lt_spec(c),
{
    lemma_asymmetric(a, b);
    lemma_asymmetric(b, c);
    if !a.lt_spec(c) {
        lemma_not_below(a, c, b);
    }
}

/// Each slice of `order` lies strictly below every later one.
pub open spec fn strictly_stacked<T: Field>(images: Seq<CTImage<T>>, order: Seq<usize>) -> bool {
    forall|k: int, l: int|
        0 <= k < l < order.len() ==> slice_z_spec(images[(#[trigger] order[k]) as int]).lt_spec(
            slice_z_spec(images[(#[trigger] order[l]) as int]),
        )
}

/// No two slices of `order` have the same rank: of any two, one lies
/// strictly below the other.
pub open spec fn distinct_ranks<T: Field>(images: Seq<CTImage<T>>, order: Seq<usize>) -> bool {
    forall|k: int, l: int|
        0 <= k < l < order.len() ==> {
            let zk = slice_z_spec(images[(#[trigger] order[k]) as int]);
            let zl = slice_z_spec(images[(#[trigger] order[l]) as int]);
            zk.lt_spec(zl) || zl.lt_spec(zk)
        }
}

/// Inserting a slice of a rank of its own keeps a strict stack strict.
proof fn lemma_insert_keeps_strict<T: Field>(images: Seq<CTImage<T>>, order: Seq<usize>, x: usize)
    requires
        ranks_scalars::<T>(),
        strictly_stacked(images, order),
        forall|k: int|
            0 <= k < order.len() ==> {
                let zk = slice_z_spec(images[(#[trigger] order[k]) as int]);
                let zx = slice_z_spec(images[x as int]);
                zk.lt_spec(zx) || zx.lt_spec(zk)
            },
    ensures
        strictly_stacked(images, insert_by_z(images, order, x)),
    decreases order.len(),
{
    let zx = slice_z_spec(images[x as int]);
    let r = insert_by_z(images, order, x);
    if order.len() == 0 {
    } else if !zx.lt_spec(slice_z_spec(images[order.last() as int])) {
        let zl = slice_z_spec(images[order.last() as int]);
        assert(order[order.len() - 1] == order.last());
        assert forall|k: int, l: int| 0 <= k < l < r.len() implies slice_z_spec(
            images[(#[trigger] r[k]) as int],
        ).lt_spec(slice_z_spec(images[(#[trigger] r[l]) as int])) by {
            if l == order.len() {
                if k < order.len() - 1 {
                    let zk = slice_z_spec(images[order[k] as int]);
                    assert(zk.lt_spec(slice_z_spec(images[order[order.len() - 1] as int])));
                    lemma_below_is_transitive(zk, zl, zx);
                }
            } else {
                assert(slice_z_spec(images[order[k] as int]).lt_spec(
                    slice_z_spec(images[order[l] as int]),
                ));
            }
        }
    } else {
        let rest = order.drop_last();
        let last = order.last();
        let inner = insert_by_z(images, rest, x);
        assert(strictly_stacked(images, rest)) by {
            assert forall|k: int, l: int| 0 <= k < l < rest.len() implies slice_z_spec(
                images[(#[trigger] rest[k]) as int],
            ).lt_spec(slice_z_spec(images[(#[trigger] rest[l]) as int])) by {
                assert(slice_z_spec(images[order[k] as int]).lt_spec(
                    slice_z_spec(images[order[l] as int]),
                ));
            }
        }
        assert forall|k: int| 0 <= k < rest.len() implies {
            let zk = slice_z_spec(images[(#[trigger] rest[k]) as int]);
            zk.lt_spec(zx) || zx.lt_spec(zk)
        } by {
            assert(rest[k] == order[k]);
        }
        lemma_insert_keeps_strict(images, rest, x);
        lemma_insert_is_rearrangement(images, rest, x);
        assert forall|k: int, l: int| 0 <= k < l < r.len() implies slice_z_spec(
            images[(#[trigger] r[k]) as int],
        ).lt_spec(slice_z_spec(images[(#[trigger] r[l]) as int])) by {
            if l < inner.len() {
                assert(slice_z_spec(images[inner[k] as int]).lt_spec(
                    slice_z_spec(images[inner[l] as int]),
                ));
            } else {
                let e = inner[k];
                to_multiset_contains(inner, e);
                to_multiset_contains(rest, e);
                assert(inner.contains(e));
                if e != x {
                    assert(rest.to_multiset().insert(x).count(e) == rest.to_multiset().count(e));
                    let q = choose|q: int| 0 <= q < rest.len() && rest[q] == e;
                    assert(slice_z_spec(images[order[q] as int]).lt_spec(
                        slice_z_spec(images[order[order.len() - 1] as int]),
                    ));
                }
            }
        }
    }
}

/// Where no two slices have the same rank, the stacking order is strict.
pub proof fn lemma_sort_is_strict<T: Field>(images: Seq<CTImage<T>>, order: Seq<usize>)
    requires
        ranks_scalars::<T>(),
        distinct_ranks(images, order),
    ensures
        strictly_stacked(images, sort_by_z(images, order)),
    decreases order.len(),
{
    if order.len() > 0 {
        let rest = order.drop_last();
        let x = order.last();
        let sorted = sort_by_z(images, rest);
        assert(distinct_ranks(images, rest)) by {
            assert forall|k: int, l: int| 0 <= k < l < rest.len() implies {
                let zk = slice_z_spec(images[(#[trigger] rest[k]) as int]);
                let zl = slice_z_spec(images[(#[trigger] rest[l]) as int]);
                zk.lt_spec(zl) || zl.lt_spec(zk)
            } by {
                assert(rest[k] == order[k] && rest[l] == order[l]);
            }
        }
        lemma_sort_is_strict(images, rest);
        lemma_sort_is_rearrangement(images, rest);
        assert forall|k: int| 0 <= k < sorted.len() implies {
            let zk = slice_z_spec(images[(#[trigger] sorted[k]) as int]);
            let zx = slice_z_spec(images[x as int]);
            zk.lt_spec(zx) || zx.lt_spec(zk)
        } by {
            let e = sorted[k];
            to_multiset_contains(sorted, e);
            to_multiset_contains(rest, e);
            assert(sorted.contains(e));
            let q = choose|q: int| 0 <= q < rest.len() && rest[q] == e;
            assert(order[q] == e && order[order.len() - 1] == x);
        }
        lemma_insert_keeps_strict(images, sorted, x);
    }
}

/// Two strict stacks of the same slices are the same stack.
pub proof fn lemma_strict_stack_is_unique<T: Field>(
    images: Seq<CTImage<T>>,
    first: Seq<usize>,
    second: Seq<usize>,
)
    requires
        ranks_scalars::<T>(),
        strictly_stacked(images, first),
        strictly_stacked(images, second),
        first.to_multiset() == second.to_multiset(),
    ensures
        first == second,
    decreases first.len(),
{
    vstd::seq_lib::to_multiset_len(first);
    vstd::seq_lib::to_multiset_len(second);
    if first.len() == 0 {
        assert(first =~= second);
    } else {
        let n = first.len() as int;
        let a = first.last();
        let b = second.last();
        let za = slice_z_spec(images[a as int]);
        let zb = slice_z_spec(images[b as int]);
        to_multiset_contains(first, a);
        to_multiset_contains(second, a);
        to_multiset_contains(first, b);
        to_multiset_contains(second, b);
        assert(first.contains(a)) by {
            assert(first[n - 1] == a);
        }
        assert(second.contains(b)) by {
            assert(second[n - 1] == b);
        }
        if a != b {
            let i = choose|i: int| 0 <= i < first.len() && first[i] == b;
            let j = choose|j: int| 0 <= j < second.len() && second[j] == a;
            assert(slice_z_spec(images[first[i] as int]).lt_spec(
                slice_z_spec(images[first[n - 1] as int]),
            ));
            assert(slice_z_spec(images[second[j] as int]).lt_spec(
                slice_z_spec(images[second[n - 1] as int]),
            ));
            lemma_asymmetric(za, zb);
            assert(false);
        }
        let head = first.drop_last();
        let other = second.drop_last();
        to_multiset_build(head, a);
        to_multiset_build(other, b);
        assert(head.push(a) =~= first);
        assert(other.push(b) =~= second);
        assert(head.to_multiset() =~= first.to_multiset().remove(a));
        assert(other.to_multiset() =~= second.to_multiset().remove(b));
        assert(strictly_stacked(images, head)) by {
            assert forall|k: int, l: int| 0 <= k < l < head.len() implies slice_z_spec(
                images[(#[trigger] head[k]) as int],
            ).lt_spec(slice_z_spec(images[(#[trigger] head[l]) as int])) by {
                assert(head[k] == first[k] && head[l] == first[l]);
            }
        }
        assert(strictly_stacked(images, other)) by {
            assert forall|k: int, l: int| 0 <= k < l < other.len() implies slice_z_spec(
                images[(#[trigger] other[k]) as int],
            ).lt_spec(slice_z_spec(images[(#[trigger] other[l]) as int])) by {
                assert(other[k] == second[k] && other[l] == second[l]);
            }
        }
        lemma_strict_stack_is_unique(images, head, other);
    }
}

/// Where no two slices have the same rank, the stacking order does not
/// depend on the order in which the slices are given.
pub proof fn lemma_order_of_arrival_is_immaterial<T: Field>(
    images: Seq<CTImage<T>>,
    first: Seq<usize>,
    second: Seq<usize>,
)
    requires
        ranks_scalars::<T>(),
        distinct_ranks(images, first),
        distinct_ranks(images, second),
        first.to_multiset() == second.to_multiset(),
    ensures
        sort_by_z(images, first) == sort_by_z(images, second),
{
    lemma_sort_is_strict(images, first);
    lemma_sort_is_strict(images, second);
    lemma_sort_is_rearrangement(images, first);
    lemma_sort_is_rearrangement(images, second);
    lemma_strict_stack_is_unique(images, sort_by_z(images, first), sort_by_z(images, second));
}

} // verus!
