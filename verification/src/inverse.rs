//! Why Gauss-Jordan elimination inverts: over exact scalars, what
//! `mat_inverse` returns is the inverse, and it returns one whenever there is
//! one.

use crate::algebra::{lemma_mat_mul_assoc, lemma_mat_mul_identity};
use crate::coord::{
    augment, eliminate, gauss_step, gauss_steps, mat_identity, mat_inverse, mat_mul, mul_entry,
    normalize, pivot_row, pivot_scan, right_half, shaped, swap_rows,
};
use crate::exact::{
    exact_field, lemma_div_as_mul, lemma_magnitude, lemma_neutral, lemma_sub_add,
    lemma_sub_as_add, lemma_zero_test,
};
use crate::field::Field;
use vstd::prelude::*;

verus! {

/// Columns `0..4` of the working rows.
pub open spec fn left_half<T>(m: Seq<Seq<T>>) -> Seq<Seq<T>> {
    Seq::new(4, |i: int| Seq::new(4, |j: int| m[i][j]))
}

/// The identity with rows `i` and `p` exchanged: multiplying by it from the
/// left exchanges those rows.
pub open spec fn swap_matrix<T: Field>(i: int, p: int) -> Seq<Seq<T>> {
    Seq::new(
        4,
        |r: int|
            Seq::new(
                4,
                |c: int|
                    if (if r == i {
                        p
                    } else if r == p {
                        i
                    } else {
                        r
                    }) == c {
                        T::one_spec()
                    } else {
                        T::zero_spec()
                    },
            ),
    )
}

/// The identity with `s` at `(i, i)`: multiplying by it from the left
/// multiplies row `i` by `s`.
pub open spec fn scale_matrix<T: Field>(i: int, s: T) -> Seq<Seq<T>> {
    Seq::new(
        4,
        |r: int|
            Seq::new(
                4,
                |c: int|
                    if r != c {
                        T::zero_spec()
                    } else if r == i {
                        s
                    } else {
                        T::one_spec()
                    },
            ),
    )
}

/// The identity with column `i` replaced by `f` off the diagonal:
/// multiplying by it from the left adds `f[r]` times row `i` to each other
/// row `r`.
pub open spec fn shear_matrix<T: Field>(i: int, f: Seq<T>) -> Seq<Seq<T>> {
    Seq::new(
        4,
        |r: int|
            Seq::new(
                4,
                |c: int|
                    if r == c {
                        T::one_spec()
                    } else if c == i {
                        f[r]
                    } else {
                        T::zero_spec()
                    },
            ),
    )
}

/// Column `i` of the working rows.
pub open spec fn column_of<T>(m: Seq<Seq<T>>, i: int) -> Seq<T> {
    Seq::new(4, |r: int| m[r][i])
}

/// Column `i` of the working rows, each entry taken from zero.
pub open spec fn negated_column_of<T: Field>(m: Seq<Seq<T>>, i: int) -> Seq<T> {
    Seq::new(4, |r: int| T::zero_spec().sub_spec(m[r][i]))
}

/// What is known of the working rows `m` while `a` is being inverted: the
/// right half times `a` is the left half, and `n` times the right half is
/// the identity.
pub open spec fn certified<T: Field>(a: Seq<Seq<T>>, m: Seq<Seq<T>>, n: Seq<Seq<T>>) -> bool {
    &&& shaped(m, 4, 8)
    &&& shaped(n, 4, 4)
    &&& mat_mul(right_half(m), a) == left_half(m)
    &&& mat_mul(n, right_half(m)) == mat_identity::<T>()
}

/// The first `i` columns of the working rows are those of the identity.
pub open spec fn columns_done<T: Field>(m: Seq<Seq<T>>, i: int) -> bool {
    forall|r: int, c: int|
        0 <= r < 4 && 0 <= c < i ==> #[trigger] m[r][c] == if r == c {
            T::one_spec()
        } else {
            T::zero_spec()
        }
}

/// A row operation, given as multiplication by `e` with `f * e` the
/// identity, keeps the working rows certified.
proof fn lemma_row_operation<T: Field>(
    a: Seq<Seq<T>>,
    m: Seq<Seq<T>>,
    n: Seq<Seq<T>>,
    e: Seq<Seq<T>>,
    f: Seq<Seq<T>>,
    m2: Seq<Seq<T>>,
)
    requires
        exact_field::<T>(),
        certified(a, m, n),
        shaped(m2, 4, 8),
        left_half(m2) == mat_mul(e, left_half(m)),
        right_half(m2) == mat_mul(e, right_half(m)),
        mat_mul(f, e) == mat_identity::<T>(),
    ensures
        certified(a, m2, mat_mul(n, f)),
{
    let r = right_half(m);
    lemma_mat_mul_assoc(e, r, a);
    lemma_mat_mul_assoc(n, f, mat_mul(e, r));
    lemma_mat_mul_assoc(f, e, r);
    lemma_mat_mul_identity(r);
}

/// Exchanging two rows is multiplication by the swap matrix, which is its
/// own inverse.
proof fn lemma_swap<T: Field>(m: Seq<Seq<T>>, i: int, p: int)
    requires
        exact_field::<T>(),
        shaped(m, 4, 8),
        0 <= i < 4,
        0 <= p < 4,
    ensures
        shaped(swap_rows(m, i, p), 4, 8),
        left_half(swap_rows(m, i, p)) == mat_mul(swap_matrix::<T>(i, p), left_half(m)),
        right_half(swap_rows(m, i, p)) == mat_mul(swap_matrix::<T>(i, p), right_half(m)),
        mat_mul(swap_matrix::<T>(i, p), swap_matrix::<T>(i, p)) == mat_identity::<T>(),
{
    lemma_neutral::<T>();
    let s = swap_matrix::<T>(i, p);
    let m2 = swap_rows(m, i, p);
    assert forall|r: int, c: int| 0 <= r < 4 && 0 <= c < 4 implies #[trigger] left_half(m2)[r][c]
        == mat_mul(s, left_half(m))[r][c] by {
        assert(mul_entry(s, left_half(m), r, c) == m2[r][c]);
    }
    assert forall|r: int, c: int| 0 <= r < 4 && 0 <= c < 4 implies #[trigger] right_half(
        m2,
    )[r][c] == mat_mul(s, right_half(m))[r][c] by {
        assert(mul_entry(s, right_half(m), r, c) == m2[r][c + 4]);
    }
    assert forall|r: int, c: int| 0 <= r < 4 && 0 <= c < 4 implies #[trigger] mat_mul(s, s)[r][c]
        == mat_identity::<T>()[r][c] by {
        assert(mul_entry(s, s, r, c) == mat_identity::<T>()[r][c]);
    }
    assert(left_half(m2) =~~= mat_mul(s, left_half(m)));
    assert(right_half(m2) =~~= mat_mul(s, right_half(m)));
    assert(mat_mul(s, s) =~~= mat_identity::<T>());
}

/// Dividing row `i` by a nonzero pivot is multiplication by a scale matrix,
/// and the scale matrix of the pivot undoes it.
proof fn lemma_normalize<T: Field>(m: Seq<Seq<T>>, i: int)
    requires
        exact_field::<T>(),
        shaped(m, 4, 8),
        0 <= i < 4,
        !m[i][i].is_zero_spec(),
    ensures
        shaped(normalize(m, i), 4, 8),
        left_half(normalize(m, i)) == mat_mul(
            scale_matrix(i, T::one_spec().div_spec(m[i][i])),
            left_half(m),
        ),
        right_half(normalize(m, i)) == mat_mul(
            scale_matrix(i, T::one_spec().div_spec(m[i][i])),
            right_half(m),
        ),
        mat_mul(scale_matrix(i, m[i][i]), scale_matrix(i, T::one_spec().div_spec(m[i][i])))
            == mat_identity::<T>(),
{
    lemma_neutral::<T>();
    let pv = m[i][i];
    let d = T::one_spec().div_spec(pv);
    let e = scale_matrix(i, d);
    let f = scale_matrix(i, pv);
    let m2 = normalize(m, i);
    assert forall|r: int, c: int| 0 <= r < 4 && 0 <= c < 4 implies #[trigger] left_half(m2)[r][c]
        == mat_mul(e, left_half(m))[r][c] by {
        lemma_div_as_mul(m[i][c], pv);
        assert(mul_entry(e, left_half(m), r, c) == m2[r][c]);
    }
    assert forall|r: int, c: int| 0 <= r < 4 && 0 <= c < 4 implies #[trigger] right_half(
        m2,
    )[r][c] == mat_mul(e, right_half(m))[r][c] by {
        lemma_div_as_mul(m[i][c + 4], pv);
        assert(mul_entry(e, right_half(m), r, c) == m2[r][c + 4]);
    }
    assert forall|r: int, c: int| 0 <= r < 4 && 0 <= c < 4 implies #[trigger] mat_mul(f, e)[r][c]
        == mat_identity::<T>()[r][c] by {
        lemma_div_as_mul(pv, pv);
        assert(mul_entry(f, e, r, c) == mat_identity::<T>()[r][c]);
    }
    assert(left_half(m2) =~~= mat_mul(e, left_half(m)));
    assert(right_half(m2) =~~= mat_mul(e, right_half(m)));
    assert(mat_mul(f, e) =~~= mat_identity::<T>());
}

/// Clearing column `i` is multiplication by a shear matrix, and the shear
/// matrix of the column itself undoes it.
proof fn lemma_eliminate<T: Field>(m: Seq<Seq<T>>, i: int)
    requires
        exact_field::<T>(),
        shaped(m, 4, 8),
        0 <= i < 4,
    ensures
        shaped(eliminate(m, i), 4, 8),
        left_half(eliminate(m, i)) == mat_mul(
            shear_matrix(i, negated_column_of(m, i)),
            left_half(m),
        ),
        right_half(eliminate(m, i)) == mat_mul(
            shear_matrix(i, negated_column_of(m, i)),
            right_half(m),
        ),
        mat_mul(shear_matrix(i, column_of(m, i)), shear_matrix(i, negated_column_of(m, i)))
            == mat_identity::<T>(),
{
    lemma_neutral::<T>();
    let e = shear_matrix(i, negated_column_of(m, i));
    let f = shear_matrix(i, column_of(m, i));
    let m2 = eliminate(m, i);
    assert forall|r: int, c: int| 0 <= r < 4 && 0 <= c < 4 implies #[trigger] left_half(m2)[r][c]
        == mat_mul(e, left_half(m))[r][c] by {
        lemma_sub_as_add(m[r][c], m[r][i], m[i][c]);
        assert(mul_entry(e, left_half(m), r, c) == m2[r][c]);
    }
    assert forall|r: int, c: int| 0 <= r < 4 && 0 <= c < 4 implies #[trigger] right_half(
        m2,
    )[r][c] == mat_mul(e, right_half(m))[r][c] by {
        lemma_sub_as_add(m[r][c + 4], m[r][i], m[i][c + 4]);
        assert(mul_entry(e, right_half(m), r, c) == m2[r][c + 4]);
    }
    assert forall|r: int, c: int| 0 <= r < 4 && 0 <= c < 4 implies #[trigger] mat_mul(f, e)[r][c]
        == mat_identity::<T>()[r][c] by {
        lemma_sub_as_add(T::zero_spec(), m[r][i], T::one_spec());
        assert(mul_entry(f, e, r, c) == mat_identity::<T>()[r][c]);
    }
    assert(left_half(m2) =~~= mat_mul(e, left_half(m)));
    assert(right_half(m2) =~~= mat_mul(e, right_half(m)));
    assert(mat_mul(f, e) =~~= mat_identity::<T>());
}

/// The pivot search stays within the rows it was given, and finds a nonzero
/// entry where there is one: if the entry chosen is zero, so is the entry of
/// every row searched.
proof fn lemma_pivot_scan<T: Field>(m: Seq<Seq<T>>, col: int, k: int, best: int)
    requires
        exact_field::<T>(),
        0 <= col <= best < k <= 4,
        forall|r: int|
            col <= r < k && m[best][col].is_zero_spec() ==> (#[trigger] m[r][col]).is_zero_spec(),
    ensures
        col <= pivot_scan(m, col, k, best) < 4,
        forall|r: int|
            col <= r < 4 && m[pivot_scan(m, col, k, best)][col].is_zero_spec() ==> (
            #[trigger] m[r][col]).is_zero_spec(),
    decreases 4 - k,
{
    if k < 4 {
        lemma_magnitude(m[k][col]);
        lemma_magnitude(m[best][col]);
        lemma_zero_test(m[k][col]);
        lemma_zero_test(m[best][col]);
        if m[best][col].abs_spec().lt_spec(m[k][col].abs_spec()) {
            lemma_pivot_scan(m, col, k + 1, k);
        } else {
            lemma_pivot_scan(m, col, k + 1, best);
        }
    }
}

/// The pivot row for column `i` is one of the rows `i..4`, and its entry is
/// zero only where the entry of each of those rows is.
pub proof fn lemma_pivot_row<T: Field>(m: Seq<Seq<T>>, i: int)
    requires
        exact_field::<T>(),
        0 <= i < 4,
    ensures
        i <= pivot_row(m, i) < 4,
        forall|r: int|
            i <= r < 4 && m[pivot_row(m, i)][i].is_zero_spec() ==> (#[trigger] m[r][i]).is_zero_spec(),
{
    lemma_pivot_scan(m, i, i + 1, i);
}

/// One column of the elimination keeps the working rows certified and
/// finishes one more column.
proof fn lemma_gauss_step<T: Field>(a: Seq<Seq<T>>, m: Seq<Seq<T>>, n: Seq<Seq<T>>, i: int) -> (n2:
    Seq<Seq<T>>)
    requires
        exact_field::<T>(),
        certified(a, m, n),
        columns_done(m, i),
        0 <= i < 4,
        gauss_step(m, i) is Some,
    ensures
        certified(a, gauss_step(m, i).unwrap(), n2),
        columns_done(gauss_step(m, i).unwrap(), i + 1),
{
    lemma_neutral::<T>();
    let p = pivot_row(m, i);
    lemma_pivot_row(m, i);
    let m1 = swap_rows(m, i, p);
    lemma_swap(m, i, p);
    let s = swap_matrix::<T>(i, p);
    lemma_row_operation(a, m, n, s, s, m1);
    let n1 = mat_mul(n, s);
    assert(columns_done(m1, i)) by {
        assert forall|r: int, c: int| 0 <= r < 4 && 0 <= c < i implies #[trigger] m1[r][c] == if r
            == c {
            T::one_spec()
        } else {
            T::zero_spec()
        } by {
            assert(m[i][c] == T::zero_spec());
            assert(m[p][c] == T::zero_spec());
            assert(m[r][c] == if r == c {
                T::one_spec()
            } else {
                T::zero_spec()
            });
        }
    }
    let pv = m1[i][i];
    assert(pv == m[p][i]);
    let m2 = normalize(m1, i);
    lemma_normalize(m1, i);
    lemma_row_operation(
        a,
        m1,
        n1,
        scale_matrix(i, T::one_spec().div_spec(pv)),
        scale_matrix(i, pv),
        m2,
    );
    let n2 = mat_mul(n1, scale_matrix(i, pv));
    assert(m2[i][i] == T::one_spec()) by {
        lemma_div_as_mul(pv, pv);
    }
    assert(columns_done(m2, i)) by {
        assert forall|r: int, c: int| 0 <= r < 4 && 0 <= c < i implies #[trigger] m2[r][c] == if r
            == c {
            T::one_spec()
        } else {
            T::zero_spec()
        } by {
            lemma_div_as_mul(T::zero_spec(), pv);
            assert(m1[r][c] == if r == c {
                T::one_spec()
            } else {
                T::zero_spec()
            });
        }
    }
    let m3 = eliminate(m2, i);
    lemma_eliminate(m2, i);
    lemma_row_operation(
        a,
        m2,
        n2,
        shear_matrix(i, negated_column_of(m2, i)),
        shear_matrix(i, column_of(m2, i)),
        m3,
    );
    let n3 = mat_mul(n2, shear_matrix(i, column_of(m2, i)));
    assert(columns_done(m3, i + 1)) by {
        assert forall|r: int, c: int| 0 <= r < 4 && 0 <= c < i + 1 implies #[trigger] m3[r][c]
            == if r == c {
            T::one_spec()
        } else {
            T::zero_spec()
        } by {
            if r != i {
                let x = m2[r][c];
                let f = m2[r][i];
                assert(m3[r][c] == x.sub_spec(f.mul_spec(m2[i][c])));
                if c < i {
                    assert(m2[i][c] == T::zero_spec());
                    assert(m2[r][c] == if r == c {
                        T::one_spec()
                    } else {
                        T::zero_spec()
                    });
                    lemma_sub_add(x, T::zero_spec());
                } else {
                    lemma_sub_add(T::zero_spec(), x);
                }
            } else {
                if c < i {
                    assert(m2[i][c] == T::zero_spec());
                }
            }
        }
    }
    n3
}

/// After `k` columns of the elimination on `[a | identity]`, the working
/// rows are certified and their first `k` columns are done.
proof fn lemma_gauss_steps<T: Field>(a: Seq<Seq<T>>, k: nat) -> (n: Seq<Seq<T>>)
    requires
        exact_field::<T>(),
        shaped(a, 4, 4),
        k <= 4,
        gauss_steps(augment(a), k) is Some,
    ensures
        certified(a, gauss_steps(augment(a), k).unwrap(), n),
        columns_done(gauss_steps(augment(a), k).unwrap(), k as int),
    decreases k,
{
    if k == 0 {
        let m = augment(a);
        let e = mat_identity::<T>();
        assert(left_half(m) =~~= a);
        assert(right_half(m) =~~= e);
        lemma_mat_mul_identity(a);
        lemma_mat_mul_identity(e);
        e
    } else {
        let n = lemma_gauss_steps(a, (k - 1) as nat);
        let m = gauss_steps(augment(a), (k - 1) as nat).unwrap();
        lemma_gauss_step(a, m, n, k - 1)
    }
}

/// Over exact scalars, what the elimination returns for `a` is the inverse
/// of `a`: multiplied with `a` from either side it gives the identity.
pub proof fn lemma_inverse_is_two_sided<T: Field>(a: Seq<Seq<T>>)
    requires
        exact_field::<T>(),
        shaped(a, 4, 4),
        mat_inverse(a) is Some,
    ensures
        shaped(mat_inverse(a).unwrap(), 4, 4),
        mat_mul(mat_inverse(a).unwrap(), a) == mat_identity::<T>(),
        mat_mul(a, mat_inverse(a).unwrap()) == mat_identity::<T>(),
{
    let n = lemma_gauss_steps(a, 4);
    let m = gauss_steps(augment(a), 4).unwrap();
    let b = right_half(m);
    let e = mat_identity::<T>();
    assert(left_half(m) =~~= e);
    lemma_mat_mul_assoc(n, b, a);
    lemma_mat_mul_identity(a);
    lemma_mat_mul_identity(n);
}

/// Over exact scalars, the elimination fails on `a` only where `a` has no
/// inverse: if some `b` times `a` is the identity, it returns a result.
pub proof fn lemma_inverse_exists<T: Field>(a: Seq<Seq<T>>, b: Seq<Seq<T>>)
    requires
        exact_field::<T>(),
        shaped(a, 4, 4),
        shaped(b, 4, 4),
        mat_mul(b, a) == mat_identity::<T>(),
    ensures
        mat_inverse(a) is Some,
{
    lemma_steps_succeed(a, b, 4);
}

/// Where `b * a` is the identity, each column of the elimination on
/// `[a | identity]` finds a nonzero pivot.
proof fn lemma_steps_succeed<T: Field>(a: Seq<Seq<T>>, b: Seq<Seq<T>>, k: nat)
    requires
        exact_field::<T>(),
        shaped(a, 4, 4),
        shaped(b, 4, 4),
        mat_mul(b, a) == mat_identity::<T>(),
        k <= 4,
    ensures
        gauss_steps(augment(a), k) is Some,
    decreases k,
{
    if k > 0 {
        lemma_steps_succeed(a, b, (k - 1) as nat);
        let i = k - 1;
        let n = lemma_gauss_steps(a, i as nat);
        let m = gauss_steps(augment(a), i as nat).unwrap();
        let p = pivot_row(m, i);
        lemma_pivot_row(m, i);
        if m[p][i].is_zero_spec() {
            lemma_neutral::<T>();
            let l = left_half(m);
            let r = right_half(m);
            let x = mat_mul(b, n);
            // a = (n * r) * a = n * (r * a) = n * l, so x * l = b * (n * l) = b * a.
            lemma_mat_mul_assoc(n, r, a);
            lemma_mat_mul_identity(a);
            lemma_mat_mul_assoc(b, n, l);
            assert(mat_mul(x, l) == mat_identity::<T>());
            assert forall|c: int| 0 <= c < i implies x[i][c] == T::zero_spec() by {
                assert(mul_entry(x, l, i, c) == x[i][c]) by {
                    assert(forall|q: int| 0 <= q < 4 ==> l[q][c] == #[trigger] m[q][c]);
                }
                assert(mat_mul(x, l)[i][c] == mul_entry(x, l, i, c));
            }
            assert forall|q: int| i <= q < 4 implies l[q][i] == T::zero_spec() by {
                assert(m[q][i].is_zero_spec());
                lemma_zero_test(m[q][i]);
            }
            assert(mul_entry(x, l, i, i) == T::zero_spec());
            assert(mat_mul(x, l)[i][i] == mul_entry(x, l, i, i));
            assert(false);
        }
    }
}

/// Over exact scalars, a matrix has at most one inverse: whatever gives the
/// identity when multiplied with `a` from the left is what the elimination
/// returns.
pub proof fn lemma_inverse_is_unique<T: Field>(a: Seq<Seq<T>>, b: Seq<Seq<T>>)
    requires
        exact_field::<T>(),
        shaped(a, 4, 4),
        shaped(b, 4, 4),
        mat_mul(b, a) == mat_identity::<T>(),
    ensures
        mat_inverse(a) == Some(b),
{
    lemma_inverse_exists(a, b);
    lemma_inverse_is_two_sided(a);
    let c = mat_inverse(a).unwrap();
    lemma_mat_mul_assoc(b, a, c);
    lemma_mat_mul_identity(b);
    lemma_mat_mul_identity(c);
}

} // verus!
