//! The algebra of 4x4 matrices over exact scalars.

use crate::coord::{mat_identity, mat_mul, mat_transpose, mul_entry, shaped};
use crate::exact::{
    exact_field, lemma_mul_assoc, lemma_neutral, lemma_sum4_interchange, lemma_sum4_scale,
};
use crate::field::Field;
use vstd::prelude::*;

verus! {

/// Transposing twice gives the matrix back, entry for entry, whatever the
/// scalars are.
pub proof fn lemma_transpose_involution<T>(a: Seq<Seq<T>>)
    requires
        shaped(a, 4, 4),
    ensures
        mat_transpose(mat_transpose(a)) == a,
{
    assert(mat_transpose(mat_transpose(a)) =~~= a);
}

/// The term of entry `(i, j)` of `a * b * c` that runs through column `l` of
/// `a` and row `k` of `c`.
pub open spec fn triple_term<T: Field>(
    a: Seq<Seq<T>>,
    b: Seq<Seq<T>>,
    c: Seq<Seq<T>>,
    i: int,
    j: int,
    k: int,
    l: int,
) -> T {
    a[i][l].mul_spec(b[l][k].mul_spec(c[k][j]))
}

/// One entry of `(a * b) * c` equals the same entry of `a * (b * c)`.
proof fn lemma_mul_assoc_entry<T: Field>(
    a: Seq<Seq<T>>,
    b: Seq<Seq<T>>,
    c: Seq<Seq<T>>,
    i: int,
    j: int,
)
    requires
        exact_field::<T>(),
        0 <= i < 4,
        0 <= j < 4,
    ensures
        mul_entry(mat_mul(a, b), c, i, j) == mul_entry(a, mat_mul(b, c), i, j),
{
    let x = Seq::new(4, |k: int| Seq::new(4, |l: int| triple_term(a, b, c, i, j, k, l)));
    assert forall|k: int| 0 <= k < 4 implies mat_mul(a, b)[i][k].mul_spec(c[k][j])
        == crate::exact::sum4(x[k][0], x[k][1], x[k][2], x[k][3]) by {
        lemma_sum4_scale(
            a[i][0].mul_spec(b[0][k]),
            a[i][1].mul_spec(b[1][k]),
            a[i][2].mul_spec(b[2][k]),
            a[i][3].mul_spec(b[3][k]),
            c[k][j],
        );
        lemma_mul_assoc(a[i][0], b[0][k], c[k][j]);
        lemma_mul_assoc(a[i][1], b[1][k], c[k][j]);
        lemma_mul_assoc(a[i][2], b[2][k], c[k][j]);
        lemma_mul_assoc(a[i][3], b[3][k], c[k][j]);
    }
    assert forall|l: int| 0 <= l < 4 implies a[i][l].mul_spec(mat_mul(b, c)[l][j])
        == crate::exact::sum4(x[0][l], x[1][l], x[2][l], x[3][l]) by {
        lemma_sum4_scale(
            b[l][0].mul_spec(c[0][j]),
            b[l][1].mul_spec(c[1][j]),
            b[l][2].mul_spec(c[2][j]),
            b[l][3].mul_spec(c[3][j]),
            a[i][l],
        );
    }
    lemma_sum4_interchange(x);
}

/// Matrix multiplication is associative.
pub proof fn lemma_mat_mul_assoc<T: Field>(a: Seq<Seq<T>>, b: Seq<Seq<T>>, c: Seq<Seq<T>>)
    requires
        exact_field::<T>(),
    ensures
        mat_mul(mat_mul(a, b), c) == mat_mul(a, mat_mul(b, c)),
{
    assert forall|i: int, j: int| 0 <= i < 4 && 0 <= j < 4 implies #[trigger] mat_mul(
        mat_mul(a, b),
        c,
    )[i][j] == mat_mul(a, mat_mul(b, c))[i][j] by {
        lemma_mul_assoc_entry(a, b, c, i, j);
    }
    assert(mat_mul(mat_mul(a, b), c) =~~= mat_mul(a, mat_mul(b, c)));
}

/// The identity is neutral for matrix multiplication, on either side.
pub proof fn lemma_mat_mul_identity<T: Field>(m: Seq<Seq<T>>)
    requires
        exact_field::<T>(),
        shaped(m, 4, 4),
    ensures
        mat_mul(mat_identity::<T>(), m) == m,
        mat_mul(m, mat_identity::<T>()) == m,
{
    lemma_neutral::<T>();
    let e = mat_identity::<T>();
    assert forall|i: int, j: int| 0 <= i < 4 && 0 <= j < 4 implies #[trigger] mat_mul(e, m)[i][j]
        == m[i][j] by {
        assert(mul_entry(e, m, i, j) == m[i][j]);
    }
    assert forall|i: int, j: int| 0 <= i < 4 && 0 <= j < 4 implies #[trigger] mat_mul(m, e)[i][j]
        == m[i][j] by {
        assert(mul_entry(m, e, i, j) == m[i][j]);
    }
    assert(mat_mul(e, m) =~~= m);
    assert(mat_mul(m, e) =~~= m);
}

} // verus!
