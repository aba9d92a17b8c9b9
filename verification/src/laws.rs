//! What holds of inversion and of bases when the scalars are exact.

use crate::coord::{base_change, mat_identity, mat_inverse, mat_mul, mul_entry, shaped};
use crate::dicom::ct_image::{raw_value, rescaled, sample_spec, saturate_i16};
use crate::exact::{exact_field, lemma_neutral, one_is_neutral, zero_is_neutral};
use crate::field::Field;
use crate::inverse::{lemma_inverse_is_two_sided, lemma_inverse_is_unique};
use vstd::prelude::*;

verus! {

/// Inverting twice gives the matrix back, and a matrix times its inverse is
/// the identity, in either order.
pub proof fn lemma_inverse_round_trip<T: Field>(a: Seq<Seq<T>>)
    requires
        exact_field::<T>(),
        shaped(a, 4, 4),
        mat_inverse(a) is Some,
    ensures
        mat_inverse(mat_inverse(a).unwrap()) == Some(a),
        mat_mul(a, mat_inverse(a).unwrap()) == mat_identity::<T>(),
        mat_mul(mat_inverse(a).unwrap(), a) == mat_identity::<T>(),
{
    lemma_inverse_is_two_sided(a);
    lemma_inverse_is_unique(mat_inverse(a).unwrap(), a);
}

/// A base expressed in itself is the identity.
pub proof fn lemma_base_in_itself<T: Field>(b: Seq<Seq<T>>)
    requires
        exact_field::<T>(),
        shaped(b, 4, 4),
        mat_inverse(b) is Some,
    ensures
        base_change(b, b) == Some(mat_identity::<T>()),
{
    lemma_inverse_is_two_sided(b);
}

/// A base with the identity as its matrix changes nothing: the matrix that
/// takes a frame to it is the frame's own matrix.
pub proof fn lemma_base_in_world<T: Field>(b: Seq<Seq<T>>)
    requires
        exact_field::<T>(),
        shaped(b, 4, 4),
    ensures
        base_change(b, mat_identity::<T>()) == Some(b),
{
    let e = mat_identity::<T>();
    crate::algebra::lemma_mat_mul_identity(e);
    lemma_inverse_is_unique(e, e);
    crate::algebra::lemma_mat_mul_identity(b);
}

/// A matrix with a row of zeros has no inverse.
pub proof fn lemma_zero_row_has_no_inverse<T: Field>(a: Seq<Seq<T>>, i: int)
    requires
        exact_field::<T>(),
        shaped(a, 4, 4),
        0 <= i < 4,
        forall|c: int| 0 <= c < 4 ==> a[i][c] == T::zero_spec(),
    ensures
        mat_inverse(a) is None,
{
    if mat_inverse(a) is Some {
        let b = mat_inverse(a).unwrap();
        lemma_inverse_is_two_sided(a);
        lemma_neutral::<T>();
        assert(mat_mul(a, b)[i][i] == mul_entry(a, b, i, i));
        assert(mul_entry(a, b, i, i) == T::zero_spec());
        assert(mat_identity::<T>()[i][i] == T::one_spec());
        assert(false);
    }
}

/// A matrix with two equal rows has no inverse.
pub proof fn lemma_equal_rows_have_no_inverse<T: Field>(a: Seq<Seq<T>>, i: int, j: int)
    requires
        exact_field::<T>(),
        shaped(a, 4, 4),
        0 <= i < 4,
        0 <= j < 4,
        i != j,
        forall|c: int| 0 <= c < 4 ==> a[i][c] == a[j][c],
    ensures
        mat_inverse(a) is None,
{
    if mat_inverse(a) is Some {
        let b = mat_inverse(a).unwrap();
        lemma_inverse_is_two_sided(a);
        lemma_neutral::<T>();
        assert(mat_mul(a, b)[i][i] == mul_entry(a, b, i, i));
        assert(mat_mul(a, b)[j][i] == mul_entry(a, b, j, i));
        assert(mul_entry(a, b, i, i) == mul_entry(a, b, j, i));
        assert(mat_identity::<T>()[i][i] == T::one_spec());
        assert(mat_identity::<T>()[j][i] == T::zero_spec());
        assert(false);
    }
}

/// The scalars hold every integer of thirty-two bits exactly: turned into a
/// scalar and rounded, it comes back.
#[verifier::opaque]
pub open spec fn counts_integers<T: Field>() -> bool {
    forall|v: i32| (#[trigger] T::from_i32_spec(v)).round_spec() == v
}

/// A sample that is not rescaled (slope one, intercept zero) decodes to the
/// number that its word stands for, or to the nearest bound of sixteen
/// signed bits: an unsigned word above 32767 decodes to 32767 and never
/// wraps around to a negative sample.
pub proof fn lemma_unscaled_sample_saturates<T: Field>(word: u16, representation: u16)
    requires
        one_is_neutral::<T>(),
        zero_is_neutral::<T>(),
        counts_integers::<T>(),
    ensures
        sample_spec(word, representation, T::one_spec(), T::zero_spec()) == saturate_i16(
            raw_value(word, representation),
        ),
        representation == 0 && word > 32767 ==> sample_spec(
            word,
            representation,
            T::one_spec(),
            T::zero_spec(),
        ) == 32767,
{
    let raw = raw_value(word, representation) as i32;
    let x = T::from_i32_spec(raw);
    assert(x.mul_spec(T::one_spec()) == x) by {
        reveal(one_is_neutral);
    }
    assert(x.add_spec(T::zero_spec()) == x) by {
        reveal(zero_is_neutral);
    }
    assert(x.round_spec() == raw) by {
        reveal(counts_integers);
    }
    assert(rescaled(word, representation, T::one_spec(), T::zero_spec()) == raw);
}

} // verus!
