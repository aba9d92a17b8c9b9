//! Scalars whose arithmetic is exact, and what follows for sums of four.

use crate::field::Field;
use vstd::prelude::*;

verus! {

/// Addition is commutative.
#[verifier::opaque]
pub open spec fn add_commutes<T: Field>() -> bool {
    forall|a: T, b: T| #[trigger] a.add_spec(b) == b.add_spec(a)
}

/// Addition is associative.
#[verifier::opaque]
pub open spec fn add_associates<T: Field>() -> bool {
    forall|a: T, b: T, c: T| #[trigger] a.add_spec(b).add_spec(c) == a.add_spec(b.add_spec(c))
}

/// Zero is neutral for addition.
#[verifier::opaque]
pub open spec fn zero_is_neutral<T: Field>() -> bool {
    forall|a: T| #[trigger] a.add_spec(T::zero_spec()) == a
}

/// Subtraction undoes addition, and addition undoes subtraction.
#[verifier::opaque]
pub open spec fn sub_undoes_add<T: Field>() -> bool {
    &&& forall|a: T, b: T| #[trigger] a.sub_spec(b).add_spec(b) == a
    &&& forall|a: T, b: T| #[trigger] a.add_spec(b).sub_spec(b) == a
}

/// The negative of a scalar is zero less the scalar.
#[verifier::opaque]
pub open spec fn neg_is_zero_less<T: Field>() -> bool {
    forall|a: T| #[trigger] a.neg_spec() == T::zero_spec().sub_spec(a)
}

/// Multiplication is commutative.
#[verifier::opaque]
pub open spec fn mul_commutes<T: Field>() -> bool {
    forall|a: T, b: T| #[trigger] a.mul_spec(b) == b.mul_spec(a)
}

/// Multiplication is associative.
#[verifier::opaque]
pub open spec fn mul_associates<T: Field>() -> bool {
    forall|a: T, b: T, c: T| #[trigger] a.mul_spec(b).mul_spec(c) == a.mul_spec(b.mul_spec(c))
}

/// One is neutral for multiplication, and differs from zero.
#[verifier::opaque]
pub open spec fn one_is_neutral<T: Field>() -> bool {
    &&& forall|a: T| #[trigger] a.mul_spec(T::one_spec()) == a
    &&& T::zero_spec() != T::one_spec()
}

/// Multiplication distributes over addition.
#[verifier::opaque]
pub open spec fn mul_distributes<T: Field>() -> bool {
    forall|a: T, b: T, c: T| #[trigger]
        a.mul_spec(b.add_spec(c)) == a.mul_spec(b).add_spec(a.mul_spec(c))
}

/// Only zero counts as zero; division by another scalar undoes
/// multiplication, and multiplication undoes division.
#[verifier::opaque]
pub open spec fn div_undoes_mul<T: Field>() -> bool {
    &&& forall|a: T| #[trigger] a.is_zero_spec() <==> a == T::zero_spec()
    &&& forall|a: T, b: T| !b.is_zero_spec() ==> #[trigger] a.div_spec(b).mul_spec(b) == a
    &&& forall|a: T, b: T| !b.is_zero_spec() ==> #[trigger] a.mul_spec(b).div_spec(b) == a
}

/// The magnitude of zero lies below every other magnitude and above none.
#[verifier::opaque]
pub open spec fn zero_is_least<T: Field>() -> bool {
    &&& forall|a: T|
        !a.is_zero_spec() ==> T::zero_spec().abs_spec().lt_spec(#[trigger] a.abs_spec())
    &&& forall|a: T| !(#[trigger] a.abs_spec()).lt_spec(T::zero_spec().abs_spec())
}

/// The arithmetic of `T` is that of a field, with nothing rounded and
/// nothing lost: addition and multiplication are commutative and
/// associative, zero and one are neutral and differ, multiplication
/// distributes over addition, subtraction undoes addition, division by a
/// nonzero scalar undoes multiplication, and only zero counts as zero.
/// Of the order it asks only what the choice of a pivot needs: the magnitude
/// of zero lies below every other magnitude and above none.
///
/// The integers modulo a prime meet this, ordered by their representatives
/// with each its own magnitude; so do exact rationals. Floating point does
/// not.
pub open spec fn exact_field<T: Field>() -> bool {
    &&& add_commutes::<T>()
    &&& add_associates::<T>()
    &&& zero_is_neutral::<T>()
    &&& sub_undoes_add::<T>()
    &&& neg_is_zero_less::<T>()
    &&& mul_commutes::<T>()
    &&& mul_associates::<T>()
    &&& one_is_neutral::<T>()
    &&& mul_distributes::<T>()
    &&& div_undoes_mul::<T>()
    &&& zero_is_least::<T>()
}

/// Addition is commutative.
pub proof fn lemma_add_comm<T: Field>(a: T, b: T)
    requires
        exact_field::<T>(),
    ensures
        a.add_spec(b) == b.add_spec(a),
{
    reveal(add_commutes);
}

/// Addition is associative.
pub proof fn lemma_add_assoc<T: Field>(a: T, b: T, c: T)
    requires
        exact_field::<T>(),
    ensures
        a.add_spec(b).add_spec(c) == a.add_spec(b.add_spec(c)),
{
    reveal(add_associates);
}

/// Multiplication is commutative.
pub proof fn lemma_mul_comm<T: Field>(a: T, b: T)
    requires
        exact_field::<T>(),
    ensures
        a.mul_spec(b) == b.mul_spec(a),
{
    reveal(mul_commutes);
}

/// Multiplication is associative.
pub proof fn lemma_mul_assoc<T: Field>(a: T, b: T, c: T)
    requires
        exact_field::<T>(),
    ensures
        a.mul_spec(b).mul_spec(c) == a.mul_spec(b.mul_spec(c)),
{
    reveal(mul_associates);
}

/// Multiplication distributes over addition, on either side.
pub proof fn lemma_distrib<T: Field>(a: T, b: T, c: T)
    requires
        exact_field::<T>(),
    ensures
        a.mul_spec(b.add_spec(c)) == a.mul_spec(b).add_spec(a.mul_spec(c)),
        b.add_spec(c).mul_spec(a) == b.mul_spec(a).add_spec(c.mul_spec(a)),
{
    reveal(mul_distributes);
    lemma_mul_comm(a, b.add_spec(c));
    lemma_mul_comm(a, b);
    lemma_mul_comm(a, c);
}

/// Subtraction undoes addition, and addition undoes subtraction.
pub proof fn lemma_sub_add<T: Field>(a: T, b: T)
    requires
        exact_field::<T>(),
    ensures
        a.sub_spec(b).add_spec(b) == a,
        a.add_spec(b).sub_spec(b) == a,
{
    reveal(sub_undoes_add);
}

/// Division by a nonzero scalar undoes multiplication, and multiplication
/// undoes division.
pub proof fn lemma_div_mul<T: Field>(a: T, b: T)
    requires
        exact_field::<T>(),
        !b.is_zero_spec(),
    ensures
        a.div_spec(b).mul_spec(b) == a,
        a.mul_spec(b).div_spec(b) == a,
{
    reveal(div_undoes_mul);
}

/// Only zero counts as zero.
pub proof fn lemma_zero_test<T: Field>(a: T)
    requires
        exact_field::<T>(),
    ensures
        a.is_zero_spec() <==> a == T::zero_spec(),
{
    reveal(div_undoes_mul);
}

/// The magnitude of zero lies below every other magnitude and above none.
pub proof fn lemma_magnitude<T: Field>(a: T)
    requires
        exact_field::<T>(),
    ensures
        !a.is_zero_spec() ==> T::zero_spec().abs_spec().lt_spec(a.abs_spec()),
        !a.abs_spec().lt_spec(T::zero_spec().abs_spec()),
{
    reveal(zero_is_least);
}

/// Zero and one are neutral for addition and multiplication, and differ.
pub proof fn lemma_units<T: Field>(a: T)
    requires
        exact_field::<T>(),
    ensures
        a.add_spec(T::zero_spec()) == a,
        a.mul_spec(T::one_spec()) == a,
        T::zero_spec() != T::one_spec(),
{
    reveal(zero_is_neutral);
    reveal(one_is_neutral);
}

/// Equal sums with a common term have equal remainders.
pub proof fn lemma_add_cancel<T: Field>(a: T, b: T, c: T)
    requires
        exact_field::<T>(),
        a.add_spec(c) == b.add_spec(c),
    ensures
        a == b,
{
    lemma_sub_add(a, c);
    lemma_sub_add(b, c);
}

/// Zero and one are neutral on either side, and a product with zero is zero.
pub proof fn lemma_neutral<T: Field>()
    requires
        exact_field::<T>(),
    ensures
        forall|a: T| #[trigger] a.add_spec(T::zero_spec()) == a,
        forall|a: T| #[trigger] T::zero_spec().add_spec(a) == a,
        forall|a: T| #[trigger] a.mul_spec(T::one_spec()) == a,
        forall|a: T| #[trigger] T::one_spec().mul_spec(a) == a,
        forall|a: T| #[trigger] a.mul_spec(T::zero_spec()) == T::zero_spec(),
        forall|a: T| #[trigger] T::zero_spec().mul_spec(a) == T::zero_spec(),
        T::zero_spec() != T::one_spec(),
{
    let z = T::zero_spec();
    let o = T::one_spec();
    lemma_units(z);
    assert forall|a: T| #[trigger] a.add_spec(z) == a by {
        lemma_units(a);
    }
    assert forall|a: T| #[trigger] z.add_spec(a) == a by {
        lemma_units(a);
        lemma_add_comm(a, z);
    }
    assert forall|a: T| #[trigger] a.mul_spec(o) == a by {
        lemma_units(a);
    }
    assert forall|a: T| #[trigger] o.mul_spec(a) == a by {
        lemma_units(a);
        lemma_mul_comm(a, o);
    }
    assert forall|a: T| #[trigger] a.mul_spec(z) == z by {
        lemma_zero_product(a);
    }
    assert forall|a: T| #[trigger] z.mul_spec(a) == z by {
        lemma_zero_product(a);
    }
}

/// A product with zero is zero.
pub proof fn lemma_zero_product<T: Field>(a: T)
    requires
        exact_field::<T>(),
    ensures
        a.mul_spec(T::zero_spec()) == T::zero_spec(),
        T::zero_spec().mul_spec(a) == T::zero_spec(),
{
    let z = T::zero_spec();
    let p = a.mul_spec(z);
    lemma_units(z);
    lemma_distrib(a, z, z);
    assert(p.add_spec(p) == p);
    lemma_units(p);
    lemma_add_comm(p, z);
    lemma_add_cancel(p, z, p);
    lemma_mul_comm(a, z);
}

/// Subtracting `f * y` is adding `(0 - f) * y`.
pub proof fn lemma_sub_as_add<T: Field>(x: T, f: T, y: T)
    requires
        exact_field::<T>(),
    ensures
        x.sub_spec(f.mul_spec(y)) == x.add_spec(T::zero_spec().sub_spec(f).mul_spec(y)),
        x.sub_spec(f.mul_spec(y)) == T::zero_spec().sub_spec(f).mul_spec(y).add_spec(x),
        T::zero_spec().sub_spec(f).add_spec(f) == T::zero_spec(),
        f.add_spec(T::zero_spec().sub_spec(f)) == T::zero_spec(),
{
    lemma_neutral::<T>();
    let z = T::zero_spec();
    let n = z.sub_spec(f);
    lemma_sub_add(z, f);
    lemma_add_comm(n, f);
    let s = x.add_spec(n.mul_spec(y));
    lemma_add_assoc(x, n.mul_spec(y), f.mul_spec(y));
    lemma_distrib(y, n, f);
    assert(s.add_spec(f.mul_spec(y)) == x);
    lemma_sub_add(s, f.mul_spec(y));
    lemma_add_comm(x, n.mul_spec(y));
}

/// Dividing by a nonzero scalar is multiplying by its reciprocal, and a
/// nonzero scalar divided by itself is one.
pub proof fn lemma_div_as_mul<T: Field>(x: T, p: T)
    requires
        exact_field::<T>(),
        !p.is_zero_spec(),
    ensures
        x.div_spec(p) == T::one_spec().div_spec(p).mul_spec(x),
        p.mul_spec(T::one_spec().div_spec(p)) == T::one_spec(),
        T::one_spec().div_spec(p).mul_spec(p) == T::one_spec(),
        p.div_spec(p) == T::one_spec(),
        T::zero_spec().div_spec(p) == T::zero_spec(),
{
    let o = T::one_spec();
    let z = T::zero_spec();
    let d = o.div_spec(p);
    lemma_div_mul(o, p);
    lemma_mul_comm(d, p);
    lemma_mul_comm(d, x);
    lemma_mul_assoc(x, d, p);
    lemma_units(x);
    assert(d.mul_spec(x).mul_spec(p) == x);
    lemma_div_mul(d.mul_spec(x), p);
    lemma_units(p);
    lemma_mul_comm(o, p);
    lemma_zero_product(p);
    lemma_div_mul(z, p);
}

/// Four terms added to zero from left to right.
pub open spec fn sum4<T: Field>(t0: T, t1: T, t2: T, t3: T) -> T {
    T::zero_spec().add_spec(t0).add_spec(t1).add_spec(t2).add_spec(t3)
}

/// Two sums of two, added, are the sums of the first and of the second
/// terms, added.
pub proof fn lemma_add_shuffle<T: Field>(p: T, t: T, q: T, u: T)
    requires
        exact_field::<T>(),
    ensures
        p.add_spec(t).add_spec(q.add_spec(u)) == p.add_spec(q).add_spec(t.add_spec(u)),
{
    lemma_add_assoc(p, t, q.add_spec(u));
    lemma_add_assoc(t, q, u);
    lemma_add_comm(t, q);
    lemma_add_assoc(q, t, u);
    lemma_add_assoc(p, q, t.add_spec(u));
}

/// The sum of two sums of four is the sum of the four sums of two.
pub proof fn lemma_sum4_add<T: Field>(t0: T, t1: T, t2: T, t3: T, u0: T, u1: T, u2: T, u3: T)
    requires
        exact_field::<T>(),
    ensures
        sum4(t0, t1, t2, t3).add_spec(sum4(u0, u1, u2, u3)) == sum4(
            t0.add_spec(u0),
            t1.add_spec(u1),
            t2.add_spec(u2),
            t3.add_spec(u3),
        ),
{
    lemma_neutral::<T>();
    let z = T::zero_spec();
    let pa = z.add_spec(t0);
    let qa = z.add_spec(u0);
    lemma_add_shuffle(z, t0, z, u0);
    let sa = z.add_spec(t0.add_spec(u0));
    assert(pa.add_spec(qa) == sa);
    let pb = pa.add_spec(t1);
    let qb = qa.add_spec(u1);
    lemma_add_shuffle(pa, t1, qa, u1);
    let sb = sa.add_spec(t1.add_spec(u1));
    assert(pb.add_spec(qb) == sb);
    let pc = pb.add_spec(t2);
    let qc = qb.add_spec(u2);
    lemma_add_shuffle(pb, t2, qb, u2);
    let sc = sb.add_spec(t2.add_spec(u2));
    assert(pc.add_spec(qc) == sc);
    lemma_add_shuffle(pc, t3, qc, u3);
}

/// A sum of four times a scalar is the sum of the four products, the scalar
/// on either side.
pub proof fn lemma_sum4_scale<T: Field>(t0: T, t1: T, t2: T, t3: T, c: T)
    requires
        exact_field::<T>(),
    ensures
        sum4(t0, t1, t2, t3).mul_spec(c) == sum4(
            t0.mul_spec(c),
            t1.mul_spec(c),
            t2.mul_spec(c),
            t3.mul_spec(c),
        ),
        c.mul_spec(sum4(t0, t1, t2, t3)) == sum4(
            c.mul_spec(t0),
            c.mul_spec(t1),
            c.mul_spec(t2),
            c.mul_spec(t3),
        ),
{
    lemma_neutral::<T>();
    let z = T::zero_spec();
    let pa = z.add_spec(t0);
    let pb = pa.add_spec(t1);
    let pc = pb.add_spec(t2);
    lemma_distrib(c, z, t0);
    lemma_distrib(c, pa, t1);
    lemma_distrib(c, pb, t2);
    lemma_distrib(c, pc, t3);
}

/// Sixteen terms in a square add up to the same by rows as by columns.
pub proof fn lemma_sum4_interchange<T: Field>(x: Seq<Seq<T>>)
    requires
        exact_field::<T>(),
    ensures
        sum4(
            sum4(x[0][0], x[0][1], x[0][2], x[0][3]),
            sum4(x[1][0], x[1][1], x[1][2], x[1][3]),
            sum4(x[2][0], x[2][1], x[2][2], x[2][3]),
            sum4(x[3][0], x[3][1], x[3][2], x[3][3]),
        ) == sum4(
            sum4(x[0][0], x[1][0], x[2][0], x[3][0]),
            sum4(x[0][1], x[1][1], x[2][1], x[3][1]),
            sum4(x[0][2], x[1][2], x[2][2], x[3][2]),
            sum4(x[0][3], x[1][3], x[2][3], x[3][3]),
        ),
{
    lemma_neutral::<T>();
    let r0 = sum4(x[0][0], x[0][1], x[0][2], x[0][3]);
    let r1 = sum4(x[1][0], x[1][1], x[1][2], x[1][3]);
    let r2 = sum4(x[2][0], x[2][1], x[2][2], x[2][3]);
    let r3 = sum4(x[3][0], x[3][1], x[3][2], x[3][3]);
    lemma_sum4_add(x[0][0], x[0][1], x[0][2], x[0][3], x[1][0], x[1][1], x[1][2], x[1][3]);
    let a0 = x[0][0].add_spec(x[1][0]);
    let a1 = x[0][1].add_spec(x[1][1]);
    let a2 = x[0][2].add_spec(x[1][2]);
    let a3 = x[0][3].add_spec(x[1][3]);
    assert(r0.add_spec(r1) == sum4(a0, a1, a2, a3));
    lemma_sum4_add(a0, a1, a2, a3, x[2][0], x[2][1], x[2][2], x[2][3]);
    let b0 = a0.add_spec(x[2][0]);
    let b1 = a1.add_spec(x[2][1]);
    let b2 = a2.add_spec(x[2][2]);
    let b3 = a3.add_spec(x[2][3]);
    assert(r0.add_spec(r1).add_spec(r2) == sum4(b0, b1, b2, b3));
    lemma_sum4_add(b0, b1, b2, b3, x[3][0], x[3][1], x[3][2], x[3][3]);
}

} // verus!
