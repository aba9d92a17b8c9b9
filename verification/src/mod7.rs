//! The integers modulo seven: a small scalar whose arithmetic is exact.

use crate::exact::{
    add_associates, add_commutes, div_undoes_mul, exact_field, mul_associates, mul_commutes,
    mul_distributes, neg_is_zero_less, one_is_neutral, sub_undoes_add, zero_is_least,
    zero_is_neutral,
};
use crate::dicom::ordering::ranks_scalars;
use crate::dicom::decimal::{
    digit, digit_of, digits_value, lemma_digits_grow, unsigned_digits, unsigned_of,
};
use crate::field::Field;
use vstd::prelude::*;
use vstd::string::StrSliceExecFns;

verus! {

/// An integer modulo seven. Addition, subtraction, multiplication and
/// division are those of the field of seven elements, so every nonzero
/// scalar has an inverse and no operation rounds; `x / 0` is zero. The
/// order is that of the representatives `0..7`, and the magnitude of a
/// scalar is the scalar itself.
#[derive(Clone, Copy, Debug, PartialEq, Eq, Structural)]
pub enum Mod7 {
    Zero,
    One,
    Two,
    Three,
    Four,
    Five,
    Six,
}

/// The scalar whose representative is `v` modulo seven.
pub open spec fn residue(v: int) -> Mod7 {
    let r = v % 7;
    if r == 0 {
        Mod7::Zero
    } else if r == 1 {
        Mod7::One
    } else if r == 2 {
        Mod7::Two
    } else if r == 3 {
        Mod7::Three
    } else if r == 4 {
        Mod7::Four
    } else if r == 5 {
        Mod7::Five
    } else {
        Mod7::Six
    }
}

impl Mod7 {
    /// The representative in `0..7`.
    pub open spec fn value(self) -> int {
        match self {
            Mod7::Zero => 0,
            Mod7::One => 1,
            Mod7::Two => 2,
            Mod7::Three => 3,
            Mod7::Four => 4,
            Mod7::Five => 5,
            Mod7::Six => 6,
        }
    }

    /// The residue that a text stands for: that of an unsigned decimal
    /// number.
    pub open spec fn parsed(text: Seq<char>) -> Option<Mod7> {
        match unsigned_of(text) {
            Some(v) => Some(residue(v)),
            None => None,
        }
    }

    /// The inverse of a nonzero scalar; zero for zero.
    pub open spec fn recip(self) -> Mod7 {
        match self {
            Mod7::Zero => Mod7::Zero,
            Mod7::One => Mod7::One,
            Mod7::Two => Mod7::Four,
            Mod7::Three => Mod7::Five,
            Mod7::Four => Mod7::Two,
            Mod7::Five => Mod7::Three,
            Mod7::Six => Mod7::Six,
        }
    }

    /// The scalar whose representative is `v` modulo seven.
    pub fn new(v: u64) -> (r: Mod7)
        ensures
            r == residue(v as int),
    {
        let m: u64 = v % 7;
        if m == 0 {
            Mod7::Zero
        } else if m == 1 {
            Mod7::One
        } else if m == 2 {
            Mod7::Two
        } else if m == 3 {
            Mod7::Three
        } else if m == 4 {
            Mod7::Four
        } else if m == 5 {
            Mod7::Five
        } else {
            Mod7::Six
        }
    }

    /// The representative in `0..7`.
    pub fn get(self) -> (r: u64)
        ensures
            r == self.value(),
    {
        match self {
            Mod7::Zero => 0,
            Mod7::One => 1,
            Mod7::Two => 2,
            Mod7::Three => 3,
            Mod7::Four => 4,
            Mod7::Five => 5,
            Mod7::Six => 6,
        }
    }

    /// The inverse of a nonzero scalar; zero for zero.
    pub fn inverse(self) -> (r: Mod7)
        ensures
            r == self.recip(),
    {
        match self {
            Mod7::Zero => Mod7::Zero,
            Mod7::One => Mod7::One,
            Mod7::Two => Mod7::Four,
            Mod7::Three => Mod7::Five,
            Mod7::Four => Mod7::Two,
            Mod7::Five => Mod7::Three,
            Mod7::Six => Mod7::Six,
        }
    }
}

impl Field for Mod7 {
    open spec fn zero_spec() -> Self {
        Mod7::Zero
    }

    open spec fn one_spec() -> Self {
        Mod7::One
    }

    open spec fn add_spec(self, rhs: Self) -> Self {
        residue(self.value() + rhs.value())
    }

    open spec fn sub_spec(self, rhs: Self) -> Self {
        residue(self.value() - rhs.value())
    }

    open spec fn mul_spec(self, rhs: Self) -> Self {
        residue(self.value() * rhs.value())
    }

    open spec fn div_spec(self, rhs: Self) -> Self {
        residue(self.value() * rhs.recip().value())
    }

    open spec fn neg_spec(self) -> Self {
        residue(-self.value())
    }

    open spec fn abs_spec(self) -> Self {
        self
    }

    open spec fn lt_spec(self, rhs: Self) -> bool {
        self.value() < rhs.value()
    }

    open spec fn is_zero_spec(self) -> bool {
        self == Mod7::Zero
    }

    open spec fn from_i32_spec(v: i32) -> Self {
        residue(v as int)
    }

    open spec fn from_usize_spec(v: usize) -> Self {
        residue(v as int)
    }

    open spec fn round_spec(self) -> i64 {
        self.value() as i64
    }

    fn zero() -> (r: Self) {
        Mod7::Zero
    }

    fn one() -> (r: Self) {
        Mod7::One
    }

    fn add(self, rhs: Self) -> (r: Self) {
        Mod7::new(self.get() + rhs.get())
    }

    fn sub(self, rhs: Self) -> (r: Self) {
        Mod7::new(self.get() + 7 - rhs.get())
    }

    fn mul(self, rhs: Self) -> (r: Self) {
        Mod7::new(self.get() * rhs.get())
    }

    fn div(self, rhs: Self) -> (r: Self) {
        Mod7::new(self.get() * rhs.inverse().get())
    }

    fn neg(self) -> (r: Self) {
        Mod7::new(7 - self.get())
    }

    fn abs(self) -> (r: Self) {
        self
    }

    fn lt(self, rhs: Self) -> (r: bool) {
        self.get() < rhs.get()
    }

    fn is_zero(self) -> (r: bool) {
        self.get() == 0
    }

    fn from_i32(v: i32) -> (r: Self) {
        let m: i32 = v % 7;
        if m < 0 {
            Mod7::new((m + 7) as u64)
        } else {
            Mod7::new(m as u64)
        }
    }

    fn from_usize(v: usize) -> (r: Self) {
        Mod7::new((v % 7) as u64)
    }

    fn round(self) -> (r: i64) {
        self.get() as i64
    }

    /// The residue of an unsigned decimal number: an optional plus sign and
    /// one or more digits.
    fn parse(text: &str) -> (r: Option<Self>)
        ensures
            r == Mod7::parsed(text@),
    {
        let n = text.unicode_len();
        let start: usize = if n > 0 && text.get_char(0) == '+' {
            1
        } else {
            0
        };
        if start == n {
            return None;
        }
        let ghost body = unsigned_digits(text@);
        assert(body =~= text@.subrange(start as int, n as int));
        assert(body.take(0) =~= Seq::<char>::empty());
        let ghost mut value: int = 0;
        let mut acc: u64 = 0;
        let mut i: usize = start;
        while i < n
            invariant
                n == text@.len(),
                start <= i <= n,
                body == text@.subrange(start as int, n as int),
                body == unsigned_digits(text@),
                body.len() > 0,
                digits_value(body.take(i - start)) == Some(value),
                0 <= value,
                acc == value % 7,
            decreases n - i,
        {
            let c = text.get_char(i);
            let ghost head = body.take(i - start + 1);
            proof {
                assert(head.drop_last() =~= body.take(i - start));
                assert(head.last() == c);
                assert(digits_value(head) == match digit_of(c) {
                    Some(d) => Some(10 * value + d),
                    None => None,
                });
                lemma_digits_grow(body, i - start + 1);
            }
            match digit(c) {
                Some(d) => {
                    proof {
                        lemma_next_digit(value, d as int);
                        value = 10 * value + d as int;
                    }
                    acc = (acc * 10 + d as u64) % 7;
                },
                None => {
                    return None;
                },
            }
            i += 1;
        }
        assert(body.take(n - start) =~= body);
        Some(Mod7::new(acc))
    }
}

/// The remainder of a number with one more digit, from the remainder of the
/// number.
proof fn lemma_next_digit(v: int, d: int)
    ensures
        ((v % 7) * 10 + d) % 7 == (10 * v + d) % 7,
{
}

/// A scalar is the residue of its representative, and the representative of
/// a residue is the remainder.
pub proof fn lemma_residue(a: Mod7, v: int)
    ensures
        residue(a.value()) == a,
        residue(v).value() == v % 7,
        0 <= a.value() < 7,
{
}

/// Integers with the same remainder have the same residue.
proof fn lemma_same_residue(u: int, v: int)
    requires
        u % 7 == v % 7,
    ensures
        residue(u) == residue(v),
{
}

/// Remainders of products: a factor may be replaced by its remainder.
proof fn lemma_remainders(x: int, y: int, z: int)
    ensures
        (((x * y) % 7) * z) % 7 == (x * ((y * z) % 7)) % 7,
        (x * ((y + z) % 7)) % 7 == ((x * y) % 7 + (x * z) % 7) % 7,
{
    vstd::arithmetic::div_mod::lemma_mul_mod_noop_general(x * y, z, 7);
    vstd::arithmetic::div_mod::lemma_mul_mod_noop_general(x, y * z, 7);
    vstd::arithmetic::mul::lemma_mul_is_associative(x, y, z);
    vstd::arithmetic::div_mod::lemma_mul_mod_noop_general(x, y + z, 7);
    vstd::arithmetic::mul::lemma_mul_is_distributive_add(x, y, z);
    vstd::arithmetic::div_mod::lemma_add_mod_noop(x * y, x * z, 7);
}

/// Remainders of a product with an inverse pair: where `r * y` leaves one,
/// multiplying by `r` and by `y` leaves the remainder unchanged.
proof fn lemma_remainder_of_inverse(x: int, y: int, r: int)
    requires
        (r * y) % 7 == 1,
    ensures
        (((x * r) % 7) * y) % 7 == x % 7,
        (((x * y) % 7) * r) % 7 == x % 7,
{
    vstd::arithmetic::div_mod::lemma_mul_mod_noop_general(x * r, y, 7);
    vstd::arithmetic::div_mod::lemma_mul_mod_noop_general(x * y, r, 7);
    vstd::arithmetic::mul::lemma_mul_is_associative(x, r, y);
    vstd::arithmetic::mul::lemma_mul_is_associative(x, y, r);
    vstd::arithmetic::mul::lemma_mul_is_commutative(r, y);
    vstd::arithmetic::div_mod::lemma_mul_mod_noop_general(x, r * y, 7);
    assert(x * 1 == x);
}

/// Addition modulo seven is associative.
proof fn lemma_mod7_add_assoc(a: Mod7, b: Mod7, c: Mod7)
    ensures
        a.add_spec(b).add_spec(c) == a.add_spec(b.add_spec(c)),
{
    let (x, y, z) = (a.value(), b.value(), c.value());
    lemma_residue(a, x + y);
    lemma_residue(a, y + z);
    lemma_same_residue((x + y) % 7 + z, x + (y + z) % 7);
}

/// Subtraction modulo seven undoes addition, and addition undoes
/// subtraction.
proof fn lemma_mod7_sub(a: Mod7, b: Mod7)
    ensures
        a.sub_spec(b).add_spec(b) == a,
        a.add_spec(b).sub_spec(b) == a,
{
    let (x, y) = (a.value(), b.value());
    lemma_residue(a, x - y);
    lemma_residue(a, x + y);
    lemma_same_residue((x - y) % 7 + y, x);
    lemma_same_residue((x + y) % 7 - y, x);
}

/// Multiplication modulo seven is associative.
proof fn lemma_mod7_mul_assoc(a: Mod7, b: Mod7, c: Mod7)
    ensures
        a.mul_spec(b).mul_spec(c) == a.mul_spec(b.mul_spec(c)),
{
    let (x, y, z) = (a.value(), b.value(), c.value());
    lemma_residue(a, x * y);
    lemma_residue(a, y * z);
    lemma_remainders(x, y, z);
    lemma_same_residue(((x * y) % 7) * z, x * ((y * z) % 7));
}

/// Multiplication modulo seven distributes over addition.
proof fn lemma_mod7_distrib(a: Mod7, b: Mod7, c: Mod7)
    ensures
        a.mul_spec(b.add_spec(c)) == a.mul_spec(b).add_spec(a.mul_spec(c)),
{
    let (x, y, z) = (a.value(), b.value(), c.value());
    lemma_residue(a, y + z);
    lemma_residue(a, x * y);
    lemma_residue(a, x * z);
    lemma_remainders(x, y, z);
    lemma_same_residue(x * ((y + z) % 7), (x * y) % 7 + (x * z) % 7);
}

/// Division by a nonzero scalar undoes multiplication, and multiplication
/// undoes division.
proof fn lemma_mod7_div(a: Mod7, b: Mod7)
    requires
        b != Mod7::Zero,
    ensures
        a.div_spec(b).mul_spec(b) == a,
        a.mul_spec(b).div_spec(b) == a,
{
    let (x, y, r) = (a.value(), b.value(), b.recip().value());
    assert((r * y) % 7 == 1) by {
        match b {
            Mod7::Zero => {},
            Mod7::One => assert(r * y == 1) by (nonlinear_arith)
                requires
                    r == 1,
                    y == 1,
            ,
            Mod7::Two => assert(r * y == 8) by (nonlinear_arith)
                requires
                    r == 4,
                    y == 2,
            ,
            Mod7::Three => assert(r * y == 15) by (nonlinear_arith)
                requires
                    r == 5,
                    y == 3,
            ,
            Mod7::Four => assert(r * y == 8) by (nonlinear_arith)
                requires
                    r == 2,
                    y == 4,
            ,
            Mod7::Five => assert(r * y == 15) by (nonlinear_arith)
                requires
                    r == 3,
                    y == 5,
            ,
            Mod7::Six => assert(r * y == 36) by (nonlinear_arith)
                requires
                    r == 6,
                    y == 6,
            ,
        }
    }
    lemma_residue(a, x * r);
    lemma_residue(a, x * y);
    lemma_remainder_of_inverse(x, y, r);
    lemma_same_residue(((x * r) % 7) * y, x);
    lemma_same_residue(((x * y) % 7) * r, x);
}

/// Addition modulo seven obeys the laws of addition.
proof fn lemma_mod7_addition()
    ensures
        add_commutes::<Mod7>(),
        add_associates::<Mod7>(),
        zero_is_neutral::<Mod7>(),
        sub_undoes_add::<Mod7>(),
        neg_is_zero_less::<Mod7>(),
{
    assert(add_commutes::<Mod7>()) by {
        reveal(add_commutes);
        assert forall|a: Mod7, b: Mod7| #[trigger] a.add_spec(b) == b.add_spec(a) by {
            lemma_same_residue(a.value() + b.value(), b.value() + a.value());
        }
    }
    assert(add_associates::<Mod7>()) by {
        reveal(add_associates);
        assert forall|a: Mod7, b: Mod7, c: Mod7| #[trigger]
            a.add_spec(b).add_spec(c) == a.add_spec(b.add_spec(c)) by {
            lemma_mod7_add_assoc(a, b, c);
        }
    }
    assert(zero_is_neutral::<Mod7>()) by {
        reveal(zero_is_neutral);
        assert forall|a: Mod7| #[trigger] a.add_spec(Mod7::Zero) == a by {
            lemma_residue(a, 0);
        }
    }
    assert(sub_undoes_add::<Mod7>()) by {
        reveal(sub_undoes_add);
        assert forall|a: Mod7, b: Mod7| #[trigger] a.sub_spec(b).add_spec(b) == a by {
            lemma_mod7_sub(a, b);
        }
        assert forall|a: Mod7, b: Mod7| #[trigger] a.add_spec(b).sub_spec(b) == a by {
            lemma_mod7_sub(a, b);
        }
    }
    assert(neg_is_zero_less::<Mod7>()) by {
        reveal(neg_is_zero_less);
    }
}

/// Multiplication modulo seven obeys the laws of multiplication.
proof fn lemma_mod7_multiplication()
    ensures
        mul_commutes::<Mod7>(),
        mul_associates::<Mod7>(),
        one_is_neutral::<Mod7>(),
        mul_distributes::<Mod7>(),
{
    assert(mul_commutes::<Mod7>()) by {
        reveal(mul_commutes);
        assert forall|a: Mod7, b: Mod7| #[trigger] a.mul_spec(b) == b.mul_spec(a) by {
            vstd::arithmetic::mul::lemma_mul_is_commutative(a.value(), b.value());
        }
    }
    assert(mul_associates::<Mod7>()) by {
        reveal(mul_associates);
        assert forall|a: Mod7, b: Mod7, c: Mod7| #[trigger]
            a.mul_spec(b).mul_spec(c) == a.mul_spec(b.mul_spec(c)) by {
            lemma_mod7_mul_assoc(a, b, c);
        }
    }
    assert(one_is_neutral::<Mod7>()) by {
        reveal(one_is_neutral);
        assert forall|a: Mod7| #[trigger] a.mul_spec(Mod7::One) == a by {
            assert(a.value() * 1 == a.value());
            lemma_residue(a, 0);
        }
    }
    assert(mul_distributes::<Mod7>()) by {
        reveal(mul_distributes);
        assert forall|a: Mod7, b: Mod7, c: Mod7| #[trigger]
            a.mul_spec(b.add_spec(c)) == a.mul_spec(b).add_spec(a.mul_spec(c)) by {
            lemma_mod7_distrib(a, b, c);
        }
    }
}

/// Division modulo seven undoes multiplication, and the order of the
/// representatives puts zero lowest.
proof fn lemma_mod7_division()
    ensures
        div_undoes_mul::<Mod7>(),
        zero_is_least::<Mod7>(),
{
    assert(div_undoes_mul::<Mod7>()) by {
        reveal(div_undoes_mul);
        assert forall|a: Mod7, b: Mod7| !b.is_zero_spec() implies #[trigger] a.div_spec(
            b,
        ).mul_spec(b) == a by {
            lemma_mod7_div(a, b);
        }
        assert forall|a: Mod7, b: Mod7| !b.is_zero_spec() implies #[trigger] a.mul_spec(
            b,
        ).div_spec(b) == a by {
            lemma_mod7_div(a, b);
        }
    }
    assert(zero_is_least::<Mod7>()) by {
        reveal(zero_is_least);
    }
}

/// The integers modulo seven are exact scalars.
pub proof fn lemma_mod7_is_exact()
    ensures
        exact_field::<Mod7>(),
{
    lemma_mod7_addition();
    lemma_mod7_multiplication();
    lemma_mod7_division();
}

/// The order of the representatives ranks the integers modulo seven.
pub proof fn lemma_mod7_is_ranked()
    ensures
        ranks_scalars::<Mod7>(),
{
    reveal(ranks_scalars);
}

} // verus!
