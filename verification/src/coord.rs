//! 4x4 homogeneous matrices and the coordinate bases built from them.

use crate::field::Field;
use vstd::prelude::*;
use vstd::string::StringExecFns;

verus! {

/// A 4x4 matrix, stored row by row.
#[derive(Clone, Copy, Debug)]
pub struct Matrix4x4<T> {
    pub data: [[T; 4]; 4],
}

impl<T> View for Matrix4x4<T> {
    type V = Seq<Seq<T>>;

    /// The matrix as four rows of four entries.
    open spec fn view(&self) -> Seq<Seq<T>> {
        Seq::new(4, |i: int| self.data[i]@)
    }
}

/// Four working rows of eight entries, as the inversion keeps them.
pub open spec fn rows_of<T>(a: [[T; 8]; 4]) -> Seq<Seq<T>> {
    Seq::new(4, |i: int| a[i]@)
}

/// `m` has `rows` rows of `cols` entries each.
pub open spec fn shaped<T>(m: Seq<Seq<T>>, rows: int, cols: int) -> bool {
    &&& m.len() == rows
    &&& forall|i: int| 0 <= i < rows ==> (#[trigger] m[i]).len() == cols
}

/// The identity matrix.
pub open spec fn mat_identity<T: Field>() -> Seq<Seq<T>> {
    Seq::new(
        4,
        |i: int|
            Seq::new(
                4,
                |j: int|
                    if i == j {
                        T::one_spec()
                    } else {
                        T::zero_spec()
                    },
            ),
    )
}

/// Entry `(i, j)` of the product `a * b`: the products along row `i` of `a`
/// and column `j` of `b`, added to zero from left to right.
pub open spec fn mul_entry<T: Field>(a: Seq<Seq<T>>, b: Seq<Seq<T>>, i: int, j: int) -> T {
    T::zero_spec().add_spec(a[i][0].mul_spec(b[0][j])).add_spec(
        a[i][1].mul_spec(b[1][j]),
    ).add_spec(a[i][2].mul_spec(b[2][j])).add_spec(a[i][3].mul_spec(b[3][j]))
}

/// The product `a * b`.
pub open spec fn mat_mul<T: Field>(a: Seq<Seq<T>>, b: Seq<Seq<T>>) -> Seq<Seq<T>> {
    Seq::new(4, |i: int| Seq::new(4, |j: int| mul_entry(a, b, i, j)))
}

/// Component `i` of `a * v`, with `v` taken as a column.
pub open spec fn apply_entry<T: Field>(a: Seq<Seq<T>>, v: Seq<T>, i: int) -> T {
    a[i][0].mul_spec(v[0]).add_spec(a[i][1].mul_spec(v[1])).add_spec(
        a[i][2].mul_spec(v[2]),
    ).add_spec(a[i][3].mul_spec(v[3]))
}

/// The vector `a * v`, with `v` taken as a column.
pub open spec fn mat_apply<T: Field>(a: Seq<Seq<T>>, v: Seq<T>) -> Seq<T> {
    Seq::new(4, |i: int| apply_entry(a, v, i))
}

/// The transpose of `a`.
pub open spec fn mat_transpose<T>(a: Seq<Seq<T>>) -> Seq<Seq<T>> {
    Seq::new(4, |i: int| Seq::new(4, |j: int| a[j][i]))
}

/// Column `j` of `a`, top to bottom.
pub open spec fn mat_column<T>(a: Seq<Seq<T>>, j: int) -> Seq<T> {
    Seq::new(4, |i: int| a[i][j])
}

/// The matrix whose rows are the four quarters of `flat`.
pub open spec fn unflatten<T>(flat: Seq<T>) -> Seq<Seq<T>> {
    Seq::new(4, |i: int| Seq::new(4, |j: int| flat[4 * i + j]))
}

/// The rows of `a`, one after the other.
pub open spec fn flatten<T>(a: Seq<Seq<T>>) -> Seq<T> {
    Seq::new(16, |k: int| a[k / 4][k % 4])
}

/// `a` with the identity written to its right: the start of an inversion.
pub open spec fn augment<T: Field>(a: Seq<Seq<T>>) -> Seq<Seq<T>> {
    Seq::new(
        4,
        |i: int|
            Seq::new(
                8,
                |j: int|
                    if j < 4 {
                        a[i][j]
                    } else if j == i + 4 {
                        T::one_spec()
                    } else {
                        T::zero_spec()
                    },
            ),
    )
}

/// The pivot search from row `k` on, with `best` the candidate so far: a
/// later row replaces the candidate only if its entry in column `col` is
/// strictly larger in magnitude.
pub open spec fn pivot_scan<T: Field>(m: Seq<Seq<T>>, col: int, k: int, best: int) -> int
    decreases 4 - k,
{
    if k >= 4 {
        best
    } else if m[best][col].abs_spec().lt_spec(m[k][col].abs_spec()) {
        pivot_scan(m, col, k + 1, k)
    } else {
        pivot_scan(m, col, k + 1, best)
    }
}

/// The row chosen as pivot for column `col`, among rows `col..4`.
pub open spec fn pivot_row<T: Field>(m: Seq<Seq<T>>, col: int) -> int {
    pivot_scan(m, col, col + 1, col)
}

/// `m` with rows `i` and `j` exchanged.
pub open spec fn swap_rows<T>(m: Seq<Seq<T>>, i: int, j: int) -> Seq<Seq<T>> {
    m.update(i, m[j]).update(j, m[i])
}

/// `row` with every entry divided by `pivot`.
pub open spec fn scale_row<T: Field>(row: Seq<T>, pivot: T) -> Seq<T> {
    Seq::new(8, |j: int| row[j].div_spec(pivot))
}

/// `row` less `factor` times `pivot`, entry by entry.
pub open spec fn reduce_row<T: Field>(row: Seq<T>, factor: T, pivot: Seq<T>) -> Seq<T> {
    Seq::new(8, |j: int| row[j].sub_spec(factor.mul_spec(pivot[j])))
}

/// `m` with row `i` divided by its entry in column `i`.
pub open spec fn normalize<T: Field>(m: Seq<Seq<T>>, i: int) -> Seq<Seq<T>> {
    m.update(i, scale_row(m[i], m[i][i]))
}

/// `m` with column `i` cleared in every row but row `i`: each other row
/// loses its own entry in column `i` times row `i`.
pub open spec fn eliminate<T: Field>(m: Seq<Seq<T>>, i: int) -> Seq<Seq<T>> {
    Seq::new(
        4,
        |k: int|
            if k == i {
                m[i]
            } else {
                reduce_row(m[k], m[k][i], m[i])
            },
    )
}

/// One column of Gauss-Jordan elimination with partial pivoting, or `None`
/// where the pivot counts as zero.
pub open spec fn gauss_step<T: Field>(m: Seq<Seq<T>>, i: int) -> Option<Seq<Seq<T>>> {
    let p = pivot_row(m, i);
    if m[p][i].is_zero_spec() {
        None
    } else {
        Some(eliminate(normalize(swap_rows(m, i, p), i), i))
    }
}

/// The first `n` columns of the elimination, or `None` once a pivot counts
/// as zero.
pub open spec fn gauss_steps<T: Field>(m: Seq<Seq<T>>, n: nat) -> Option<Seq<Seq<T>>>
    decreases n,
{
    if n == 0 {
        Some(m)
    } else {
        match gauss_steps(m, (n - 1) as nat) {
            Some(p) => gauss_step(p, n - 1),
            None => None,
        }
    }
}

/// Columns `4..8` of the working rows.
pub open spec fn right_half<T>(m: Seq<Seq<T>>) -> Seq<Seq<T>> {
    Seq::new(4, |i: int| Seq::new(4, |j: int| m[i][j + 4]))
}

/// The inverse that Gauss-Jordan elimination with partial pivoting computes
/// for `a`, or `None` where a pivot counts as zero.
pub open spec fn mat_inverse<T: Field>(a: Seq<Seq<T>>) -> Option<Seq<Seq<T>>> {
    match gauss_steps(augment(a), 4) {
        Some(m) => Some(right_half(m)),
        None => None,
    }
}

/// The pivot row for column `col`.
fn find_pivot<T: Field>(aug: &[[T; 8]; 4], col: usize) -> (p: usize)
    requires
        col < 4,
    ensures
        col <= p < 4,
        p == pivot_row(rows_of(*aug), col as int),
{
    let mut best: usize = col;
    let mut k: usize = col + 1;
    while k < 4
        invariant
            col < 4,
            col <= best < k <= 4,
            pivot_scan(rows_of(*aug), col as int, k as int, best as int) == pivot_row(
                rows_of(*aug),
                col as int,
            ),
        decreases 4 - k,
    {
        if aug[best][col].abs().lt(aug[k][col].abs()) {
            best = k;
        }
        k += 1;
    }
    best
}

/// `row` with every entry divided by `pivot`.
fn scaled<T: Field>(row: &[T; 8], pivot: T) -> (r: [T; 8])
    ensures
        r@ == scale_row(row@, pivot),
{
    let mut out = *row;
    let mut j: usize = 0;
    while j < 8
        invariant
            j <= 8,
            forall|c: int| 0 <= c < j ==> out[c] == row[c].div_spec(pivot),
            forall|c: int| j <= c < 8 ==> out[c] == row[c],
        decreases 8 - j,
    {
        out[j] = out[j].div(pivot);
        j += 1;
    }
    assert(out@ =~= scale_row(row@, pivot));
    out
}

/// `row` less `factor` times `pivot`, entry by entry.
fn reduced<T: Field>(row: &[T; 8], factor: T, pivot: &[T; 8]) -> (r: [T; 8])
    ensures
        r@ == reduce_row(row@, factor, pivot@),
{
    let mut out = *row;
    let mut j: usize = 0;
    while j < 8
        invariant
            j <= 8,
            forall|c: int| 0 <= c < j ==> out[c] == row[c].sub_spec(factor.mul_spec(pivot[c])),
            forall|c: int| j <= c < 8 ==> out[c] == row[c],
        decreases 8 - j,
    {
        out[j] = out[j].sub(factor.mul(pivot[j]));
        j += 1;
    }
    assert(out@ =~= reduce_row(row@, factor, pivot@));
    out
}

impl<T: Field> Matrix4x4<T> {
    /// The view of a matrix has four rows of four entries.
    pub proof fn lemma_shape(self)
        ensures
            shaped(self@, 4, 4),
    {
    }

    /// The matrix whose rows are the four quarters of `data`.
    pub fn from_array(data: [T; 16]) -> (r: Self)
        ensures
            r@ == unflatten(data@),
    {
        let r = Matrix4x4 { data: slice_to_array(&data) };
        assert(r@ =~~= unflatten(data@));
        r
    }

    /// The product `self * other`.
    pub fn multiply(&self, other: &Matrix4x4<T>) -> (r: Matrix4x4<T>)
        ensures
            r@ == mat_mul(self@, other@),
    {
        let zero = T::zero();
        let mut out = [[zero;4];4];
        let mut i: usize = 0;
        while i < 4
            invariant
                i <= 4,
                zero == T::zero_spec(),
                forall|a: int, b: int|
                    0 <= a < i && 0 <= b < 4 ==> out[a][b] == mul_entry(self@, other@, a, b),
            decreases 4 - i,
        {
            let mut row = out[i];
            let mut j: usize = 0;
            while j < 4
                invariant
                    i < 4,
                    j <= 4,
                    zero == T::zero_spec(),
                    forall|b: int|
                        0 <= b < j ==> row[b] == mul_entry(self@, other@, i as int, b),
                decreases 4 - j,
            {
                let mut acc = zero;
                let mut k: usize = 0;
                while k < 4
                    invariant
                        i < 4,
                        j < 4,
                        k <= 4,
                        acc == mul_partial(self@, other@, i as int, j as int, k as int),
                    decreases 4 - k,
                {
                    acc = acc.add(self.data[i][k].mul(other.data[k][j]));
                    k += 1;
                }
                proof {
                    reveal_with_fuel(mul_partial, 5);
                }
                row[j] = acc;
                j += 1;
            }
            out[i] = row;
            i += 1;
        }
        let r = Matrix4x4 { data: out };
        assert(r@ =~~= mat_mul(self@, other@));
        r
    }

    /// The inverse by Gauss-Jordan elimination with partial pivoting on
    /// `[self | identity]`, or `None` as soon as the largest candidate for a
    /// pivot counts as zero.
    pub fn inv(&self) -> (r: Option<Matrix4x4<T>>)
        ensures
            match r {
                Some(m) => mat_inverse(self@) == Some(m@),
                None => mat_inverse(self@) is None,
            },
    {
        let zero = T::zero();
        let one = T::one();
        let mut aug = [[zero;8];4];
        let mut i: usize = 0;
        while i < 4
            invariant
                i <= 4,
                zero == T::zero_spec(),
                one == T::one_spec(),
                forall|a: int, b: int|
                    0 <= a < i && 0 <= b < 8 ==> aug[a][b] == augment(self@)[a][b],
                forall|a: int, b: int| i <= a < 4 && 0 <= b < 8 ==> aug[a][b] == zero,
            decreases 4 - i,
        {
            let mut row = aug[i];
            let mut j: usize = 0;
            while j < 4
                invariant
                    i < 4,
                    j <= 4,
                    forall|b: int| 0 <= b < j ==> row[b] == self@[i as int][b],
                    forall|b: int| 4 <= b < 8 ==> row[b] == zero,
                decreases 4 - j,
            {
                row[j] = self.data[i][j];
                j += 1;
            }
            row[i + 4] = one;
            aug[i] = row;
            i += 1;
        }
        assert(rows_of(aug) =~~= augment(self@));

        let mut i: usize = 0;
        while i < 4
            invariant
                i <= 4,
                gauss_steps(augment(self@), i as nat) == Some(rows_of(aug)),
            decreases 4 - i,
        {
            let max_row = find_pivot(&aug, i);
            if aug[max_row][i].is_zero() {
                proof {
                    reveal_with_fuel(gauss_steps, 5);
                }
                return None;
            }
            let ghost before = rows_of(aug);
            let upper = aug[i];
            let lower = aug[max_row];
            aug[i] = lower;
            aug[max_row] = upper;
            assert(rows_of(aug) =~~= swap_rows(before, i as int, max_row as int));

            let ghost swapped = rows_of(aug);
            let pivot = aug[i][i];
            let pivot_line = scaled(&aug[i], pivot);
            aug[i] = pivot_line;
            assert(rows_of(aug) =~~= normalize(swapped, i as int));

            let ghost normal = rows_of(aug);
            let mut k: usize = 0;
            while k < 4
                invariant
                    i < 4,
                    k <= 4,
                    normal.len() == 4,
                    pivot_line@ == normal[i as int],
                    forall|a: int| 0 <= a < k ==> aug[a]@ == eliminate(normal, i as int)[a],
                    forall|a: int| k <= a < 4 ==> aug[a]@ == normal[a],
                decreases 4 - k,
            {
                if k != i {
                    let factor = aug[k][i];
                    let line = reduced(&aug[k], factor, &pivot_line);
                    aug[k] = line;
                }
                k += 1;
            }
            assert(rows_of(aug) =~~= eliminate(normal, i as int));
            i += 1;
        }

        let mut inverse = [[zero;4];4];
        let mut i: usize = 0;
        while i < 4
            invariant
                i <= 4,
                forall|a: int, b: int| 0 <= a < i && 0 <= b < 4 ==> inverse[a][b] == aug[a][b + 4],
            decreases 4 - i,
        {
            let mut row = inverse[i];
            let mut j: usize = 0;
            while j < 4
                invariant
                    i < 4,
                    j <= 4,
                    forall|b: int| 0 <= b < j ==> row[b] == aug[i as int][b + 4],
                decreases 4 - j,
            {
                row[j] = aug[i][j + 4];
                j += 1;
            }
            inverse[i] = row;
            i += 1;
        }
        let m = Matrix4x4 { data: inverse };
        assert(m@ =~~= right_half(rows_of(aug)));
        Some(m)
    }

    /// The vector `self * v`, with `v` taken as a column.
    pub fn apply(&self, v: &[T; 4]) -> (r: [T; 4])
        ensures
            r@ == mat_apply(self@, v@),
    {
        let mut out = *v;
        let mut i: usize = 0;
        while i < 4
            invariant
                i <= 4,
                forall|a: int| 0 <= a < i ==> out[a] == apply_entry(self@, v@, a),
            decreases 4 - i,
        {
            out[i] = self.data[i][0].mul(v[0]).add(self.data[i][1].mul(v[1])).add(
                self.data[i][2].mul(v[2]),
            ).add(self.data[i][3].mul(v[3]));
            i += 1;
        }
        assert(out@ =~= mat_apply(self@, v@));
        out
    }

    /// The identity matrix.
    pub fn eye() -> (r: Matrix4x4<T>)
        ensures
            r@ == mat_identity::<T>(),
    {
        let o = T::one();
        let z = T::zero();
        let r = Matrix4x4 { data: [[o, z, z, z], [z, o, z, z], [z, z, o, z], [z, z, z, o]] };
        assert(r@ =~~= mat_identity::<T>());
        r
    }

    /// The transpose: entry `(i, j)` of the result is entry `(j, i)` of `self`.
    pub fn transpose(&self) -> (r: Matrix4x4<T>)
        ensures
            r@ == mat_transpose(self@),
    {
        let mut out = self.data;
        let mut i: usize = 0;
        while i < 4
            invariant
                i <= 4,
                forall|a: int, b: int| 0 <= a < i && 0 <= b < 4 ==> out[a][b] == self@[b][a],
            decreases 4 - i,
        {
            let mut row = out[i];
            let mut j: usize = 0;
            while j < 4
                invariant
                    i < 4,
                    j <= 4,
                    forall|b: int| 0 <= b < j ==> row[b] == self@[b][i as int],
                decreases 4 - j,
            {
                row[j] = self.data[j][i];
                j += 1;
            }
            out[i] = row;
            i += 1;
        }
        let r = Matrix4x4 { data: out };
        assert(r@ =~~= mat_transpose(self@));
        r
    }

    /// Column `j`, top to bottom; column 3 holds the translation.
    pub fn get_column(&self, j: usize) -> (r: [T; 4])
        requires
            j < 4,
        ensures
            r@ == mat_column(self@, j as int),
    {
        let r = [self.data[0][j], self.data[1][j], self.data[2][j], self.data[3][j]];
        assert(r@ =~= mat_column(self@, j as int));
        r
    }
}

impl<T: Field> core::ops::Mul for Matrix4x4<T> {
    type Output = Matrix4x4<T>;

    /// The product `self * other`.
    fn mul(self, other: Matrix4x4<T>) -> (r: Matrix4x4<T>)
        ensures
            r@ == mat_mul(self@, other@),
    {
        let r = self.multiply(&other);
        proof {
            let chosen = choose|m: Matrix4x4<T>| m@ == mat_mul(self@, other@);
            assert(r.data =~= chosen.data) by {
                assert forall|i: int| 0 <= i < 4 implies r.data[i] == chosen.data[i] by {
                    assert(r@[i] == chosen@[i]);
                    assert(r.data[i]@ =~= chosen.data[i]@);
                    assert(r.data[i] =~= chosen.data[i]);
                }
            }
        }
        r
    }
}

impl<T: Field> vstd::std_specs::ops::MulSpecImpl for Matrix4x4<T> {
    open spec fn obeys_mul_spec() -> bool {
        true
    }

    open spec fn mul_req(self, other: Matrix4x4<T>) -> bool {
        true
    }

    open spec fn mul_spec(self, other: Matrix4x4<T>) -> Matrix4x4<T> {
        choose|m: Matrix4x4<T>| m@ == mat_mul(self@, other@)
    }
}

/// The matrix that takes coordinates in the frame `from` to coordinates in
/// the frame `to`: the inverse of `to` times `from`, or `None` where `to` has
/// no inverse.
pub open spec fn base_change<T: Field>(from: Seq<Seq<T>>, to: Seq<Seq<T>>) -> Option<
    Seq<Seq<T>>,
> {
    match mat_inverse(to) {
        Some(inverse) => Some(mat_mul(inverse, from)),
        None => None,
    }
}

/// A frame of reference: a matrix that takes the frame's local coordinates
/// to the ambient ones, and a label for diagnostics.
#[derive(Clone, Debug)]
pub struct Base<T> {
    pub label: String,
    pub matrix: Matrix4x4<T>,
}

impl<T: Field> Base<T> {
    /// The matrix that expresses a point given in this frame in the
    /// coordinates of `base`, or `None` where the matrix of `base` has no
    /// inverse.
    pub fn to_base(&self, base: &Base<T>) -> (r: Option<Matrix4x4<T>>)
        ensures
            match r {
                Some(m) => base_change(self.matrix@, base.matrix@) == Some(m@),
                None => base_change(self.matrix@, base.matrix@) is None,
            },
    {
        match base.matrix.inv() {
            Some(m) => Some(m.multiply(&self.matrix)),
            None => None,
        }
    }
}

impl<T: Field> Default for Base<T> {
    /// The ambient frame: the identity matrix, labelled `world`.
    fn default() -> (r: Self)
        ensures
            r.label@ == "world"@,
            r.matrix@ == mat_identity::<T>(),
    {
        Base { label: "world".to_string(), matrix: Matrix4x4::eye() }
    }
}

/// The first `k` products of entry `(i, j)` of `a * b`, added to zero from
/// left to right.
pub open spec fn mul_partial<T: Field>(
    a: Seq<Seq<T>>,
    b: Seq<Seq<T>>,
    i: int,
    j: int,
    k: int,
) -> T
    decreases k,
{
    if k <= 0 {
        T::zero_spec()
    } else {
        mul_partial(a, b, i, j, k - 1).add_spec(a[i][k - 1].mul_spec(b[k - 1][j]))
    }
}

/// The sixteen entries of `matrix`, row after row.
pub fn array_to_slice<T: Copy>(matrix: &[[T; 4]; 4]) -> (r: [T; 16])
    ensures
        r@ == flatten(Seq::new(4, |i: int| matrix[i]@)),
{
    let m = matrix;
    let r = [
        m[0][0],
        m[0][1],
        m[0][2],
        m[0][3],
        m[1][0],
        m[1][1],
        m[1][2],
        m[1][3],
        m[2][0],
        m[2][1],
        m[2][2],
        m[2][3],
        m[3][0],
        m[3][1],
        m[3][2],
        m[3][3],
    ];
    assert(r@ =~= flatten(Seq::new(4, |i: int| matrix[i]@)));
    r
}

/// The four rows that `slice` holds one after the other.
pub fn slice_to_array<T: Copy>(slice: &[T; 16]) -> (r: [[T; 4]; 4])
    ensures
        Seq::new(4, |i: int| r[i]@) == unflatten(slice@),
{
    let s = slice;
    let r = [
        [s[0], s[1], s[2], s[3]],
        [s[4], s[5], s[6], s[7]],
        [s[8], s[9], s[10], s[11]],
        [s[12], s[13], s[14], s[15]],
    ];
    assert(Seq::new(4, |i: int| r[i]@) =~~= unflatten(slice@));
    r
}

/// What stands between two rows of a formatted matrix: a line break and a
/// blank.
pub open spec fn row_separator() -> Seq<char> {
    "\n "@
}

/// Four texts, one to a line, each line after the first set in by a blank.
pub open spec fn joined_rows(rows: Seq<Seq<char>>) -> Seq<char> {
    rows[0] + row_separator() + rows[1] + row_separator() + rows[2] + row_separator() + rows[3]
}

/// `format!` with `{:?}`, on one row of a matrix: the row as its scalars'
/// `Debug` writes it. What that is depends on the scalar, so nothing is
/// stated of it.
#[verifier::external_body]
fn debug_row<T: core::fmt::Debug>(row: &[T; 4]) -> (r: String) {
    format!("{:?}", row)
}

/// Four texts, one to a line, each line after the first set in by a blank.
pub fn format_rows(rows: &[String; 4]) -> (r: String)
    ensures
        r@ == joined_rows(Seq::new(4, |i: int| rows[i]@)),
{
    let mut out = rows[0].clone();
    out.append("\n ");
    out.append(rows[1].as_str());
    out.append("\n ");
    out.append(rows[2].as_str());
    out.append("\n ");
    out.append(rows[3].as_str());
    out
}

/// The rows of a matrix, one to a line, each as its scalars' `Debug` writes
/// it.
pub fn format_matrix<T: core::fmt::Debug>(matrix: &[[T; 4]; 4]) -> (r: String)
    ensures
        exists|rows: Seq<Seq<char>>| rows.len() == 4 && r@ == #[trigger] joined_rows(rows),
{
    let rows = [
        debug_row(&matrix[0]),
        debug_row(&matrix[1]),
        debug_row(&matrix[2]),
        debug_row(&matrix[3]),
    ];
    let r = format_rows(&rows);
    assert(r@ == joined_rows(Seq::new(4, |i: int| rows[i]@)));
    r
}

} // verus!
