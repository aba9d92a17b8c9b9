use kepler_wgpu::coord::{
    array_to_slice, format_matrix, format_rows, slice_to_array, Base, Matrix4x4,
};
use kepler_wgpu::ct_volume::CTVolume;
use kepler_wgpu::error::VolumeError;
use kepler_wgpu::field::{max, ratio, Field};
use kepler_wgpu::geometry::GeometryBuilder;
use kepler_wgpu::layout::{Layout, Viewport, MAX_VIEWS};
use kepler_wgpu::mod7::Mod7;

#[derive(Clone, Copy, Debug, PartialEq, PartialOrd)]
struct Real(f64);

impl Field for Real {
    fn zero_spec() -> Self {
        Real(0.0)
    }
    fn one_spec() -> Self {
        Real(1.0)
    }
    fn add_spec(self, rhs: Self) -> Self {
        Real(self.0 + rhs.0)
    }
    fn sub_spec(self, rhs: Self) -> Self {
        Real(self.0 - rhs.0)
    }
    fn mul_spec(self, rhs: Self) -> Self {
        Real(self.0 * rhs.0)
    }
    fn div_spec(self, rhs: Self) -> Self {
        Real(self.0 / rhs.0)
    }
    fn neg_spec(self) -> Self {
        Real(-self.0)
    }
    fn abs_spec(self) -> Self {
        Real(self.0.abs())
    }
    fn lt_spec(self, rhs: Self) -> bool {
        self.0 < rhs.0
    }
    fn is_zero_spec(self) -> bool {
        self.0 == 0.0
    }
    fn from_i32_spec(v: i32) -> Self {
        Real(v as f64)
    }
    fn from_usize_spec(v: usize) -> Self {
        Real(v as f64)
    }
    fn round_spec(self) -> i64 {
        self.0.round() as i64
    }
    fn zero() -> Self {
        Real(0.0)
    }
    fn one() -> Self {
        Real(1.0)
    }
    fn add(self, rhs: Self) -> Self {
        Real(self.0 + rhs.0)
    }
    fn sub(self, rhs: Self) -> Self {
        Real(self.0 - rhs.0)
    }
    fn mul(self, rhs: Self) -> Self {
        Real(self.0 * rhs.0)
    }
    fn div(self, rhs: Self) -> Self {
        Real(self.0 / rhs.0)
    }
    fn neg(self) -> Self {
        Real(-self.0)
    }
    fn abs(self) -> Self {
        Real(self.0.abs())
    }
    fn lt(self, rhs: Self) -> bool {
        self.0 < rhs.0
    }
    fn is_zero(self) -> bool {
        self.0 == 0.0
    }
    fn from_i32(v: i32) -> Self {
        Real(v as f64)
    }
    fn from_usize(v: usize) -> Self {
        Real(v as f64)
    }
    fn round(self) -> i64 {
        self.0.round() as i64
    }
    fn parse(text: &str) -> Option<Self> {
        text.parse::<f64>().ok().map(Real)
    }
}
#[derive(Clone, Copy, Debug, PartialEq, PartialOrd)]
struct Single(f32);

impl Field for Single {
    fn zero_spec() -> Self {
        Single(0.0)
    }
    fn one_spec() -> Self {
        Single(1.0)
    }
    fn add_spec(self, rhs: Self) -> Self {
        Single(self.0 + rhs.0)
    }
    fn sub_spec(self, rhs: Self) -> Self {
        Single(self.0 - rhs.0)
    }
    fn mul_spec(self, rhs: Self) -> Self {
        Single(self.0 * rhs.0)
    }
    fn div_spec(self, rhs: Self) -> Self {
        Single(self.0 / rhs.0)
    }
    fn neg_spec(self) -> Self {
        Single(-self.0)
    }
    fn abs_spec(self) -> Self {
        Single(self.0.abs())
    }
    fn lt_spec(self, rhs: Self) -> bool {
        self.0 < rhs.0
    }
    fn is_zero_spec(self) -> bool {
        self.0 == 0.0
    }
    fn from_i32_spec(v: i32) -> Self {
        Single(v as f32)
    }
    fn from_usize_spec(v: usize) -> Self {
        Single(v as f32)
    }
    fn round_spec(self) -> i64 {
        self.0.round() as i64
    }
    fn zero() -> Self {
        Single(0.0)
    }
    fn one() -> Self {
        Single(1.0)
    }
    fn add(self, rhs: Self) -> Self {
        Single(self.0 + rhs.0)
    }
    fn sub(self, rhs: Self) -> Self {
        Single(self.0 - rhs.0)
    }
    fn mul(self, rhs: Self) -> Self {
        Single(self.0 * rhs.0)
    }
    fn div(self, rhs: Self) -> Self {
        Single(self.0 / rhs.0)
    }
    fn neg(self) -> Self {
        Single(-self.0)
    }
    fn abs(self) -> Self {
        Single(self.0.abs())
    }
    fn lt(self, rhs: Self) -> bool {
        self.0 < rhs.0
    }
    fn is_zero(self) -> bool {
        self.0 == 0.0
    }
    fn from_i32(v: i32) -> Self {
        Single(v as f32)
    }
    fn from_usize(v: usize) -> Self {
        Single(v as f32)
    }
    fn round(self) -> i64 {
        self.0.round() as i64
    }
    fn parse(text: &str) -> Option<Self> {
        text.parse::<f32>().ok().map(Single)
    }
}

fn reals(values: [f64; 16]) -> Matrix4x4<Real> {
    Matrix4x4::from_array(values.map(Real))
}

fn residues(values: [u64; 16]) -> Matrix4x4<Mod7> {
    Matrix4x4::from_array(values.map(Mod7::new))
}

fn floats(m: &Matrix4x4<Real>) -> [[f64; 4]; 4] {
    m.data.map(|row| row.map(|x| x.0))
}

fn close(a: &Matrix4x4<Real>, b: &Matrix4x4<Real>, tolerance: f64) -> bool {
    let (x, y) = (floats(a), floats(b));
    (0..4).all(|i| (0..4).all(|j| (x[i][j] - y[i][j]).abs() <= tolerance))
}

fn sample_matrix() -> Matrix4x4<Real> {
    reals([
        2.0, 1.0, 0.0, 3.0, //
        0.0, 4.0, 1.0, -2.0, //
        1.0, 0.0, 3.0, 5.0, //
        0.0, 0.0, 0.0, 1.0,
    ])
}

fn unit_volume() -> CTVolume<Real> {
    CTVolume {
        dimensions: (3, 5, 4),
        voxel_spacing: (Real(0.5), Real(0.25), Real(2.0)),
        voxel_data: vec![0; 60],
        base: Base {
            label: "series".to_string(),
            matrix: reals([
                0.5, 0.0, 0.0, 10.0, //
                0.0, 0.25, 0.0, 20.0, //
                0.0, 0.0, 2.0, 30.0, //
                0.0, 0.0, 0.0, 1.0,
            ]),
        },
        skipped_slices: 0,
    }
}

#[test]
fn test_base_basic() {
    let m = [
        1., 0.5, 0., 0., 0., 1., 0., 0., 0., 0., 1., 0., 0., 0., 0., 1.,
    ];
    let matrix = Matrix4x4::<Real>::from_array(m.map(Real));
    println!("{:?}", matrix);
    println!("{:?}", matrix.apply(&[Real(3.), Real(2.), Real(1.), Real(1.)]));
    let base0 = Base::<Real> {
        label: "world coordinate".to_string(),
        matrix: Matrix4x4::<Real>::eye(),
    };
    let base1 = Base::<Real> {
        label: "system coordinate".to_string(),
        matrix: matrix,
    };
    let transorm_matrix = base0.to_base(&base1);
    println!("{:?}", transorm_matrix);
    assert_eq!(
        matrix.apply(&[Real(3.), Real(2.), Real(1.), Real(1.)]),
        [Real(4.), Real(2.), Real(1.), Real(1.)]
    );
    let t = transorm_matrix.unwrap();
    assert_eq!(
        floats(&t),
        [
            [1., -0.5, 0., 0.],
            [0., 1., 0., 0.],
            [0., 0., 1., 0.],
            [0., 0., 0., 1.]
        ]
    );
}

#[test]
fn test_base_nontrivial() {
    let matrix0 = Matrix4x4 {
        data: [
            [-0.51469487, 1.16777869, 0.11198701, -0.44676615],
            [-1.79107111, -1.18206274, -0.18222625, -1.25953278],
            [1.72667095, 1.85407961, 2.36366226, 1.58998366],
            [0.0, 0.0, 0.0, 1.0],
        ]
        .map(|row| row.map(Single)),
    };
    let matrix1 = Matrix4x4 {
        data: [
            [-0.53832315, 1.36244315, -0.11961783, 2.41102403],
            [1.17852419, -0.84371312, -1.13160416, -1.61392419],
            [0.00636648, -0.7648334, -0.19224463, -0.09854762],
            [0.0, 0.0, 0.0, 1.0],
        ]
        .map(|row| row.map(Single)),
    };
    println!("{:?}", matrix0);
    println!(
        "{:?}",
        matrix1.apply(&[Single(3.), Single(2.), Single(1.), Single(1.)])
    );
    let base0 = Base::<Single> {
        label: "world coordinate".to_string(),
        matrix: matrix0,
    };
    let base1 = Base::<Single> {
        label: "system coordinate".to_string(),
        matrix: matrix1,
    };
    let transorm_matrix = base0.to_base(&base1);
    println!("{:?}", transorm_matrix);
    let t = transorm_matrix.unwrap();
    let back = matrix1.multiply(&t);
    for i in 0..4 {
        for j in 0..4 {
            assert!((back.data[i][j].0 - matrix0.data[i][j].0).abs() < 1e-4);
        }
    }
}

#[test]
fn from_array_fills_rows_in_order() {
    let mut flat = [0.0; 16];
    for k in 0..16 {
        flat[k] = k as f64;
    }
    let m = reals(flat);
    assert_eq!(floats(&m)[0], [0., 1., 2., 3.]);
    assert_eq!(floats(&m)[2], [8., 9., 10., 11.]);
    assert_eq!(m.data[3][1], Real(13.));
}

#[test]
fn flatten_and_unflatten_are_inverse() {
    let mut flat = [0u8; 16];
    for k in 0..16 {
        flat[k] = (3 * k + 1) as u8;
    }
    let rows = slice_to_array(&flat);
    assert_eq!(rows[1], [13, 16, 19, 22]);
    assert_eq!(rows[3][3], 46);
    assert_eq!(array_to_slice(&rows), flat);
}

#[test]
fn multiply_is_row_by_column() {
    let a = sample_matrix();
    let b = reals([
        1.0, 0.0, 2.0, 0.0, //
        0.0, 1.0, 0.0, 1.0, //
        3.0, 0.0, 1.0, 0.0, //
        0.0, 0.0, 0.0, 1.0,
    ]);
    let c = a.multiply(&b);
    assert_eq!(
        floats(&c),
        [
            [2., 1., 4., 4.],
            [3., 4., 1., 2.],
            [10., 0., 5., 5.],
            [0., 0., 0., 1.]
        ]
    );
    let d = b.multiply(&a);
    assert_eq!(floats(&d)[0], [4., 1., 6., 13.]);
}

#[test]
fn multiply_by_identity_changes_nothing() {
    let a = sample_matrix();
    let i = Matrix4x4::<Real>::eye();
    assert_eq!(floats(&a.multiply(&i)), floats(&a));
    assert_eq!(floats(&i.multiply(&a)), floats(&a));
}

#[test]
fn apply_distinguishes_points_and_directions() {
    let a = sample_matrix();
    assert_eq!(
        a.apply(&[Real(1.), Real(1.), Real(1.), Real(1.)]),
        [Real(6.), Real(3.), Real(9.), Real(1.)]
    );
    assert_eq!(
        a.apply(&[Real(1.), Real(1.), Real(1.), Real(0.)]),
        [Real(3.), Real(5.), Real(4.), Real(0.)]
    );
}

#[test]
fn eye_is_diagonal_of_ones() {
    let i = Matrix4x4::<Real>::eye();
    for r in 0..4 {
        for c in 0..4 {
            assert_eq!(i.data[r][c], Real(if r == c { 1.0 } else { 0.0 }));
        }
    }
}

#[test]
fn get_column_reads_translation() {
    let a = sample_matrix();
    assert_eq!(a.get_column(3), [Real(3.), Real(-2.), Real(5.), Real(1.)]);
    assert_eq!(a.get_column(0), [Real(2.), Real(0.), Real(1.), Real(0.)]);
}

#[test]
fn transpose_swaps_rows_and_columns() {
    let a = sample_matrix();
    let t = a.transpose();
    assert_eq!(floats(&t)[0], [2., 0., 1., 0.]);
    assert_eq!(floats(&t)[3], [3., -2., 5., 1.]);
}

#[test]
fn transpose_twice_is_exact() {
    let a = reals([
        0.1, 0.2, 0.3, 0.4, //
        1e-30, 1e30, -0.0, 7.0, //
        3.3, -4.4, 5.5, -6.6, //
        9.0, 8.0, 7.0, 6.0,
    ]);
    let back = a.transpose().transpose();
    for r in 0..4 {
        for c in 0..4 {
            assert_eq!(back.data[r][c].0.to_bits(), a.data[r][c].0.to_bits());
        }
    }
}

#[test]
fn inverse_of_known_matrix() {
    let a = reals([
        2.0, 0.0, 0.0, 4.0, //
        0.0, 4.0, 0.0, -8.0, //
        0.0, 0.0, 0.5, 1.0, //
        0.0, 0.0, 0.0, 1.0,
    ]);
    let inv = a.inv().unwrap();
    assert_eq!(
        floats(&inv),
        [
            [0.5, 0., 0., -2.],
            [0., 0.25, 0., 2.],
            [0., 0., 2., -2.],
            [0., 0., 0., 1.]
        ]
    );
}

#[test]
fn inverse_needs_row_exchange() {
    let a = reals([
        0.0, 1.0, 0.0, 0.0, //
        1.0, 0.0, 0.0, 0.0, //
        0.0, 0.0, 0.0, 1.0, //
        0.0, 0.0, 1.0, 0.0,
    ]);
    let inv = a.inv().unwrap();
    assert_eq!(floats(&inv), floats(&a));
}

#[test]
fn inverse_round_trip_within_tolerance() {
    let a = sample_matrix();
    let inv = a.inv().unwrap();
    let back = inv.inv().unwrap();
    assert!(close(&back, &a, 1e-12));
    assert!(close(&a.multiply(&inv), &Matrix4x4::eye(), 1e-12));
    assert!(close(&inv.multiply(&a), &Matrix4x4::eye(), 1e-12));
}

#[test]
fn zero_row_has_no_inverse() {
    let a = reals([
        2.0, 1.0, 0.0, 3.0, //
        0.0, 0.0, 0.0, 0.0, //
        1.0, 0.0, 3.0, 5.0, //
        0.0, 0.0, 0.0, 1.0,
    ]);
    assert!(a.inv().is_none());
}

#[test]
fn identical_rows_have_no_inverse() {
    let a = reals([
        2.0, 1.0, 0.0, 3.0, //
        1.0, 0.0, 3.0, 5.0, //
        1.0, 0.0, 3.0, 5.0, //
        0.0, 0.0, 0.0, 1.0,
    ]);
    assert!(a.inv().is_none());
}

#[test]
fn zero_matrix_has_no_inverse() {
    assert!(reals([0.0; 16]).inv().is_none());
}

#[test]
fn base_expressed_in_itself_is_identity() {
    let b = Base {
        label: "volume".to_string(),
        matrix: sample_matrix(),
    };
    let t = b.to_base(&b).unwrap();
    assert!(close(&t, &Matrix4x4::eye(), 1e-12));
}

#[test]
fn to_base_of_singular_base_is_none() {
    let b = Base {
        label: "volume".to_string(),
        matrix: sample_matrix(),
    };
    let flat = Base {
        label: "flat".to_string(),
        matrix: reals([
            1.0, 0.0, 0.0, 0.0, //
            0.0, 1.0, 0.0, 0.0, //
            0.0, 0.0, 0.0, 0.0, //
            0.0, 0.0, 0.0, 1.0,
        ]),
    };
    assert!(b.to_base(&flat).is_none());
    assert!(flat.to_base(&b).is_some());
}

#[test]
fn default_base_is_world_identity() {
    let w = Base::<Real>::default();
    assert_eq!(w.label, "world");
    assert_eq!(floats(&w.matrix), floats(&Matrix4x4::eye()));
}

#[test]
fn max_prefers_first_on_ties() {
    assert_eq!(max(Real(1.0), Real(2.0)), Real(2.0));
    assert_eq!(max(Real(2.0), Real(1.0)), Real(2.0));
    assert_eq!(max(Real(0.0), Real(-0.0)).0.to_bits(), 0.0f64.to_bits());
}

#[test]
fn ratio_divides_converted_integers() {
    assert_eq!(ratio::<Real>(28, 10), Real(2.8));
    assert_eq!(ratio::<Real>(-2588, 10000), Real(-0.2588));
    assert_eq!(ratio::<Mod7>(3, 2), Mod7::Five);
}

#[test]
fn mod7_arithmetic_is_modular() {
    let (two, three, five, six) = (Mod7::Two, Mod7::Three, Mod7::Five, Mod7::Six);
    assert_eq!(five.add(six), Mod7::Four);
    assert_eq!(two.sub(five), Mod7::Four);
    assert_eq!(three.mul(five), Mod7::One);
    assert_eq!(two.div(three), Mod7::Three);
    assert_eq!(two.neg(), five);
    assert_eq!(Mod7::Zero.neg(), Mod7::Zero);
    assert_eq!(six.abs(), six);
    assert!(two.lt(three));
    assert!(!three.lt(three));
    assert!(Mod7::Zero.is_zero());
    assert!(!six.is_zero());
    assert_eq!(five.div(Mod7::Zero), Mod7::Zero);
    assert_eq!(Mod7::from_i32(-1), six);
    assert_eq!(Mod7::from_i32(15), Mod7::One);
    assert_eq!(Mod7::from_usize(20), six);
    assert_eq!(five.round(), 5);
    assert_eq!(Mod7::new(7), Mod7::zero());
    assert_eq!(Mod7::new(8), Mod7::one());
    assert_eq!(Mod7::Four.get(), 4);
}

#[test]
fn mod7_every_nonzero_scalar_has_an_inverse() {
    for v in 1..7 {
        let x = Mod7::new(v);
        assert_eq!(x.mul(x.inverse()), Mod7::One);
        assert_eq!(x.div(x), Mod7::One);
    }
    assert_eq!(Mod7::Zero.inverse(), Mod7::Zero);
}

#[test]
fn mod7_inverse_is_exact_on_both_sides() {
    let a = residues([
        2, 1, 0, 3, //
        0, 4, 1, 5, //
        1, 0, 3, 5, //
        6, 0, 0, 1,
    ]);
    let inv = a.inv().unwrap();
    let eye = Matrix4x4::<Mod7>::eye();
    assert_eq!(a.multiply(&inv).data, eye.data);
    assert_eq!(inv.multiply(&a).data, eye.data);
    assert_eq!(inv.inv().unwrap().data, a.data);
}

#[test]
fn mod7_singular_matrices_are_detected() {
    let zero_row = residues([
        2, 1, 0, 3, //
        0, 0, 0, 0, //
        1, 0, 3, 5, //
        6, 0, 0, 1,
    ]);
    assert!(zero_row.inv().is_none());
    let twin_rows = residues([
        2, 1, 0, 3, //
        1, 0, 3, 5, //
        1, 0, 3, 5, //
        6, 0, 0, 1,
    ]);
    assert!(twin_rows.inv().is_none());
    let dependent = residues([
        1, 2, 3, 4, //
        2, 4, 6, 1, //
        0, 1, 0, 0, //
        0, 0, 1, 0,
    ]);
    assert!(dependent.inv().is_none());
}

#[test]
fn uv_base_scales_by_last_index() {
    let vol = unit_volume();
    let uv = GeometryBuilder::build_uv_base(&vol);
    assert_eq!(uv.label, "CT Volume: UV");
    assert_eq!(
        floats(&uv.matrix),
        [
            [1.0, 0., 0., 10.],
            [0., 1.0, 0., 20.],
            [0., 0., 6.0, 30.],
            [0., 0., 0., 1.]
        ]
    );
}

#[test]
fn transverse_base_covers_larger_extent() {
    let vol = unit_volume();
    let b = GeometryBuilder::build_transverse_base(&vol);
    assert_eq!(b.label, "CT Volume: screen");
    assert_eq!(
        floats(&b.matrix),
        [
            [1.5, 0., 0., 10.],
            [0., 1.5, 0., 20.],
            [0., 0., 8.0, 30.],
            [0., 0., 0., 1.]
        ]
    );
}

#[test]
fn transverse_depth_is_spacing_times_slice_count() {
    let mut vol = unit_volume();
    vol.dimensions = (2, 2, 3);
    vol.voxel_spacing = (Real(1.0), Real(1.0), Real(1.0));
    vol.voxel_data = vec![0; 12];
    let b = GeometryBuilder::build_transverse_base(&vol);
    assert_eq!(b.matrix.data[2][2], Real(3.0));
    assert_eq!(b.matrix.data[0][0], Real(2.0));
    vol.dimensions = (2, 7, 1);
    vol.voxel_spacing = (Real(1.0), Real(0.5), Real(0.25));
    let b = GeometryBuilder::build_transverse_base(&vol);
    assert_eq!(b.matrix.data[0][0], Real(3.5));
    assert_eq!(b.matrix.data[1][1], Real(3.5));
    assert_eq!(b.matrix.data[2][2], Real(0.25));
}

#[test]
fn sagittal_base_formula() {
    let vol = unit_volume();
    let b = GeometryBuilder::build_sagittal_base(&vol);
    assert_eq!(b.label, "CT Volume: screen");
    let d = 1.0;
    assert_eq!(
        floats(&b.matrix),
        [
            [d, 0., 0., 10.],
            [0., 0., d / 4.0, (20.0 + 4.0 * 0.25) / 2.0 - d / 2.8],
            [0., -d, 0., 30.0 + 3.0 * 2.0 / 2.0 + d / 2.0],
            [0., 0., 0., 1.]
        ]
    );
    assert_eq!(b.matrix.data[1][3], Real(10.5 - 1.0 / 2.8));
    assert_eq!(b.matrix.data[2][3], Real(33.5));
}

#[test]
fn coronal_base_formula() {
    let vol = unit_volume();
    let b = GeometryBuilder::build_coronal_base(&vol);
    assert_eq!(b.label, "CT Volume: screen");
    assert_eq!(
        floats(&b.matrix),
        [
            [0., 0., 0.5, 5.0],
            [1., 0., 0., 20.],
            [0., -1., 0., 33.5],
            [0., 0., 0., 1.]
        ]
    );
}

#[test]
fn oblique_base_is_rotated_coronal() {
    let vol = unit_volume();
    let b = GeometryBuilder::build_oblique_base(&vol);
    assert_eq!(b.label, "CT Volume: screen");
    let rotation = reals([
        0.9330, 0.2500, -0.2588, 0.0, //
        -0.1853, 0.9504, 0.2500, 0.0, //
        0.3085, -0.1853, 0.9330, 0.0, //
        0.0, 0.0, 0.0, 1.0,
    ]);
    let coronal = GeometryBuilder::build_coronal_base(&vol);
    assert_eq!(
        floats(&b.matrix),
        floats(&coronal.matrix.multiply(&rotation))
    );
    assert!((b.matrix.data[0][0].0 - 0.15425).abs() < 1e-12);
    assert!((b.matrix.data[1][1].0 - 0.25).abs() < 1e-12);
    assert!((b.matrix.data[2][2].0 + 0.25).abs() < 1e-12);
    assert_eq!(b.matrix.data[0][3], Real(5.0));
}

#[test]
fn view_transform_is_read_column_by_column() {
    let screen = Base {
        label: "screen".to_string(),
        matrix: reals([
            2.0, 0.0, 0.0, 3.0, //
            0.0, 4.0, 0.0, 5.0, //
            0.0, 0.0, 8.0, 7.0, //
            0.0, 0.0, 0.0, 1.0,
        ]),
    };
    let world = Base::<Real>::default();
    let entries = GeometryBuilder::build_view_transform(&screen, &world).unwrap();
    assert_eq!(
        entries.map(|x| x.0),
        [2., 0., 0., 0., 0., 4., 0., 0., 0., 0., 8., 0., 3., 5., 7., 1.]
    );
    let vol = unit_volume();
    let uv = GeometryBuilder::build_uv_base(&vol);
    let same = GeometryBuilder::build_view_transform(&uv, &uv).unwrap();
    assert_eq!(same.map(|x| x.0), array_to_slice(&floats(&Matrix4x4::eye())));
    let flat = Base {
        label: "flat".to_string(),
        matrix: reals([0.0; 16]),
    };
    assert_eq!(
        GeometryBuilder::build_view_transform(&screen, &flat).err(),
        Some(VolumeError::SingularMatrix)
    );
}

#[test]
fn product_operator_multiplies() {
    let a = sample_matrix();
    let b = reals([
        1.0, 0.0, 2.0, 0.0, //
        0.0, 1.0, 0.0, 1.0, //
        3.0, 0.0, 1.0, 0.0, //
        0.0, 0.0, 0.0, 1.0,
    ]);
    assert_eq!(floats(&(a * b)), floats(&a.multiply(&b)));
    assert_eq!(floats(&(a * b))[2], [10., 0., 5., 5.]);
    let x = residues([1, 2, 0, 0, 0, 1, 0, 0, 0, 0, 1, 0, 0, 0, 0, 1]);
    assert_eq!((x * x).data[0], [Mod7::One, Mod7::Four, Mod7::Zero, Mod7::Zero]);
}

#[test]
fn texture_words_are_samples_raised_by_a_thousand() {
    let mut vol = unit_volume();
    vol.voxel_data = vec![-1000, -1024, 0, 3071, 32767, -32768, 31767, 31768];
    assert_eq!(
        vol.texture_words(),
        vec![0, 65512, 1000, 4071, 33767, 33768, 32767, 32768]
    );
    let bytes: Vec<u8> = [0u16, 65512, 1000, 4071, 33767, 33768, 32767, 32768]
        .iter()
        .flat_map(|w| w.to_ne_bytes())
        .collect();
    assert_eq!(vol.texture_bytes(), bytes);
    vol.voxel_data = vec![];
    assert_eq!(vol.texture_words(), Vec::<u16>::new());
    assert_eq!(vol.texture_bytes(), Vec::<u8>::new());
}

#[test]
fn layout_places_four_views_in_two_rows() {
    let mut layout = Layout::new((1800, 900));
    assert_eq!(MAX_VIEWS, 4);
    assert!(layout.views().is_empty());
    for _ in 0..4 {
        assert!(!layout.is_full());
        layout.add_view(Viewport {
            pos: (7, 7),
            dim: (1, 1),
        });
    }
    assert!(layout.is_full());
    let placed: Vec<((i32, i32), (u32, u32))> = layout
        .views()
        .iter()
        .map(|v| (v.position(), v.dimensions()))
        .collect();
    assert_eq!(
        placed,
        vec![
            ((0, 0), (900, 900)),
            ((900, 0), (900, 900)),
            ((0, 900), (900, 900)),
            ((900, 900), (900, 900))
        ]
    );
    let mut odd = Layout::new((u32::MAX, 0));
    odd.add_view(Viewport {
        pos: (0, 0),
        dim: (0, 0),
    });
    odd.add_view(Viewport {
        pos: (0, 0),
        dim: (0, 0),
    });
    assert_eq!(odd.views()[1].position(), (i32::MAX, 0));
    assert_eq!(odd.views()[1].dimensions(), (2147483647, 2147483647));
}

#[test]
fn viewport_moves_and_resizes() {
    let mut view = Viewport {
        pos: (1, 2),
        dim: (3, 4),
    };
    view.move_to((-5, 6));
    assert_eq!((view.position(), view.dimensions()), ((-5, 6), (3, 4)));
    view.resize((7, 8));
    assert_eq!((view.position(), view.dimensions()), ((-5, 6), (7, 8)));
}

#[test]
fn builder_accepts_a_repository() {
    let repo = kepler_wgpu::dicom::dicom_repo::DicomRepo::<Real>::new();
    let _builder = GeometryBuilder::new().dicom_repo(&repo);
}

#[test]
fn rounding_can_hide_equal_rows() {
    let a = reals([
        7.0, 29.0, 0.0, 0.0, //
        7.0, 29.0, 0.0, 0.0, //
        0.0, 0.0, 1.0, 0.0, //
        0.0, 0.0, 0.0, 1.0,
    ]);
    let inverse = a.inv().unwrap();
    assert!(inverse.data[0][0].0.abs() > 1e15);
    let exact = residues([
        0, 1, 0, 0, //
        0, 1, 0, 0, //
        0, 0, 1, 0, //
        0, 0, 0, 1,
    ]);
    assert!(exact.inv().is_none());
}

#[test]
fn matrix_is_formatted_one_row_to_a_line() {
    let rows = [[1u8, 2, 3, 4], [5, 6, 7, 8], [9, 10, 11, 12], [13, 14, 15, 16]];
    assert_eq!(
        format_matrix(&rows),
        "[1, 2, 3, 4]\n [5, 6, 7, 8]\n [9, 10, 11, 12]\n [13, 14, 15, 16]"
    );
    let e = Matrix4x4::<Mod7>::eye();
    assert_eq!(
        format_matrix(&e.data),
        "[One, Zero, Zero, Zero]\n [Zero, One, Zero, Zero]\n [Zero, Zero, One, Zero]\n [Zero, Zero, Zero, One]"
    );
    let texts = ["a", "", "c d", "e"].map(|t| t.to_string());
    assert_eq!(format_rows(&texts), "a\n \n c d\n e");
}

#[test]
fn layout_knows_its_window() {
    let layout = Layout::new((640, 480));
    assert_eq!(layout.window(), (640, 480));
}
