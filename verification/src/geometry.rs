//! The bases of the view planes of a volume.

use crate::coord::{
    array_to_slice, base_change, flatten, mat_column, mat_mul, mat_transpose, unflatten, Base,
    Matrix4x4,
};
use crate::ct_volume::CTVolume;
use crate::error::VolumeError;
use crate::dicom::assembly::scaling_matrix;
use crate::dicom::ct_image::CTImage;
use crate::dicom::dicom_repo::DicomRepo;
use crate::field::{max, max_spec, ratio, ratio_spec, Field};
use vstd::prelude::*;

verus! {

/// The sagittal plane is a quarter as deep as it is wide.
pub const SAGITTAL_DEPTH_DIVISOR: i32 = 4;

/// Tenths by which the width is divided to centre the sagittal slab: a
/// display setting found by trial, not a geometric quantity.
pub const SAGITTAL_CENTERING_TENTHS: i32 = 28;

/// The entries of the oblique rotation are stated in ten-thousandths.
pub const ROTATION_SCALE: i32 = 10000;

/// Entry (0, 0) of the oblique rotation, in ten-thousandths. The nine
/// entries are a display setting found by trial; they are kept as they are.
pub const ROTATION_00: i32 = 9330;

/// Entry (0, 1) of the oblique rotation, in ten-thousandths.
pub const ROTATION_01: i32 = 2500;

/// Entry (0, 2) of the oblique rotation, in ten-thousandths.
pub const ROTATION_02: i32 = -2588;

/// Entry (1, 0) of the oblique rotation, in ten-thousandths.
pub const ROTATION_10: i32 = -1853;

/// Entry (1, 1) of the oblique rotation, in ten-thousandths.
pub const ROTATION_11: i32 = 9504;

/// Entry (1, 2) of the oblique rotation, in ten-thousandths.
pub const ROTATION_12: i32 = 2500;

/// Entry (2, 0) of the oblique rotation, in ten-thousandths.
pub const ROTATION_20: i32 = 3085;

/// Entry (2, 1) of the oblique rotation, in ten-thousandths.
pub const ROTATION_21: i32 = -1853;

/// Entry (2, 2) of the oblique rotation, in ten-thousandths.
pub const ROTATION_22: i32 = 9330;

/// Builds the bases of the view planes of a volume.
pub struct GeometryBuilder<'a, T> {
    repo: Option<&'a DicomRepo<T>>,
    sorted_image_series: Option<Vec<&'a CTImage<T>>>,
}

/// The last index along an axis of `n` cells, as a scalar: `n - 1`.
pub open spec fn last_index<T: Field>(n: usize) -> T {
    T::from_usize_spec(n).sub_spec(T::one_spec())
}

/// The side of the sagittal, coronal and oblique planes: the larger of the
/// two in-plane distances between the first and the last voxel.
pub open spec fn plane_side<T: Field>(dims: (usize, usize, usize), spacing: (T, T, T)) -> T {
    max_spec(
        last_index::<T>(dims.0).mul_spec(spacing.0),
        last_index::<T>(dims.1).mul_spec(spacing.1),
    )
}

/// The matrix of the UV base: the volume's matrix times the scaling by the
/// last index along each axis.
pub open spec fn uv_matrix<T: Field>(base: Seq<Seq<T>>, dims: (usize, usize, usize)) -> Seq<
    Seq<T>,
> {
    mat_mul(
        base,
        scaling_matrix((last_index::<T>(dims.0), last_index::<T>(dims.1), last_index::<T>(dims.2))),
    )
}

/// The side of the transverse plane: the larger in-plane extent of the
/// grid, rows times row spacing or columns times column spacing.
pub open spec fn transverse_side<T: Field>(dims: (usize, usize, usize), spacing: (T, T, T)) -> T {
    max_spec(
        T::from_usize_spec(dims.0).mul_spec(spacing.0),
        T::from_usize_spec(dims.1).mul_spec(spacing.1),
    )
}

/// The depth of the transverse base: the distance between slices times the
/// number of slices.
pub open spec fn transverse_depth<T: Field>(dims: (usize, usize, usize), spacing: (T, T, T)) -> T {
    spacing.2.mul_spec(T::from_usize_spec(dims.2))
}

/// The matrix of the transverse base: a square of side `transverse_side` in
/// the x-y plane at the volume's origin, as deep as the stack of slices.
pub open spec fn transverse_matrix<T: Field>(
    origin: Seq<T>,
    dims: (usize, usize, usize),
    spacing: (T, T, T),
) -> Seq<Seq<T>> {
    let z = T::zero_spec();
    let d = transverse_side(dims, spacing);
    let dz = transverse_depth(dims, spacing);
    unflatten(
        seq![d, z, z, origin[0], z, d, z, origin[1], z, z, dz, origin[2], z, z, z, T::one_spec()],
    )
}

/// The height at which the sagittal and coronal planes stand: the middle of
/// the stack of slices, raised by half the side of the plane.
pub open spec fn plane_top<T: Field>(
    origin: Seq<T>,
    dims: (usize, usize, usize),
    spacing: (T, T, T),
) -> T {
    origin[2].add_spec(
        last_index::<T>(dims.2).mul_spec(spacing.2).div_spec(T::from_i32_spec(2)),
    ).add_spec(plane_side(dims, spacing).div_spec(T::from_i32_spec(2)))
}

/// The matrix of the sagittal base.
pub open spec fn sagittal_matrix<T: Field>(
    origin: Seq<T>,
    dims: (usize, usize, usize),
    spacing: (T, T, T),
) -> Seq<Seq<T>> {
    let z = T::zero_spec();
    let d = plane_side(dims, spacing);
    let depth = d.div_spec(T::from_i32_spec(SAGITTAL_DEPTH_DIVISOR));
    let shift = origin[1].add_spec(last_index::<T>(dims.1).mul_spec(spacing.1)).div_spec(
        T::from_i32_spec(2),
    ).sub_spec(d.div_spec(ratio_spec::<T>(SAGITTAL_CENTERING_TENTHS, 10)));
    unflatten(
        seq![
            d,
            z,
            z,
            origin[0],
            z,
            z,
            depth,
            shift,
            z,
            d.neg_spec(),
            z,
            plane_top(origin, dims, spacing),
            z,
            z,
            z,
            T::one_spec(),
        ],
    )
}

/// The matrix of the coronal base.
pub open spec fn coronal_matrix<T: Field>(
    origin: Seq<T>,
    dims: (usize, usize, usize),
    spacing: (T, T, T),
) -> Seq<Seq<T>> {
    let z = T::zero_spec();
    let d = plane_side(dims, spacing);
    let half = d.div_spec(T::from_i32_spec(2));
    let shift = origin[0].add_spec(last_index::<T>(dims.0).mul_spec(spacing.0)).div_spec(
        T::from_i32_spec(2),
    ).sub_spec(half);
    unflatten(
        seq![
            z,
            z,
            half,
            shift,
            d,
            z,
            z,
            origin[1],
            z,
            d.neg_spec(),
            z,
            plane_top(origin, dims, spacing),
            z,
            z,
            z,
            T::one_spec(),
        ],
    )
}

/// The fixed rotation of the oblique plane.
pub open spec fn oblique_rotation<T: Field>() -> Seq<Seq<T>> {
    let z = T::zero_spec();
    unflatten(
        seq![
            ratio_spec::<T>(ROTATION_00, ROTATION_SCALE),
            ratio_spec::<T>(ROTATION_01, ROTATION_SCALE),
            ratio_spec::<T>(ROTATION_02, ROTATION_SCALE),
            z,
            ratio_spec::<T>(ROTATION_10, ROTATION_SCALE),
            ratio_spec::<T>(ROTATION_11, ROTATION_SCALE),
            ratio_spec::<T>(ROTATION_12, ROTATION_SCALE),
            z,
            ratio_spec::<T>(ROTATION_20, ROTATION_SCALE),
            ratio_spec::<T>(ROTATION_21, ROTATION_SCALE),
            ratio_spec::<T>(ROTATION_22, ROTATION_SCALE),
            z,
            z,
            z,
            z,
            T::one_spec(),
        ],
    )
}

/// The matrix of the oblique base: the coronal matrix times the fixed
/// rotation.
pub open spec fn oblique_matrix<T: Field>(
    origin: Seq<T>,
    dims: (usize, usize, usize),
    spacing: (T, T, T),
) -> Seq<Seq<T>> {
    mat_mul(coronal_matrix(origin, dims, spacing), oblique_rotation::<T>())
}

/// The sixteen entries that a shader reads for the change from the frame
/// `screen` to the frame `uv`: the matrix of the change, column after column.
/// Where `uv` has no inverse there is no such change.
pub open spec fn view_transform_spec<T: Field>(screen: Seq<Seq<T>>, uv: Seq<Seq<T>>) -> Result<
    Seq<T>,
    VolumeError,
> {
    match base_change(screen, uv) {
        Some(m) => Ok(flatten(mat_transpose(m))),
        None => Err(VolumeError::SingularMatrix),
    }
}

/// The last index along an axis of `n` cells, as a scalar.
fn last_index_of<T: Field>(n: usize) -> (r: T)
    ensures
        r == last_index::<T>(n),
{
    T::from_usize(n).sub(T::one())
}

/// The matrix of the coronal base.
fn coronal_screen<T: Field>(vol: &CTVolume<T>) -> (r: Matrix4x4<T>)
    ensures
        r@ == coronal_matrix(mat_column(vol.base.matrix@, 3), vol.dimensions, vol.voxel_spacing),
{
    let z = T::zero();
    let two = T::from_i32(2);
    let nx: T = last_index_of(vol.dimensions.0);
    let ny: T = last_index_of(vol.dimensions.1);
    let nz: T = last_index_of(vol.dimensions.2);
    let space = vol.voxel_spacing;
    let origin = vol.base.matrix.get_column(3);
    let d = max(nx.mul(space.0), ny.mul(space.1));
    let r = Matrix4x4::from_array(
        [
            z,
            z,
            d.div(two),
            origin[0].add(nx.mul(space.0)).div(two).sub(d.div(two)),
            d,
            z,
            z,
            origin[1],
            z,
            d.neg(),
            z,
            origin[2].add(nz.mul(space.2).div(two)).add(d.div(two)),
            z,
            z,
            z,
            T::one(),
        ],
    );
    assert(r@ =~~= coronal_matrix(
        mat_column(vol.base.matrix@, 3),
        vol.dimensions,
        vol.voxel_spacing,
    ));
    r
}

impl<'a, T: Field> GeometryBuilder<'a, T> {
    /// The repository that the builder was given.
    pub closed spec fn repository(&self) -> Option<&'a DicomRepo<T>> {
        self.repo
    }

    /// The slices that the builder holds in stacking order.
    pub closed spec fn sorted_slices(&self) -> Option<Vec<&'a CTImage<T>>> {
        self.sorted_image_series
    }

    /// A builder that knows no repository yet.
    pub fn new() -> (r: Self)
        ensures
            r.repository() is None,
            r.sorted_slices() is None,
    {
        GeometryBuilder { repo: None, sorted_image_series: None }
    }

    /// The builder with `repo` as its repository.
    pub fn dicom_repo(self, repo: &'a DicomRepo<T>) -> (r: Self)
        ensures
            r.repository() == Some(repo),
            r.sorted_slices() == self.sorted_slices(),
    {
        GeometryBuilder { repo: Some(repo), sorted_image_series: self.sorted_image_series }
    }

    /// The sixteen entries that a shader reads for the change from the frame
    /// `screen` to the frame `uv`: the matrix of the change, turned from
    /// rows to columns. Fails where `uv` has no inverse.
    pub fn build_view_transform(screen: &Base<T>, uv: &Base<T>) -> (r: Result<
        [T; 16],
        VolumeError,
    >)
        ensures
            match r {
                Ok(entries) => view_transform_spec(screen.matrix@, uv.matrix@) == Ok::<
                    Seq<T>,
                    VolumeError,
                >(entries@),
                Err(e) => view_transform_spec(screen.matrix@, uv.matrix@) == Err::<
                    Seq<T>,
                    VolumeError,
                >(e),
            },
    {
        match screen.to_base(uv) {
            Some(row_major) => {
                let column_major = row_major.transpose();
                let entries = array_to_slice(&column_major.data);
                assert(Seq::new(4, |i: int| column_major.data[i]@) =~~= column_major@);
                Ok(entries)
            },
            None => Err(VolumeError::SingularMatrix),
        }
    }

    /// The UV base: the unit cube of this base covers the voxel grid from
    /// the first index to the last along each axis.
    pub fn build_uv_base(vol: &CTVolume<T>) -> (r: Base<T>)
        ensures
            r.label@ == "CT Volume: UV"@,
            r.matrix@ == uv_matrix(vol.base.matrix@, vol.dimensions),
    {
        let z = T::zero();
        let nx: T = last_index_of(vol.dimensions.0);
        let ny: T = last_index_of(vol.dimensions.1);
        let nz: T = last_index_of(vol.dimensions.2);
        let scaling = Matrix4x4::from_array([nx, z, z, z, z, ny, z, z, z, z, nz, z, z, z, z, T::one()]);
        assert(scaling@ =~~= scaling_matrix((nx, ny, nz)));
        Base { label: "CT Volume: UV".to_string(), matrix: vol.base.matrix.multiply(&scaling) }
    }

    /// The transverse base: a square in the x-y plane at the volume's
    /// origin. Its side is the larger in-plane extent of the grid, rows
    /// times row spacing or columns times column spacing; its depth is the
    /// distance between slices times the number of slices.
    pub fn build_transverse_base(vol: &CTVolume<T>) -> (r: Base<T>)
        ensures
            r.label@ == "CT Volume: screen"@,
            r.matrix@ == transverse_matrix(
                mat_column(vol.base.matrix@, 3),
                vol.dimensions,
                vol.voxel_spacing,
            ),
    {
        let z = T::zero();
        let nx: T = T::from_usize(vol.dimensions.0);
        let ny: T = T::from_usize(vol.dimensions.1);
        let nz: T = T::from_usize(vol.dimensions.2);
        let space = vol.voxel_spacing;
        let origin = vol.base.matrix.get_column(3);
        let d = max(nx.mul(space.0), ny.mul(space.1));
        let dz = space.2.mul(nz);
        let matrix = Matrix4x4::from_array(
            [d, z, z, origin[0], z, d, z, origin[1], z, z, dz, origin[2], z, z, z, T::one()],
        );
        assert(matrix@ =~~= transverse_matrix(
            mat_column(vol.base.matrix@, 3),
            vol.dimensions,
            vol.voxel_spacing,
        ));
        Base { label: "CT Volume: screen".to_string(), matrix }
    }

    /// The sagittal base: a plane that stands on the transverse one, through
    /// the middle of the volume's depth.
    pub fn build_sagittal_base(vol: &CTVolume<T>) -> (r: Base<T>)
        ensures
            r.label@ == "CT Volume: screen"@,
            r.matrix@ == sagittal_matrix(
                mat_column(vol.base.matrix@, 3),
                vol.dimensions,
                vol.voxel_spacing,
            ),
    {
        let z = T::zero();
        let two = T::from_i32(2);
        let ny: T = last_index_of(vol.dimensions.1);
        let nx: T = last_index_of(vol.dimensions.0);
        let nz: T = last_index_of(vol.dimensions.2);
        let space = vol.voxel_spacing;
        let origin = vol.base.matrix.get_column(3);
        let d = max(nx.mul(space.0), ny.mul(space.1));
        let matrix = Matrix4x4::from_array(
            [
                d,
                z,
                z,
                origin[0],
                z,
                z,
                d.div(T::from_i32(SAGITTAL_DEPTH_DIVISOR)),
                origin[1].add(ny.mul(space.1)).div(two).sub(
                    d.div(ratio(SAGITTAL_CENTERING_TENTHS, 10)),
                ),
                z,
                d.neg(),
                z,
                origin[2].add(nz.mul(space.2).div(two)).add(d.div(two)),
                z,
                z,
                z,
                T::one(),
            ],
        );
        assert(matrix@ =~~= sagittal_matrix(
            mat_column(vol.base.matrix@, 3),
            vol.dimensions,
            vol.voxel_spacing,
        ));
        Base { label: "CT Volume: screen".to_string(), matrix }
    }

    /// The coronal base: a plane that stands on the transverse one, along
    /// its other axis.
    pub fn build_coronal_base(vol: &CTVolume<T>) -> (r: Base<T>)
        ensures
            r.label@ == "CT Volume: screen"@,
            r.matrix@ == coronal_matrix(
                mat_column(vol.base.matrix@, 3),
                vol.dimensions,
                vol.voxel_spacing,
            ),
    {
        Base { label: "CT Volume: screen".to_string(), matrix: coronal_screen(vol) }
    }

    /// The oblique base: the coronal plane, turned by the fixed rotation.
    pub fn build_oblique_base(vol: &CTVolume<T>) -> (r: Base<T>)
        ensures
            r.label@ == "CT Volume: screen"@,
            r.matrix@ == oblique_matrix(
                mat_column(vol.base.matrix@, 3),
                vol.dimensions,
                vol.voxel_spacing,
            ),
    {
        let z = T::zero();
        let rotation = Matrix4x4::from_array(
            [
                ratio(ROTATION_00, ROTATION_SCALE),
                ratio(ROTATION_01, ROTATION_SCALE),
                ratio(ROTATION_02, ROTATION_SCALE),
                z,
                ratio(ROTATION_10, ROTATION_SCALE),
                ratio(ROTATION_11, ROTATION_SCALE),
                ratio(ROTATION_12, ROTATION_SCALE),
                z,
                ratio(ROTATION_20, ROTATION_SCALE),
                ratio(ROTATION_21, ROTATION_SCALE),
                ratio(ROTATION_22, ROTATION_SCALE),
                z,
                z,
                z,
                z,
                T::one(),
            ],
        );
        assert(rotation@ =~~= oblique_rotation::<T>());
        Base { label: "CT Volume: screen".to_string(), matrix: coronal_screen(vol).multiply(&rotation) }
    }
}

} // verus!
