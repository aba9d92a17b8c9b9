//! From the slices of one series to a volume: ordering along z, the check
//! of the grid, the spacing, the voxel buffer and the base matrix.

use crate::coord::{mat_mul, unflatten, Base, Matrix4x4};
use crate::ct_volume::{CTVolume, VolumeModel};
use crate::dicom::ct_image::{is_pixel_data_of, CTImage};
use crate::dicom::table::{in_range, Table};
use crate::error::VolumeError;
use crate::field::Field;
use vstd::prelude::*;

verus! {

/// The z coordinate by which a slice is ordered: the third component of its
/// position, or zero where it has none.
pub open spec fn slice_z_spec<T: Field>(img: CTImage<T>) -> T {
    match img.image_position_patient {
        Some(p) => p.2,
        None => T::zero_spec(),
    }
}

/// `order`, ascending in z, with the slice `x` put behind every slice that
/// it is not strictly below.
pub open spec fn insert_by_z<T: Field>(
    images: Seq<CTImage<T>>,
    order: Seq<usize>,
    x: usize,
) -> Seq<usize>
    decreases order.len(),
{
    if order.len() == 0 || !slice_z_spec(images[x as int]).lt_spec(
        slice_z_spec(images[order.last() as int]),
    ) {
        order.push(x)
    } else {
        insert_by_z(images, order.drop_last(), x).push(order.last())
    }
}

/// The slices of `order` by ascending z; slices that are not strictly
/// ordered keep the order in which they came.
pub open spec fn sort_by_z<T: Field>(images: Seq<CTImage<T>>, order: Seq<usize>) -> Seq<usize>
    decreases order.len(),
{
    if order.len() == 0 {
        order
    } else {
        insert_by_z(images, sort_by_z(images, order.drop_last()), order.last())
    }
}

/// Every slice of `order` has the rows and columns of the first.
pub open spec fn same_grid_spec<T>(images: Seq<CTImage<T>>, order: Seq<usize>) -> bool {
    forall|k: int|
        0 <= k < order.len() ==> {
            &&& images[(#[trigger] order[k]) as int].rows == images[order[0] as int].rows
            &&& images[order[k] as int].columns == images[order[0] as int].columns
        }
}

/// The slices of a series in the order in which they are stacked, or the
/// reason why the series cannot be stacked.
pub open spec fn stack_order<T: Field>(picked: Seq<usize>, images: Seq<CTImage<T>>) -> Result<
    Seq<usize>,
    VolumeError,
> {
    if picked.len() == 0 {
        Err(VolumeError::EmptySeries)
    } else if !same_grid_spec(images, sort_by_z(images, picked)) {
        Err(VolumeError::InconsistentGeometry)
    } else {
        Ok(sort_by_z(images, picked))
    }
}

/// A decoded slice fills the grid of `img`: it holds one sample for each
/// cell.
pub open spec fn fills_grid<T>(img: CTImage<T>, d: Result<Seq<i16>, VolumeError>) -> bool {
    match d {
        Ok(s) => s.len() == img.rows as int * img.columns as int,
        Err(_) => false,
    }
}

/// How many of the first `n` slices of `order` have a decoding that fills
/// the grid.
pub open spec fn kept_upto<T>(
    images: Seq<CTImage<T>>,
    order: Seq<usize>,
    decoded: Seq<Result<Seq<i16>, VolumeError>>,
    n: int,
) -> int
    decreases n,
{
    if n <= 0 {
        0
    } else if fills_grid(images[order[n - 1] as int], decoded[n - 1]) {
        kept_upto(images, order, decoded, n - 1) + 1
    } else {
        kept_upto(images, order, decoded, n - 1)
    }
}

/// The samples of the first `n` slices of `order` whose decoding fills the
/// grid, slice after slice.
pub open spec fn voxels_upto<T>(
    images: Seq<CTImage<T>>,
    order: Seq<usize>,
    decoded: Seq<Result<Seq<i16>, VolumeError>>,
    n: int,
) -> Seq<i16>
    decreases n,
{
    if n <= 0 {
        Seq::empty()
    } else if fills_grid(images[order[n - 1] as int], decoded[n - 1]) {
        voxels_upto(images, order, decoded, n - 1) + decoded[n - 1].unwrap()
    } else {
        voxels_upto(images, order, decoded, n - 1)
    }
}

/// The distance between slices: the spacing that the first slice states,
/// else the distance in z to the second slice where that is above zero,
/// else one. A second slice without position counts as lying at z = 1.
pub open spec fn slice_gap<T: Field>(first: CTImage<T>, second: Option<CTImage<T>>) -> T {
    match first.spacing_between_slices {
        Some(s) => s,
        None => match second {
            Some(b) => {
                let zb = match b.image_position_patient {
                    Some(p) => p.2,
                    None => T::one_spec(),
                };
                let gap = zb.sub_spec(slice_z_spec(first)).abs_spec();
                if T::zero_spec().lt_spec(gap) {
                    gap
                } else {
                    T::one_spec()
                }
            },
            None => T::one_spec(),
        },
    }
}

/// The direction along which slices are stacked: the cross product of the
/// row direction and the column direction.
pub open spec fn slice_direction<T: Field>(o: (T, T, T, T, T, T)) -> (T, T, T) {
    (
        o.1.mul_spec(o.5).sub_spec(o.2.mul_spec(o.4)),
        o.2.mul_spec(o.3).sub_spec(o.0.mul_spec(o.5)),
        o.0.mul_spec(o.4).sub_spec(o.1.mul_spec(o.3)),
    )
}

/// The matrix that scales the three axes by `s`.
pub open spec fn scaling_matrix<T: Field>(s: (T, T, T)) -> Seq<Seq<T>> {
    let z = T::zero_spec();
    let o = T::one_spec();
    unflatten(seq![s.0, z, z, z, z, s.1, z, z, z, z, s.2, z, z, z, z, o])
}

/// The matrix whose first three columns are the row direction, the column
/// direction and the slice direction.
pub open spec fn direction_matrix<T: Field>(o: (T, T, T, T, T, T)) -> Seq<Seq<T>> {
    let z = T::zero_spec();
    let n = slice_direction(o);
    unflatten(seq![o.0, o.3, n.0, z, o.1, o.4, n.1, z, o.2, o.5, n.2, z, z, z, z, T::one_spec()])
}

/// The matrix that translates by `p`.
pub open spec fn translation_matrix<T: Field>(p: (T, T, T)) -> Seq<Seq<T>> {
    let z = T::zero_spec();
    let o = T::one_spec();
    unflatten(seq![o, z, z, p.0, z, o, z, p.1, z, z, o, p.2, z, z, z, o])
}

/// The matrix of a volume's base: direction times translation times scaling.
pub open spec fn volume_matrix<T: Field>(
    orientation: (T, T, T, T, T, T),
    position: (T, T, T),
    spacing: (T, T, T),
) -> Seq<Seq<T>> {
    mat_mul(
        mat_mul(direction_matrix(orientation), translation_matrix(position)),
        scaling_matrix(spacing),
    )
}

/// The slice lacks what places a volume in space: pixel spacing, orientation
/// or position.
pub open spec fn lacks_geometry<T>(img: CTImage<T>) -> bool {
    img.pixel_spacing is None || img.image_orientation_patient is None
        || img.image_position_patient is None
}

/// The volume of the slices `order`, stacked in that order, given what the
/// decoding of each slice returned. The first slice of the order anchors the
/// volume: it gives the grid, the in-plane spacing, the orientation and the
/// origin, and with the second slice the distance between slices. Where it
/// lacks pixel spacing, orientation or position there is no volume, whatever
/// the slices hold. A slice whose decoding failed or does not fill the grid
/// is left out and counted; where none is left there is no volume either.
pub open spec fn assemble_spec<T: Field>(
    images: Seq<CTImage<T>>,
    label: Seq<char>,
    order: Seq<usize>,
    decoded: Seq<Result<Seq<i16>, VolumeError>>,
) -> Result<VolumeModel<T>, VolumeError> {
    let first = images[order[0] as int];
    let kept = kept_upto(images, order, decoded, order.len() as int);
    if lacks_geometry(first) {
        Err(VolumeError::MissingRequiredGeometry)
    } else if kept == 0 {
        Err(VolumeError::MalformedPixelBuffer)
    } else {
        let second = if order.len() > 1 {
            Some(images[order[1] as int])
        } else {
            None
        };
        let spacing = (
            first.pixel_spacing.unwrap().0,
            first.pixel_spacing.unwrap().1,
            slice_gap(first, second),
        );
        Ok(
            VolumeModel {
                rows: first.rows as int,
                columns: first.columns as int,
                slices: kept,
                voxel_spacing: spacing,
                voxel_data: voxels_upto(images, order, decoded, order.len() as int),
                label,
                matrix: volume_matrix(
                    first.image_orientation_patient.unwrap(),
                    first.image_position_patient.unwrap(),
                    spacing,
                ),
                skipped_slices: order.len() - kept,
            },
        )
    }
}

/// What the decoding of each slice returned, as mathematical values.
pub open spec fn results_view(decoded: Seq<Result<Vec<i16>, VolumeError>>) -> Seq<
    Result<Seq<i16>, VolumeError>,
> {
    Seq::new(
        decoded.len(),
        |k: int|
            match decoded[k] {
                Ok(v) => Ok(v@),
                Err(e) => Err(e),
            },
    )
}

/// `decoded` holds a decoding of each slice of `order`.
pub open spec fn decodes<T: Field>(
    images: Seq<CTImage<T>>,
    order: Seq<usize>,
    decoded: Seq<Result<Seq<i16>, VolumeError>>,
) -> bool {
    &&& decoded.len() == order.len()
    &&& forall|k: int|
        0 <= k < order.len() ==> is_pixel_data_of(images[order[k] as int], #[trigger] decoded[k])
}

/// `r` is the volume, or the error, that `m` describes.
pub open spec fn is_volume_of<T>(
    r: Result<CTVolume<T>, VolumeError>,
    m: Result<VolumeModel<T>, VolumeError>,
) -> bool {
    match r {
        Ok(v) => m == Ok::<VolumeModel<T>, VolumeError>(v@),
        Err(e) => m == Err::<VolumeModel<T>, VolumeError>(e),
    }
}

/// `sort_by_z` keeps the number of slices and their range.
pub proof fn lemma_sort_by_z_in_range<T: Field>(images: Seq<CTImage<T>>, order: Seq<usize>, n: int)
    requires
        in_range(order, n),
    ensures
        sort_by_z(images, order).len() == order.len(),
        in_range(sort_by_z(images, order), n),
    decreases order.len(),
{
    if order.len() > 0 {
        lemma_sort_by_z_in_range(images, order.drop_last(), n);
        lemma_insert_by_z_in_range(images, sort_by_z(images, order.drop_last()), order.last(), n);
    }
}

/// `insert_by_z` adds one slice and keeps the range.
pub proof fn lemma_insert_by_z_in_range<T: Field>(
    images: Seq<CTImage<T>>,
    order: Seq<usize>,
    x: usize,
    n: int,
)
    requires
        in_range(order, n),
        x < n,
    ensures
        insert_by_z(images, order, x).len() == order.len() + 1,
        in_range(insert_by_z(images, order, x), n),
    decreases order.len(),
{
    if !(order.len() == 0 || !slice_z_spec(images[x as int]).lt_spec(
        slice_z_spec(images[order.last() as int]),
    )) {
        lemma_insert_by_z_in_range(images, order.drop_last(), x, n);
    }
}

/// The z coordinate by which a slice is ordered.
pub fn slice_z<T: Field>(img: &CTImage<T>) -> (r: T)
    ensures
        r == slice_z_spec(*img),
{
    match img.image_position_patient {
        Some(p) => p.2,
        None => T::zero(),
    }
}

/// The slices `picked` by ascending z; slices that are not strictly ordered
/// keep the order in which they came.
pub fn sort_slices<T: Field>(images: &Table<CTImage<T>>, picked: &Vec<usize>) -> (r: Vec<usize>)
    requires
        in_range(picked@, images@.len() as int),
    ensures
        r@ == sort_by_z(images@, picked@),
        r@.len() == picked@.len(),
        in_range(r@, images@.len() as int),
{
    let mut out: Vec<usize> = Vec::new();
    let mut n: usize = 0;
    while n < picked.len()
        invariant
            n <= picked.len(),
            in_range(picked@, images@.len() as int),
            out@ == sort_by_z(images@, picked@.take(n as int)),
            out@.len() == n,
            in_range(out@, images@.len() as int),
        decreases picked.len() - n,
    {
        let x = picked[n];
        let zx = slice_z(images.row(x));
        let ghost sorted = out@;
        let mut j: usize = n;
        let mut moving = true;
        out.push(x);
        assert(sorted.take(n as int) =~= sorted);
        assert(sorted.skip(n as int) =~= Seq::<usize>::empty());
        assert(insert_by_z(images@, sorted.take(n as int), x) + sorted.skip(n as int)
            =~= insert_by_z(images@, sorted, x));
        while moving && j > 0
            invariant
                j <= n,
                sorted.len() == n,
                out@.len() == n + 1,
                x < images@.len(),
                zx == slice_z_spec(images@[x as int]),
                in_range(sorted, images@.len() as int),
                forall|a: int| 0 <= a < j ==> out@[a] == sorted[a],
                forall|a: int| j < a <= n ==> out@[a] == sorted[a - 1],
                insert_by_z(images@, sorted, x) == insert_by_z(
                    images@,
                    sorted.take(j as int),
                    x,
                ) + sorted.skip(j as int),
                !moving ==> j > 0 && !zx.lt_spec(slice_z_spec(images@[sorted[j - 1] as int])),
            decreases j + if moving { 1int } else { 0int },
        {
            let y = out[j - 1];
            if zx.lt(slice_z(images.row(y))) {
                out[j] = y;
                proof {
                    let head = sorted.take(j as int);
                    assert(head.last() == y);
                    assert(head.drop_last() =~= sorted.take(j - 1));
                    assert(insert_by_z(images@, head, x) == insert_by_z(
                        images@,
                        sorted.take(j - 1),
                        x,
                    ).push(y));
                    assert(insert_by_z(images@, sorted.take(j - 1), x).push(y) + sorted.skip(
                        j as int,
                    ) =~= insert_by_z(images@, sorted.take(j - 1), x) + sorted.skip(j - 1));
                }
                j -= 1;
            } else {
                moving = false;
            }
        }
        out[j] = x;
        proof {
            let head = sorted.take(j as int);
            if j > 0 {
                assert(head.last() == sorted[j - 1]);
            }
            assert(insert_by_z(images@, head, x) == head.push(x));
            assert(out@ =~= head.push(x) + sorted.skip(j as int));
            let prefix = picked@.take(n + 1);
            assert(prefix.drop_last() =~= picked@.take(n as int));
            assert(prefix.last() == x);
            lemma_insert_by_z_in_range(images@, sorted, x, images@.len() as int);
        }
        n += 1;
    }
    assert(picked@.take(n as int) =~= picked@);
    out
}

/// Whether every slice of `order` has the rows and columns of the first.
pub fn same_grid<T: Field>(images: &Table<CTImage<T>>, order: &Vec<usize>) -> (r: bool)
    requires
        in_range(order@, images@.len() as int),
    ensures
        r == same_grid_spec(images@, order@),
{
    if order.len() == 0 {
        return true;
    }
    let rows = images.row(order[0]).rows;
    let columns = images.row(order[0]).columns;
    let mut k: usize = 0;
    while k < order.len()
        invariant
            k <= order.len(),
            order.len() > 0,
            in_range(order@, images@.len() as int),
            rows == images@[order@[0] as int].rows,
            columns == images@[order@[0] as int].columns,
            forall|a: int|
                0 <= a < k ==> {
                    &&& images@[(#[trigger] order@[a]) as int].rows == rows
                    &&& images@[order@[a] as int].columns == columns
                },
        decreases order.len() - k,
    {
        let img = images.row(order[k]);
        if img.rows != rows || img.columns != columns {
            return false;
        }
        k += 1;
    }
    true
}

/// The decoding of each slice of `order`, in that order.
pub fn decode_slices<T: Field>(images: &Table<CTImage<T>>, order: &Vec<usize>) -> (r: Vec<
    Result<Vec<i16>, VolumeError>,
>)
    requires
        in_range(order@, images@.len() as int),
    ensures
        decodes(images@, order@, results_view(r@)),
{
    let mut out: Vec<Result<Vec<i16>, VolumeError>> = Vec::new();
    let mut k: usize = 0;
    while k < order.len()
        invariant
            k <= order.len(),
            out.len() == k,
            in_range(order@, images@.len() as int),
            forall|a: int|
                0 <= a < k ==> is_pixel_data_of(
                    images@[order@[a] as int],
                    #[trigger] results_view(out@)[a],
                ),
        decreases order.len() - k,
    {
        let d = images.row(order[k]).get_pixel_data();
        let ghost before = out@;
        out.push(d);
        assert forall|a: int| 0 <= a < k + 1 implies is_pixel_data_of(
            images@[order@[a] as int],
            #[trigger] results_view(out@)[a],
        ) by {
            if a < k {
                assert(results_view(out@)[a] == results_view(before)[a]);
            }
        }
        k += 1;
    }
    out
}

/// The distance between slices, from the first slice and, where there is
/// one, the second.
pub fn slice_spacing<T: Field>(first: &CTImage<T>, second: Option<&CTImage<T>>) -> (r: T)
    ensures
        r == slice_gap(
            *first,
            match second {
                Some(b) => Some(*b),
                None => None,
            },
        ),
{
    match first.spacing_between_slices {
        Some(s) => s,
        None => match second {
            Some(b) => {
                let zb = match b.image_position_patient {
                    Some(p) => p.2,
                    None => T::one(),
                };
                let gap = zb.sub(slice_z(first)).abs();
                if T::zero().lt(gap) {
                    gap
                } else {
                    T::one()
                }
            },
            None => T::one(),
        },
    }
}

/// The matrix of a volume's base: direction times translation times scaling.
pub fn volume_base<T: Field>(
    orientation: (T, T, T, T, T, T),
    position: (T, T, T),
    spacing: (T, T, T),
) -> (r: Matrix4x4<T>)
    ensures
        r@ == volume_matrix(orientation, position, spacing),
{
    let z = T::zero();
    let o = T::one();
    let row_direction = (orientation.0, orientation.1, orientation.2);
    let column_direction = (orientation.3, orientation.4, orientation.5);
    let slice_direction = (
        row_direction.1.mul(column_direction.2).sub(row_direction.2.mul(column_direction.1)),
        row_direction.2.mul(column_direction.0).sub(row_direction.0.mul(column_direction.2)),
        row_direction.0.mul(column_direction.1).sub(row_direction.1.mul(column_direction.0)),
    );
    let scaling = Matrix4x4::from_array(
        [spacing.0, z, z, z, z, spacing.1, z, z, z, z, spacing.2, z, z, z, z, o],
    );
    let direction = Matrix4x4::from_array(
        [
            row_direction.0,
            column_direction.0,
            slice_direction.0,
            z,
            row_direction.1,
            column_direction.1,
            slice_direction.1,
            z,
            row_direction.2,
            column_direction.2,
            slice_direction.2,
            z,
            z,
            z,
            z,
            o,
        ],
    );
    let translation = Matrix4x4::from_array(
        [o, z, z, position.0, z, o, z, position.1, z, z, o, position.2, z, z, z, o],
    );
    proof {
        assert(scaling@ =~~= scaling_matrix(spacing));
        assert(direction@ =~~= direction_matrix(orientation));
        assert(translation@ =~~= translation_matrix(position));
    }
    direction.multiply(&translation).multiply(&scaling)
}

/// The volume of the slices `order`, stacked in that order, given what the
/// decoding of each slice returned. The first slice of the order anchors the
/// volume; slices that were not decoded or do not fill the grid are left out
/// and counted.
pub fn assemble<T: Field>(
    images: &Table<CTImage<T>>,
    label: String,
    order: &Vec<usize>,
    decoded: &Vec<Result<Vec<i16>, VolumeError>>,
) -> (r: Result<CTVolume<T>, VolumeError>)
    requires
        order@.len() > 0,
        in_range(order@, images@.len() as int),
        same_grid_spec(images@, order@),
        decoded@.len() == order@.len(),
    ensures
        is_volume_of(r, assemble_spec(images@, label@, order@, results_view(decoded@))),
        r is Ok ==> r.unwrap().wf(),
{
    let ghost results = results_view(decoded@);
    let first = images.row(order[0]);
    let pixel_spacing = match first.pixel_spacing {
        Some(s) => s,
        None => {
            return Err(VolumeError::MissingRequiredGeometry);
        },
    };
    let orientation = match first.image_orientation_patient {
        Some(o) => o,
        None => {
            return Err(VolumeError::MissingRequiredGeometry);
        },
    };
    let position = match first.image_position_patient {
        Some(p) => p,
        None => {
            return Err(VolumeError::MissingRequiredGeometry);
        },
    };
    let rows = first.rows;
    let columns = first.columns;
    assert(rows as int * columns as int <= 65535 * 65535) by (nonlinear_arith)
        requires
            rows <= 65535,
            columns <= 65535,
    ;
    let cells: usize = rows as usize * columns as usize;
    let mut kept: usize = 0;
    let mut voxel_data: Vec<i16> = Vec::new();
    let mut k: usize = 0;
    while k < order.len()
        invariant
            k <= order.len(),
            order@.len() > 0,
            decoded@.len() == order@.len(),
            results == results_view(decoded@),
            in_range(order@, images@.len() as int),
            same_grid_spec(images@, order@),
            rows == images@[order@[0] as int].rows,
            columns == images@[order@[0] as int].columns,
            cells == rows as int * columns as int,
            kept == kept_upto(images@, order@, results, k as int),
            voxel_data@ == voxels_upto(images@, order@, results, k as int),
            kept <= k,
            voxel_data@.len() == cells * kept,
        decreases order.len() - k,
    {
        match &decoded[k] {
            Ok(samples) => {
                if samples.len() == cells {
                    append_samples(&mut voxel_data, samples);
                    assert(cells * (kept + 1) == cells * kept + cells) by (nonlinear_arith);
                    kept += 1;
                }
            },
            Err(_) => {},
        }
        k += 1;
    }
    if kept == 0 {
        return Err(VolumeError::MalformedPixelBuffer);
    }
    let second = if order.len() > 1 {
        Some(images.row(order[1]))
    } else {
        None
    };
    let voxel_spacing = (pixel_spacing.0, pixel_spacing.1, slice_spacing(first, second));
    let matrix = volume_base(orientation, position, voxel_spacing);
    let volume = CTVolume {
        dimensions: (rows as usize, columns as usize, kept),
        voxel_spacing,
        voxel_data,
        base: Base { label, matrix },
        skipped_slices: order.len() - kept,
    };
    assert(volume.wf()) by {
        assert(cells * kept == rows as int * columns as int * kept) by (nonlinear_arith)
            requires
                cells == rows as int * columns as int,
        ;
    }
    Ok(volume)
}

/// Adds the samples `src` behind those of `dst`.
fn append_samples(dst: &mut Vec<i16>, src: &Vec<i16>)
    ensures
        final(dst)@ == old(dst)@ + src@,
{
    let mut k: usize = 0;
    while k < src.len()
        invariant
            k <= src.len(),
            dst@ == old(dst)@ + src@.take(k as int),
        decreases src.len() - k,
    {
        dst.push(src[k]);
        assert(dst@ =~= old(dst)@ + src@.take(k + 1));
        k += 1;
    }
    assert(src@.take(k as int) =~= src@);
}

} // verus!
