//! The assembled volume.

use crate::coord::{Base, Matrix4x4};
use crate::dicom::ct_image::is_native_reading;
use crate::error::VolumeError;
use crate::field::Field;
use vstd::prelude::*;

verus! {

/// What a volume holds, as mathematical values.
pub struct VolumeModel<T> {
    /// Rows of each slice.
    pub rows: int,
    /// Columns of each slice.
    pub columns: int,
    /// Number of slices.
    pub slices: int,
    /// Physical size of a voxel along rows, columns and slices.
    pub voxel_spacing: (T, T, T),
    /// The samples, slice after slice, each slice row after row.
    pub voxel_data: Seq<i16>,
    /// The label of the volume's base.
    pub label: Seq<char>,
    /// The matrix of the volume's base.
    pub matrix: Seq<Seq<T>>,
    /// Number of slices of the series that were left out.
    pub skipped_slices: int,
}

/// A CT volume: a grid of samples, and the base that places the grid in
/// patient space.
#[derive(Debug)]
pub struct CTVolume<T> {
    /// Rows, columns, number of slices.
    pub dimensions: (usize, usize, usize),
    /// Physical size of a voxel along rows, columns and slices.
    pub voxel_spacing: (T, T, T),
    /// The samples, slice after slice, each slice row after row.
    pub voxel_data: Vec<i16>,
    /// The base that takes voxel indices to patient space.
    pub base: Base<T>,
    /// Number of slices of the series that could not be decoded and were
    /// left out of the volume.
    pub skipped_slices: usize,
}

impl<T> View for CTVolume<T> {
    type V = VolumeModel<T>;

    open spec fn view(&self) -> VolumeModel<T> {
        VolumeModel {
            rows: self.dimensions.0 as int,
            columns: self.dimensions.1 as int,
            slices: self.dimensions.2 as int,
            voxel_spacing: self.voxel_spacing,
            voxel_data: self.voxel_data@,
            label: self.base.label@,
            matrix: self.base.matrix@,
            skipped_slices: self.skipped_slices as int,
        }
    }
}

impl<T: Copy> Clone for CTVolume<T> {
    fn clone(&self) -> (r: Self)
        ensures
            r@ == self@,
    {
        CTVolume {
            dimensions: self.dimensions,
            voxel_spacing: self.voxel_spacing,
            voxel_data: self.voxel_data.clone(),
            base: Base { label: self.base.label.clone(), matrix: self.base.matrix },
            skipped_slices: self.skipped_slices,
        }
    }
}

/// The word that a texture holds for a sample: the sample raised by
/// `TEXTURE_OFFSET`, as sixteen unsigned bits; what does not fit wraps around.
pub open spec fn texture_word(sample: i16) -> u16 {
    ((sample as int + TEXTURE_OFFSET as int + 65536) % 65536) as u16
}

/// By how much samples are raised before they are stored as unsigned words:
/// it brings the Hounsfield scale, which starts near -1000, to zero.
pub const TEXTURE_OFFSET: i32 = 1000;

/// The words that a texture holds for a run of samples.
pub open spec fn texture_words_of(samples: Seq<i16>) -> Seq<u16> {
    Seq::new(samples.len(), |k: int| texture_word(samples[k]))
}

/// `bytemuck::cast_slice`, from sixteen-bit words to bytes: the bytes that
/// hold the words in memory, two for each word, in the machine's byte order.
/// A cast to bytes can fail neither for alignment nor for length. Which byte
/// of a word comes first depends on the machine, so the contract allows both
/// orders.
#[verifier::external_body]
fn words_as_bytes(words: &[u16]) -> (r: Vec<u8>)
    ensures
        is_native_reading(r@, words@),
{
    bytemuck::cast_slice::<u16, u8>(words).to_vec()
}

impl<T> CTVolume<T> {
    /// The samples as the bytes of a texture: for each sample its word, in
    /// the machine's byte order.
    pub fn texture_bytes(&self) -> (r: Vec<u8>)
        ensures
            is_native_reading(r@, texture_words_of(self.voxel_data@)),
    {
        let words = self.texture_words();
        assert(words@ =~= texture_words_of(self.voxel_data@));
        words_as_bytes(words.as_slice())
    }

    /// The samples as a texture holds them: one unsigned word for each.
    pub fn texture_words(&self) -> (r: Vec<u16>)
        ensures
            r@ == texture_words_of(self.voxel_data@),
    {
        let mut out: Vec<u16> = Vec::new();
        let mut k: usize = 0;
        while k < self.voxel_data.len()
            invariant
                k <= self.voxel_data.len(),
                out@.len() == k,
                forall|a: int| 0 <= a < k ==> out@[a] == texture_word(self.voxel_data@[a]),
            decreases self.voxel_data.len() - k,
        {
            let raised: i32 = (self.voxel_data[k] as i32 + TEXTURE_OFFSET + 65536) % 65536;
            out.push(raised as u16);
            k += 1;
        }
        assert(out@ =~= texture_words_of(self.voxel_data@));
        out
    }

    /// The volume's invariant: one sample for each cell of the grid.
    pub open spec fn wf(&self) -> bool {
        self.voxel_data@.len() == self.dimensions.0 * self.dimensions.1 * self.dimensions.2
    }
}

/// Something that can assemble the volume of an image series.
pub trait CTVolumeGenerator<T: Field> {
    /// The volume of the series `image_series_id`.
    fn generate_ct_volume(&self, image_series_id: &str) -> (r: Result<CTVolume<T>, VolumeError>)
        ensures
            r is Ok ==> r.unwrap().wf(),
    ;
}

/// Volumes that share one frame of reference.
pub struct Geometry<T> {
    pub volumes: Vec<CTVolume<T>>,
    pub base: Matrix4x4<T>,
}

} // verus!
