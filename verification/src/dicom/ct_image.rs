//! One CT slice, and the decoding of its pixel buffer.

use crate::dicom::dicom::{bytes_of, number_of, parsed_texts, text_of, DicomObject};
use crate::dicom::table::{Child, Record};
use crate::dicom::tags::{
    optional_view, pair, pair_of, sextuple, sextuple_of, triple, triple_of, values_of,
    RecordError, Tag,
};
use crate::error::VolumeError;
use crate::field::Field;
use vstd::prelude::*;

verus! {

/// One slice of a CT series: its grid, its place in patient space, and its
/// raw pixel buffer of two bytes per sample.
#[derive(Clone, Debug)]
pub struct CTImage<T> {
    /// SOP instance UID (0008,0018).
    pub uid: String,
    /// Series instance UID (0020,000E).
    pub series_uid: String,
    /// Rows (0028,0010).
    pub rows: u16,
    /// Columns (0028,0011).
    pub columns: u16,
    /// Pixel spacing (0028,0030): row spacing, column spacing.
    pub pixel_spacing: Option<(T, T)>,
    /// Slice thickness (0018,0050).
    pub slice_thickness: Option<T>,
    /// Spacing between slices (0018,0088).
    pub spacing_between_slices: Option<T>,
    /// Image position patient (0020,0032).
    pub image_position_patient: Option<(T, T, T)>,
    /// Image orientation patient (0020,0037): row direction, then column
    /// direction.
    pub image_orientation_patient: Option<(T, T, T, T, T, T)>,
    /// Rescale slope (0028,1053).
    pub rescale_slope: Option<T>,
    /// Rescale intercept (0028,1052).
    pub rescale_intercept: Option<T>,
    /// Window center (0028,1050).
    pub window_center: Option<T>,
    /// Window width (0028,1051).
    pub window_width: Option<T>,
    /// Pixel representation (0028,0103): 0 unsigned, 1 signed.
    pub pixel_representation: u16,
    /// Pixel data (7FE0,0010).
    pub pixel_data: Vec<u8>,
}

impl<T> Record for CTImage<T> {
    open spec fn key_spec(&self) -> Seq<char> {
        self.uid@
    }

    fn key(&self) -> (r: &String) {
        &self.uid
    }
}

impl<T> Child for CTImage<T> {
    open spec fn parent_spec(&self) -> Seq<char> {
        self.series_uid@
    }

    fn parent(&self) -> (r: &String) {
        &self.series_uid
    }
}

/// The 16-bit word whose low byte is `b0` and whose high byte is `b1`.
pub open spec fn word_le(b0: u8, b1: u8) -> u16 {
    (b0 as int + 256 * (b1 as int)) as u16
}

/// The 16-bit word whose high byte is `b0` and whose low byte is `b1`.
pub open spec fn word_be(b0: u8, b1: u8) -> u16 {
    word_le(b1, b0)
}

/// `words` is `bytes` read two bytes at a time, each pair in one of the two
/// byte orders.
pub open spec fn is_native_reading(bytes: Seq<u8>, words: Seq<u16>) -> bool {
    &&& bytes.len() == 2 * words.len()
    &&& forall|k: int|
        0 <= k < words.len() ==> {
            ||| #[trigger] words[k] == word_le(bytes[2 * k], bytes[2 * k + 1])
            ||| words[k] == word_be(bytes[2 * k], bytes[2 * k + 1])
        }
}

/// The number that a stored word stands for: the word itself where samples
/// are unsigned (representation 0), its two's complement reading otherwise.
pub open spec fn raw_value(word: u16, representation: u16) -> int {
    if representation == 0 || word < 32768 {
        word as int
    } else {
        word as int - 65536
    }
}

/// `v` where it fits in sixteen signed bits, else the nearest bound.
pub open spec fn saturate_i16(v: int) -> i16 {
    if v < -32768 {
        -32768i16
    } else if v > 32767 {
        32767i16
    } else {
        v as i16
    }
}

/// The slope of a slice: 1 where none is given.
pub open spec fn slope_or_one<T: Field>(slope: Option<T>) -> T {
    match slope {
        Some(s) => s,
        None => T::one_spec(),
    }
}

/// The intercept of a slice: 0 where none is given.
pub open spec fn intercept_or_zero<T: Field>(intercept: Option<T>) -> T {
    match intercept {
        Some(s) => s,
        None => T::zero_spec(),
    }
}

/// The sample that a stored word decodes to: `raw * slope + intercept`,
/// rounded to the nearest integer and saturated to sixteen signed bits.
pub open spec fn sample_spec<T: Field>(
    word: u16,
    representation: u16,
    slope: T,
    intercept: T,
) -> i16 {
    saturate_i16(rescaled(word, representation, slope, intercept))
}

/// The value that a stored word is rescaled to, rounded to the nearest
/// integer.
pub open spec fn rescaled<T: Field>(word: u16, representation: u16, slope: T, intercept: T) -> int {
    T::from_i32_spec(raw_value(word, representation) as i32).mul_spec(slope).add_spec(
        intercept,
    ).round_spec() as int
}

/// No sample wraps around: a rescaled value above the range of sixteen
/// signed bits decodes to the upper bound, one below it to the lower bound,
/// and one within it to itself.
pub proof fn lemma_sample_saturates<T: Field>(
    word: u16,
    representation: u16,
    slope: T,
    intercept: T,
)
    ensures
        rescaled(word, representation, slope, intercept) > 32767 ==> sample_spec(
            word,
            representation,
            slope,
            intercept,
        ) == 32767,
        rescaled(word, representation, slope, intercept) < -32768 ==> sample_spec(
            word,
            representation,
            slope,
            intercept,
        ) == -32768,
        -32768 <= rescaled(word, representation, slope, intercept) <= 32767 ==> sample_spec(
            word,
            representation,
            slope,
            intercept,
        ) == rescaled(word, representation, slope, intercept),
        representation == 0 ==> raw_value(word, representation) == word,
{
}

/// The samples that `words` decode to, one for each word, in order.
pub open spec fn samples_spec<T: Field>(
    words: Seq<u16>,
    representation: u16,
    slope: Option<T>,
    intercept: Option<T>,
) -> Seq<i16> {
    Seq::new(
        words.len(),
        |k: int|
            sample_spec(words[k], representation, slope_or_one(slope), intercept_or_zero(intercept)),
    )
}

/// Whether a pixel buffer can be decoded: an even number of bytes, and a
/// pixel representation of 0 or 1.
pub open spec fn decodable(bytes: Seq<u8>, representation: u16) -> bool {
    bytes.len() % 2 == 0 && representation <= 1
}

/// `r` is a decoding of the slice `img`: the one error where the buffer
/// cannot be decoded, else the samples of a reading of its bytes.
pub open spec fn is_pixel_data_of<T: Field>(
    img: CTImage<T>,
    r: Result<Seq<i16>, VolumeError>,
) -> bool {
    match r {
        Ok(samples) => {
            &&& decodable(img.pixel_data@, img.pixel_representation)
            &&& exists|words: Seq<u16>|
                {
                    &&& #[trigger] is_native_reading(img.pixel_data@, words)
                    &&& samples == samples_spec(
                        words,
                        img.pixel_representation,
                        img.rescale_slope,
                        img.rescale_intercept,
                    )
                }
        },
        Err(e) => {
            &&& !decodable(img.pixel_data@, img.pixel_representation)
            &&& e == VolumeError::MalformedPixelBuffer
        },
    }
}

/// `u16::from_ne_bytes`: the word that the machine reads from two bytes in
/// memory order. Which byte is the low one depends on the machine, so the
/// contract allows both orders.
#[verifier::external_body]
fn native_word(b0: u8, b1: u8) -> (w: u16)
    ensures
        w == word_le(b0, b1) || w == word_be(b0, b1),
{
    u16::from_ne_bytes([b0, b1])
}

/// The words of `bytes`, two bytes each, in the machine's byte order.
pub fn read_words(bytes: &Vec<u8>) -> (words: Vec<u16>)
    requires
        bytes.len() % 2 == 0,
    ensures
        is_native_reading(bytes@, words@),
{
    let n = bytes.len() / 2;
    let mut words: Vec<u16> = Vec::new();
    let mut k: usize = 0;
    while k < n
        invariant
            k <= n,
            bytes.len() == 2 * n,
            words.len() == k,
            forall|a: int|
                0 <= a < k ==> {
                    ||| #[trigger] words[a] == word_le(bytes[2 * a], bytes[2 * a + 1])
                    ||| words[a] == word_be(bytes[2 * a], bytes[2 * a + 1])
                },
        decreases n - k,
    {
        let w = native_word(bytes[2 * k], bytes[2 * k + 1]);
        words.push(w);
        k += 1;
    }
    words
}

/// The sample that one stored word decodes to.
pub fn decode_sample<T: Field>(word: u16, representation: u16, slope: T, intercept: T) -> (r: i16)
    ensures
        r == sample_spec(word, representation, slope, intercept),
{
    let raw: i32 = if representation == 0 || word < 32768 {
        word as i32
    } else {
        word as i32 - 65536
    };
    let rounded: i64 = T::from_i32(raw).mul(slope).add(intercept).round();
    if rounded < -32768 {
        -32768i16
    } else if rounded > 32767 {
        32767i16
    } else {
        rounded as i16
    }
}

/// The samples that `words` decode to, one for each word, in order.
pub fn decode_words<T: Field>(
    words: &Vec<u16>,
    representation: u16,
    slope: Option<T>,
    intercept: Option<T>,
) -> (r: Vec<i16>)
    ensures
        r@ == samples_spec(words@, representation, slope, intercept),
{
    let s = match slope {
        Some(s) => s,
        None => T::one(),
    };
    let c = match intercept {
        Some(c) => c,
        None => T::zero(),
    };
    let mut out: Vec<i16> = Vec::new();
    let mut k: usize = 0;
    while k < words.len()
        invariant
            k <= words.len(),
            out.len() == k,
            s == slope_or_one(slope),
            c == intercept_or_zero(intercept),
            forall|a: int| 0 <= a < k ==> out[a] == sample_spec(words[a], representation, s, c),
        decreases words.len() - k,
    {
        out.push(decode_sample(words[k], representation, s, c));
        k += 1;
    }
    assert(out@ =~= samples_spec(words@, representation, slope, intercept));
    out
}

/// What a slice holds, as mathematical values.
pub struct SliceModel<T> {
    pub uid: Seq<char>,
    pub series_uid: Seq<char>,
    pub rows: u16,
    pub columns: u16,
    pub pixel_spacing: Option<(T, T)>,
    pub slice_thickness: Option<T>,
    pub spacing_between_slices: Option<T>,
    pub image_position_patient: Option<(T, T, T)>,
    pub image_orientation_patient: Option<(T, T, T, T, T, T)>,
    pub rescale_slope: Option<T>,
    pub rescale_intercept: Option<T>,
    pub window_center: Option<T>,
    pub window_width: Option<T>,
    pub pixel_representation: u16,
    pub pixel_data: Seq<u8>,
}

impl<T> View for CTImage<T> {
    type V = SliceModel<T>;

    open spec fn view(&self) -> SliceModel<T> {
        SliceModel {
            uid: self.uid@,
            series_uid: self.series_uid@,
            rows: self.rows,
            columns: self.columns,
            pixel_spacing: self.pixel_spacing,
            slice_thickness: self.slice_thickness,
            spacing_between_slices: self.spacing_between_slices,
            image_position_patient: self.image_position_patient,
            image_orientation_patient: self.image_orientation_patient,
            rescale_slope: self.rescale_slope,
            rescale_intercept: self.rescale_intercept,
            window_center: self.window_center,
            window_width: self.window_width,
            pixel_representation: self.pixel_representation,
            pixel_data: self.pixel_data@,
        }
    }
}

/// What a scalar's reading made of the decimal tags of a file.
pub struct SliceScalars<T> {
    pub pixel_spacing: Option<Seq<T>>,
    pub slice_thickness: Option<T>,
    pub spacing_between_slices: Option<T>,
    pub image_position_patient: Option<Seq<T>>,
    pub image_orientation_patient: Option<Seq<T>>,
    pub rescale_slope: Option<T>,
    pub rescale_intercept: Option<T>,
    pub window_center: Option<T>,
    pub window_width: Option<T>,
}

/// `scalar` may have been read from the tag: a tag without text gives none.
pub open spec fn may_be_one<T>(
    texts: Map<Seq<char>, Option<Seq<char>>>,
    tag: Seq<char>,
    scalar: Option<T>,
) -> bool {
    text_of(texts, tag) is None ==> scalar is None
}

/// `scalars` may have been read from the tag: there are scalars, if none at
/// all, exactly where the tag has a text, and at most as many as the text
/// has values.
pub open spec fn may_be_many<T>(
    texts: Map<Seq<char>, Option<Seq<char>>>,
    tag: Seq<char>,
    scalars: Option<Seq<T>>,
) -> bool {
    match scalars {
        Some(read) => text_of(texts, tag) is Some && read.len() <= values_of(
            text_of(texts, tag).unwrap(),
        ).len(),
        None => text_of(texts, tag) is None,
    }
}

/// `scalars` may be what a scalar's reading made of the decimal tags of a
/// file with the texts `texts`.
pub open spec fn may_be_read<T>(
    texts: Map<Seq<char>, Option<Seq<char>>>,
    scalars: SliceScalars<T>,
) -> bool {
    &&& may_be_many(texts, "PixelSpacing"@, scalars.pixel_spacing)
    &&& may_be_one(texts, "SliceThickness"@, scalars.slice_thickness)
    &&& may_be_one(texts, "SpacingBetweenSlices"@, scalars.spacing_between_slices)
    &&& may_be_many(texts, "ImagePositionPatient"@, scalars.image_position_patient)
    &&& may_be_many(texts, "ImageOrientationPatient"@, scalars.image_orientation_patient)
    &&& may_be_one(texts, "RescaleSlope"@, scalars.rescale_slope)
    &&& may_be_one(texts, "RescaleIntercept"@, scalars.rescale_intercept)
    &&& may_be_one(texts, "WindowCenter"@, scalars.window_center)
    &&& may_be_one(texts, "WindowWidth"@, scalars.window_width)
}

/// The slice that a file describes, given the texts that the file holds,
/// what the scalar's reading made of its decimal tags, and the bytes of its
/// pixel data. Rows, columns and pixel representation are unsigned decimal
/// numbers; pixel spacing, position and orientation are taken where two,
/// three and six scalars were read.
pub open spec fn slice_in<T>(
    texts: Map<Seq<char>, Option<Seq<char>>>,
    scalars: SliceScalars<T>,
    pixel_data: Option<Seq<u8>>,
) -> Result<SliceModel<T>, RecordError> {
    if text_of(texts, "SOPInstanceUID"@) is None {
        Err(RecordError::Missing(Tag::SOPInstanceUID))
    } else if text_of(texts, "SeriesInstanceUID"@) is None {
        Err(RecordError::Missing(Tag::SeriesInstanceUID))
    } else if number_of(texts, "Rows"@) is None {
        Err(RecordError::Missing(Tag::Rows))
    } else if number_of(texts, "Columns"@) is None {
        Err(RecordError::Missing(Tag::Columns))
    } else if number_of(texts, "PixelRepresentation"@) is None {
        Err(RecordError::Missing(Tag::PixelRepresentation))
    } else if pixel_data is None {
        Err(RecordError::Missing(Tag::PixelData))
    } else {
        Ok(
            SliceModel {
                uid: text_of(texts, "SOPInstanceUID"@).unwrap(),
                series_uid: text_of(texts, "SeriesInstanceUID"@).unwrap(),
                rows: number_of(texts, "Rows"@).unwrap(),
                columns: number_of(texts, "Columns"@).unwrap(),
                pixel_spacing: pair_of(scalars.pixel_spacing),
                slice_thickness: scalars.slice_thickness,
                spacing_between_slices: scalars.spacing_between_slices,
                image_position_patient: triple_of(scalars.image_position_patient),
                image_orientation_patient: sextuple_of(scalars.image_orientation_patient),
                rescale_slope: scalars.rescale_slope,
                rescale_intercept: scalars.rescale_intercept,
                window_center: scalars.window_center,
                window_width: scalars.window_width,
                pixel_representation: number_of(texts, "PixelRepresentation"@).unwrap(),
                pixel_data: pixel_data.unwrap(),
            },
        )
    }
}

/// `r` is the slice, or the error, of a file with the texts `texts` and the
/// pixel data `pixel_data`, the decimal tags read as `scalars`.
pub open spec fn reads_slice<T>(
    texts: Map<Seq<char>, Option<Seq<char>>>,
    scalars: SliceScalars<T>,
    pixel_data: Option<Seq<u8>>,
    r: Result<CTImage<T>, RecordError>,
) -> bool {
    may_be_read(texts, scalars) && is_slice(r, slice_in(texts, scalars, pixel_data))
}

/// `r` is the slice, or the error, of a file with the texts `texts` and the
/// pixel data `pixel_data`, whatever the scalar's reading made of its
/// decimal tags.
pub open spec fn is_slice_of<T>(
    texts: Map<Seq<char>, Option<Seq<char>>>,
    pixel_data: Option<Seq<u8>>,
    r: Result<CTImage<T>, RecordError>,
) -> bool {
    exists|scalars: SliceScalars<T>| reads_slice(texts, scalars, pixel_data, r)
}

/// `r` is the slice, or the error, of a file with the texts `texts` and the
/// pixel data `pixel_data`, which it has exactly where it has a text for
/// them.
pub open spec fn reads_pixels<T>(
    texts: Map<Seq<char>, Option<Seq<char>>>,
    pixel_data: Option<Seq<u8>>,
    r: Result<CTImage<T>, RecordError>,
) -> bool {
    (pixel_data is Some <==> text_of(texts, "PixelData"@) is Some) && is_slice_of(
        texts,
        pixel_data,
        r,
    )
}

/// `r` is the slice, or the error, that the bytes of a file describe:
/// `Unreadable` where the bytes cannot be parsed, else the slice of the
/// file's texts. The bytes of the pixel data are left open: they come in the
/// byte order of the machine.
pub open spec fn is_slice_of_file<T>(bytes: Seq<u8>, r: Result<CTImage<T>, RecordError>) -> bool {
    match parsed_texts(bytes) {
        Some(texts) => exists|pixel_data: Option<Seq<u8>>| reads_pixels(texts, pixel_data, r),
        None => r is Err && r->Err_0 == RecordError::Unreadable,
    }
}

/// `r` is the slice, or the error, that `m` describes.
pub open spec fn is_slice<T>(
    r: Result<CTImage<T>, RecordError>,
    m: Result<SliceModel<T>, RecordError>,
) -> bool {
    match r {
        Ok(p) => m == Ok::<SliceModel<T>, RecordError>(p@),
        Err(e) => m == Err::<SliceModel<T>, RecordError>(e),
    }
}

/// What a file's tags say of one slice. Decimal tags come as the values
/// that could be read from them, in order.
pub struct SliceTags<T> {
    pub uid: Option<String>,
    pub series_uid: Option<String>,
    pub rows: Option<u16>,
    pub columns: Option<u16>,
    pub pixel_spacing: Option<Vec<T>>,
    pub slice_thickness: Option<T>,
    pub spacing_between_slices: Option<T>,
    pub image_position_patient: Option<Vec<T>>,
    pub image_orientation_patient: Option<Vec<T>>,
    pub rescale_slope: Option<T>,
    pub rescale_intercept: Option<T>,
    pub window_center: Option<T>,
    pub window_width: Option<T>,
    pub pixel_representation: Option<u16>,
    pub pixel_data: Option<Vec<u8>>,
}

/// The slice that the values of a file's tags describe. It needs a SOP
/// instance UID, a series instance UID, rows, columns, a pixel
/// representation and pixel data. Pixel spacing, position and orientation
/// are taken only where exactly two, three and six values were read.
pub open spec fn slice_of<T>(tags: SliceTags<T>) -> Result<CTImage<T>, RecordError> {
    if tags.uid is None {
        Err(RecordError::Missing(Tag::SOPInstanceUID))
    } else if tags.series_uid is None {
        Err(RecordError::Missing(Tag::SeriesInstanceUID))
    } else if tags.rows is None {
        Err(RecordError::Missing(Tag::Rows))
    } else if tags.columns is None {
        Err(RecordError::Missing(Tag::Columns))
    } else if tags.pixel_representation is None {
        Err(RecordError::Missing(Tag::PixelRepresentation))
    } else if tags.pixel_data is None {
        Err(RecordError::Missing(Tag::PixelData))
    } else {
        Ok(
            CTImage {
                uid: tags.uid.unwrap(),
                series_uid: tags.series_uid.unwrap(),
                rows: tags.rows.unwrap(),
                columns: tags.columns.unwrap(),
                pixel_spacing: pair_of(optional_view(tags.pixel_spacing)),
                slice_thickness: tags.slice_thickness,
                spacing_between_slices: tags.spacing_between_slices,
                image_position_patient: triple_of(optional_view(tags.image_position_patient)),
                image_orientation_patient: sextuple_of(
                    optional_view(tags.image_orientation_patient),
                ),
                rescale_slope: tags.rescale_slope,
                rescale_intercept: tags.rescale_intercept,
                window_center: tags.window_center,
                window_width: tags.window_width,
                pixel_representation: tags.pixel_representation.unwrap(),
                pixel_data: tags.pixel_data.unwrap(),
            },
        )
    }
}

impl<T: Field> CTImage<T> {
    /// The slice that a parsed file describes.
    pub fn from_object(obj: &DicomObject) -> (r: Result<CTImage<T>, RecordError>)
        ensures
            reads_pixels(obj.texts(), bytes_of(obj.elements(), "PixelData"@), r),
    {
        let tags = SliceTags {
            uid: obj.text("SOPInstanceUID"),
            series_uid: obj.text("SeriesInstanceUID"),
            rows: obj.number("Rows"),
            columns: obj.number("Columns"),
            pixel_spacing: obj.scalars("PixelSpacing"),
            slice_thickness: obj.scalar("SliceThickness"),
            spacing_between_slices: obj.scalar("SpacingBetweenSlices"),
            image_position_patient: obj.scalars("ImagePositionPatient"),
            image_orientation_patient: obj.scalars("ImageOrientationPatient"),
            rescale_slope: obj.scalar("RescaleSlope"),
            rescale_intercept: obj.scalar("RescaleIntercept"),
            window_center: obj.scalar("WindowCenter"),
            window_width: obj.scalar("WindowWidth"),
            pixel_representation: obj.number("PixelRepresentation"),
            pixel_data: obj.bytes("PixelData"),
        };
        let ghost scalars = SliceScalars {
            pixel_spacing: optional_view(tags.pixel_spacing),
            slice_thickness: tags.slice_thickness,
            spacing_between_slices: tags.spacing_between_slices,
            image_position_patient: optional_view(tags.image_position_patient),
            image_orientation_patient: optional_view(tags.image_orientation_patient),
            rescale_slope: tags.rescale_slope,
            rescale_intercept: tags.rescale_intercept,
            window_center: tags.window_center,
            window_width: tags.window_width,
        };
        let r = CTImage::from_tags(tags);
        assert(reads_slice(
            obj.texts(),
            scalars,
            bytes_of(obj.elements(), "PixelData"@),
            r,
        ));
        r
    }

    /// The slice that the bytes of a file describe.
    pub fn from_bytes(dicom_data: &[u8]) -> (r: Result<CTImage<T>, RecordError>)
        ensures
            is_slice_of_file(dicom_data@, r),
    {
        match DicomObject::from_bytes(dicom_data) {
            Ok(obj) => {
                let r = CTImage::from_object(&obj);
                assert(parsed_texts(dicom_data@)->Some_0 == obj.texts());
                assert(reads_pixels(obj.texts(), bytes_of(obj.elements(), "PixelData"@), r));
                r
            },
            Err(e) => Err(e),
        }
    }

    /// The slice that the values of a file's tags describe.
    pub fn from_tags(tags: SliceTags<T>) -> (r: Result<CTImage<T>, RecordError>)
        ensures
            r == slice_of(tags),
    {
        let pixel_spacing = pair(&tags.pixel_spacing);
        let image_position_patient = triple(&tags.image_position_patient);
        let image_orientation_patient = sextuple(&tags.image_orientation_patient);
        let uid = match tags.uid {
            Some(v) => v,
            None => {
                return Err(RecordError::Missing(Tag::SOPInstanceUID));
            },
        };
        let series_uid = match tags.series_uid {
            Some(v) => v,
            None => {
                return Err(RecordError::Missing(Tag::SeriesInstanceUID));
            },
        };
        let rows = match tags.rows {
            Some(v) => v,
            None => {
                return Err(RecordError::Missing(Tag::Rows));
            },
        };
        let columns = match tags.columns {
            Some(v) => v,
            None => {
                return Err(RecordError::Missing(Tag::Columns));
            },
        };
        let pixel_representation = match tags.pixel_representation {
            Some(v) => v,
            None => {
                return Err(RecordError::Missing(Tag::PixelRepresentation));
            },
        };
        let pixel_data = match tags.pixel_data {
            Some(v) => v,
            None => {
                return Err(RecordError::Missing(Tag::PixelData));
            },
        };
        Ok(
            CTImage {
                uid,
                series_uid,
                rows,
                columns,
                pixel_spacing,
                slice_thickness: tags.slice_thickness,
                spacing_between_slices: tags.spacing_between_slices,
                image_position_patient,
                image_orientation_patient,
                rescale_slope: tags.rescale_slope,
                rescale_intercept: tags.rescale_intercept,
                window_center: tags.window_center,
                window_width: tags.window_width,
                pixel_representation,
                pixel_data,
            },
        )
    }

    /// A slice with the given fields.
    pub fn new(
        uid: String,
        series_uid: String,
        rows: u16,
        columns: u16,
        pixel_spacing: Option<(T, T)>,
        slice_thickness: Option<T>,
        spacing_between_slices: Option<T>,
        image_position_patient: Option<(T, T, T)>,
        image_orientation_patient: Option<(T, T, T, T, T, T)>,
        rescale_slope: Option<T>,
        rescale_intercept: Option<T>,
        window_center: Option<T>,
        window_width: Option<T>,
        pixel_representation: u16,
        pixel_data: Vec<u8>,
    ) -> (r: Self)
        ensures
            r == (CTImage {
                uid,
                series_uid,
                rows,
                columns,
                pixel_spacing,
                slice_thickness,
                spacing_between_slices,
                image_position_patient,
                image_orientation_patient,
                rescale_slope,
                rescale_intercept,
                window_center,
                window_width,
                pixel_representation,
                pixel_data,
            }),
    {
        CTImage {
            uid,
            series_uid,
            rows,
            columns,
            pixel_spacing,
            slice_thickness,
            spacing_between_slices,
            image_position_patient,
            image_orientation_patient,
            rescale_slope,
            rescale_intercept,
            window_center,
            window_width,
            pixel_representation,
            pixel_data,
        }
    }

    /// The samples of this slice: each stored word read in the machine's
    /// byte order, rescaled by slope and intercept, rounded, and saturated
    /// to sixteen signed bits. Fails where the buffer has an odd number of
    /// bytes or the pixel representation is neither 0 nor 1.
    pub fn get_pixel_data(&self) -> (r: Result<Vec<i16>, VolumeError>)
        ensures
            is_pixel_data_of(
                *self,
                match r {
                    Ok(v) => Ok(v@),
                    Err(e) => Err(e),
                },
            ),
    {
        if self.pixel_data.len() % 2 != 0 || self.pixel_representation > 1 {
            return Err(VolumeError::MalformedPixelBuffer);
        }
        let words = read_words(&self.pixel_data);
        let samples = decode_words(
            &words,
            self.pixel_representation,
            self.rescale_slope,
            self.rescale_intercept,
        );
        assert(is_native_reading(self.pixel_data@, words@));
        Ok(samples)
    }
}

} // verus!
