//! The ways in which a volume or one of its views can fail to be derived.

use vstd::prelude::*;

verus! {

/// Why no volume or no view was produced, or why one slice was left out.
#[derive(Clone, Copy, Debug, PartialEq, Eq, Structural)]
pub enum VolumeError {
    /// No image series with the requested identifier is known.
    SeriesNotFound,
    /// The series holds no slice.
    EmptySeries,
    /// The first slice of the series by z, which anchors the volume, lacks
    /// pixel spacing, position or orientation.
    MissingRequiredGeometry,
    /// The slices of the series disagree on rows or columns.
    InconsistentGeometry,
    /// A pixel buffer has an odd number of bytes, the pixel representation
    /// is neither 0 nor 1, or a decoded slice does not fill its grid.
    MalformedPixelBuffer,
    /// The matrix of a base has no inverse, so nothing can be expressed in
    /// that base.
    SingularMatrix,
}

} // verus!
