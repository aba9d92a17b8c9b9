//! Reconstruction of a CT volume from slice images, and the algebra of
//! coordinate bases (4x4 homogeneous matrices) that places the volume and
//! its view planes in patient space.
//!
//! Every computation is generic over a scalar type that implements
//! [`field::Field`]; contracts are stated over the scalar's specification
//! operations, so they hold for whatever arithmetic the scalar provides.
//! Where the arithmetic is exact ([`exact::exact_field`]), inversion is
//! proved to invert ([`laws`]); the integers modulo seven ([`mod7::Mod7`])
//! are such scalars.

pub mod algebra;
pub mod coord;
pub mod ct_volume;
pub mod dicom;
pub mod error;
pub mod exact;
pub mod field;
pub mod geometry;
pub mod inverse;
pub mod laws;
pub mod layout;
pub mod mod7;
