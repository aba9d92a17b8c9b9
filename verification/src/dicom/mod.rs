//! The records read from DICOM files, and the repository that assembles
//! volumes from them.

pub mod assembly;
pub mod ct_image;
pub mod decimal;
pub mod dicom;
pub mod dicom_repo;
pub mod image_series;
pub mod ordering;
pub mod patient;
pub mod studyset;
pub mod table;
pub mod tags;
