//! The image series record.

use crate::dicom::table::{Child, Record};
use crate::dicom::dicom::{parsed_texts, text_of, DicomObject};
use crate::dicom::tags::{optional_text, RecordError, Tag};
use vstd::prelude::*;

verus! {

/// A series: the slices of one acquisition within a study.
#[derive(Clone, Debug)]
pub struct ImageSeries {
    /// Series instance UID (0020,000E).
    pub uid: String,
    /// Study instance UID (0020,000D).
    pub study_uid: String,
    /// Modality (0008,0060).
    pub modality: String,
    /// Series description (0008,103E).
    pub description: Option<String>,
}

/// What a series record holds, as mathematical values.
pub struct SeriesModel {
    pub uid: Seq<char>,
    pub study_uid: Seq<char>,
    pub modality: Seq<char>,
    pub description: Option<Seq<char>>,
}

impl View for ImageSeries {
    type V = SeriesModel;

    open spec fn view(&self) -> SeriesModel {
        SeriesModel {
            uid: self.uid@,
            study_uid: self.study_uid@,
            modality: self.modality@,
            description: optional_text(self.description),
        }
    }
}

/// The series that a file describes, given the texts that the file holds.
pub open spec fn series_in(elements: Map<Seq<char>, Option<Seq<char>>>) -> Result<
    SeriesModel,
    RecordError,
> {
    if text_of(elements, "SeriesInstanceUID"@) is None {
        Err(RecordError::Missing(Tag::SeriesInstanceUID))
    } else if text_of(elements, "StudyInstanceUID"@) is None {
        Err(RecordError::Missing(Tag::StudyInstanceUID))
    } else if text_of(elements, "Modality"@) is None {
        Err(RecordError::Missing(Tag::Modality))
    } else if text_of(elements, "Modality"@).unwrap() != "CT"@ {
        Err(RecordError::NotCT)
    } else {
        Ok(
            SeriesModel {
                uid: text_of(elements, "SeriesInstanceUID"@).unwrap(),
                study_uid: text_of(elements, "StudyInstanceUID"@).unwrap(),
                modality: text_of(elements, "Modality"@).unwrap(),
                description: text_of(elements, "SeriesDescription"@),
            },
        )
    }
}

/// The series that the bytes of a file describe.
pub open spec fn series_from(bytes: Seq<u8>) -> Result<SeriesModel, RecordError> {
    match parsed_texts(bytes) {
        Some(elements) => series_in(elements),
        None => Err(RecordError::Unreadable),
    }
}

/// `r` is the series, or the error, that `m` describes.
pub open spec fn is_series(r: Result<ImageSeries, RecordError>, m: Result<SeriesModel, RecordError>) -> bool {
    match r {
        Ok(p) => m == Ok::<SeriesModel, RecordError>(p@),
        Err(e) => m == Err::<SeriesModel, RecordError>(e),
    }
}

/// The series that the values of a file's tags describe: it needs a series
/// instance UID, a study instance UID and a modality, and the modality is
/// `CT`.
pub open spec fn series_of(
    uid: Option<String>,
    study_uid: Option<String>,
    modality: Option<String>,
    description: Option<String>,
) -> Result<ImageSeries, RecordError> {
    if uid is None {
        Err(RecordError::Missing(Tag::SeriesInstanceUID))
    } else if study_uid is None {
        Err(RecordError::Missing(Tag::StudyInstanceUID))
    } else if modality is None {
        Err(RecordError::Missing(Tag::Modality))
    } else if modality.unwrap()@ != "CT"@ {
        Err(RecordError::NotCT)
    } else {
        Ok(
            ImageSeries {
                uid: uid.unwrap(),
                study_uid: study_uid.unwrap(),
                modality: modality.unwrap(),
                description,
            },
        )
    }
}

impl ImageSeries {
    /// The series that the values of a file's tags describe.
    pub fn from_tags(
        uid: Option<String>,
        study_uid: Option<String>,
        modality: Option<String>,
        description: Option<String>,
    ) -> (r: Result<ImageSeries, RecordError>)
        ensures
            r == series_of(uid, study_uid, modality, description),
    {
        let uid = match uid {
            Some(v) => v,
            None => {
                return Err(RecordError::Missing(Tag::SeriesInstanceUID));
            },
        };
        let study_uid = match study_uid {
            Some(v) => v,
            None => {
                return Err(RecordError::Missing(Tag::StudyInstanceUID));
            },
        };
        let modality = match modality {
            Some(v) => v,
            None => {
                return Err(RecordError::Missing(Tag::Modality));
            },
        };
        let ct = "CT".to_string();
        if !(modality == ct) {
            return Err(RecordError::NotCT);
        }
        Ok(ImageSeries { uid, study_uid, modality, description })
    }

    /// A series with the given fields.
    pub fn new(uid: String, study_uid: String, modality: String, description: Option<String>) -> (r:
        Self)
        ensures
            r == (ImageSeries { uid, study_uid, modality, description }),
    {
        ImageSeries { uid, study_uid, modality, description }
    }
}

impl ImageSeries {
    /// The series that a parsed file describes.
    pub fn from_object(obj: &DicomObject) -> (r: Result<ImageSeries, RecordError>)
        ensures
            is_series(r, series_in(obj.texts())),
    {
        ImageSeries::from_tags(
            obj.text("SeriesInstanceUID"),
            obj.text("StudyInstanceUID"),
            obj.text("Modality"),
            obj.text("SeriesDescription"),
        )
    }

    /// The series that the bytes of a file describe.
    pub fn from_file(dicom_data: &[u8]) -> (r: Result<ImageSeries, RecordError>)
        ensures
            is_series(r, series_from(dicom_data@)),
    {
        match DicomObject::from_bytes(dicom_data) {
            Ok(obj) => ImageSeries::from_object(&obj),
            Err(e) => Err(e),
        }
    }
}

impl Record for ImageSeries {
    open spec fn key_spec(&self) -> Seq<char> {
        self.uid@
    }

    fn key(&self) -> (r: &String) {
        &self.uid
    }
}

impl Child for ImageSeries {
    open spec fn parent_spec(&self) -> Seq<char> {
        self.study_uid@
    }

    fn parent(&self) -> (r: &String) {
        &self.study_uid
    }
}

} // verus!
