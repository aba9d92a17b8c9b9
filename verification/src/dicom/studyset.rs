//! The study record.

use crate::dicom::table::{Child, Record};
use crate::dicom::dicom::{parsed_texts, text_of, DicomObject};
use crate::dicom::tags::{optional_text, RecordError, Tag};
use vstd::prelude::*;

verus! {

/// A study: the examinations of one patient on one occasion.
#[derive(Clone, Debug)]
pub struct StudySet {
    /// Study ID (0020,0010).
    pub study_id: String,
    /// Study instance UID (0020,000D).
    pub uid: String,
    /// Patient ID (0010,0020).
    pub patient_id: String,
    /// Study date.
    pub date: String,
    /// Study description (0008,1030).
    pub description: Option<String>,
}

/// What a study record holds, as mathematical values.
pub struct StudyModel {
    pub study_id: Seq<char>,
    pub uid: Seq<char>,
    pub patient_id: Seq<char>,
    pub date: Seq<char>,
    pub description: Option<Seq<char>>,
}

impl View for StudySet {
    type V = StudyModel;

    open spec fn view(&self) -> StudyModel {
        StudyModel {
            study_id: self.study_id@,
            uid: self.uid@,
            patient_id: self.patient_id@,
            date: self.date@,
            description: optional_text(self.description),
        }
    }
}

/// The study that a file describes, given the texts that the file holds.
pub open spec fn study_in(elements: Map<Seq<char>, Option<Seq<char>>>) -> Result<
    StudyModel,
    RecordError,
> {
    if text_of(elements, "StudyID"@) is None {
        Err(RecordError::Missing(Tag::StudyID))
    } else if text_of(elements, "StudyInstanceUID"@) is None {
        Err(RecordError::Missing(Tag::StudyInstanceUID))
    } else if text_of(elements, "PatientID"@) is None {
        Err(RecordError::Missing(Tag::PatientID))
    } else if text_of(elements, "StudyDate"@) is None {
        Err(RecordError::Missing(Tag::StudyDate))
    } else {
        Ok(
            StudyModel {
                study_id: text_of(elements, "StudyID"@).unwrap(),
                uid: text_of(elements, "StudyInstanceUID"@).unwrap(),
                patient_id: text_of(elements, "PatientID"@).unwrap(),
                date: text_of(elements, "StudyDate"@).unwrap(),
                description: text_of(elements, "StudyDescription"@),
            },
        )
    }
}

/// The study that the bytes of a file describe.
pub open spec fn study_from(bytes: Seq<u8>) -> Result<StudyModel, RecordError> {
    match parsed_texts(bytes) {
        Some(elements) => study_in(elements),
        None => Err(RecordError::Unreadable),
    }
}

/// `r` is the study, or the error, that `m` describes.
pub open spec fn is_study(r: Result<StudySet, RecordError>, m: Result<StudyModel, RecordError>) -> bool {
    match r {
        Ok(p) => m == Ok::<StudyModel, RecordError>(p@),
        Err(e) => m == Err::<StudyModel, RecordError>(e),
    }
}

/// The study that the values of a file's tags describe: it needs a study
/// ID, a study instance UID, a patient ID and a study date.
pub open spec fn study_of(
    study_id: Option<String>,
    uid: Option<String>,
    patient_id: Option<String>,
    date: Option<String>,
    description: Option<String>,
) -> Result<StudySet, RecordError> {
    if study_id is None {
        Err(RecordError::Missing(Tag::StudyID))
    } else if uid is None {
        Err(RecordError::Missing(Tag::StudyInstanceUID))
    } else if patient_id is None {
        Err(RecordError::Missing(Tag::PatientID))
    } else if date is None {
        Err(RecordError::Missing(Tag::StudyDate))
    } else {
        Ok(
            StudySet {
                study_id: study_id.unwrap(),
                uid: uid.unwrap(),
                patient_id: patient_id.unwrap(),
                date: date.unwrap(),
                description,
            },
        )
    }
}

impl StudySet {
    /// The study that the values of a file's tags describe.
    pub fn from_tags(
        study_id: Option<String>,
        uid: Option<String>,
        patient_id: Option<String>,
        date: Option<String>,
        description: Option<String>,
    ) -> (r: Result<StudySet, RecordError>)
        ensures
            r == study_of(study_id, uid, patient_id, date, description),
    {
        let study_id = match study_id {
            Some(v) => v,
            None => {
                return Err(RecordError::Missing(Tag::StudyID));
            },
        };
        let uid = match uid {
            Some(v) => v,
            None => {
                return Err(RecordError::Missing(Tag::StudyInstanceUID));
            },
        };
        let patient_id = match patient_id {
            Some(v) => v,
            None => {
                return Err(RecordError::Missing(Tag::PatientID));
            },
        };
        let date = match date {
            Some(v) => v,
            None => {
                return Err(RecordError::Missing(Tag::StudyDate));
            },
        };
        Ok(StudySet { study_id, uid, patient_id, date, description })
    }

    /// A study with the given fields.
    pub fn new(
        study_id: String,
        uid: String,
        patient_id: String,
        date: String,
        description: Option<String>,
    ) -> (r: Self)
        ensures
            r == (StudySet { study_id, uid, patient_id, date, description }),
    {
        StudySet { study_id, uid, patient_id, date, description }
    }
}

impl StudySet {
    /// The study that a parsed file describes.
    pub fn from_object(obj: &DicomObject) -> (r: Result<StudySet, RecordError>)
        ensures
            is_study(r, study_in(obj.texts())),
    {
        StudySet::from_tags(
            obj.text("StudyID"),
            obj.text("StudyInstanceUID"),
            obj.text("PatientID"),
            obj.text("StudyDate"),
            obj.text("StudyDescription"),
        )
    }

    /// The study that the bytes of a file describe.
    pub fn from_bytes(dicom_data: &[u8]) -> (r: Result<StudySet, RecordError>)
        ensures
            is_study(r, study_from(dicom_data@)),
    {
        match DicomObject::from_bytes(dicom_data) {
            Ok(obj) => StudySet::from_object(&obj),
            Err(e) => Err(e),
        }
    }
}

impl Record for StudySet {
    open spec fn key_spec(&self) -> Seq<char> {
        self.uid@
    }

    fn key(&self) -> (r: &String) {
        &self.uid
    }
}

impl Child for StudySet {
    open spec fn parent_spec(&self) -> Seq<char> {
        self.patient_id@
    }

    fn parent(&self) -> (r: &String) {
        &self.patient_id
    }
}

} // verus!
