//! The patient record.

use crate::dicom::table::Record;
use crate::dicom::dicom::{parsed_texts, text_of, DicomObject};
use crate::dicom::tags::{optional_text, RecordError, Tag};
use vstd::prelude::*;

verus! {

/// A patient, as the files of a study name them.
#[derive(Clone, Debug)]
pub struct Patient {
    /// Patient ID (0010,0020).
    pub patient_id: String,
    /// Patient name (0010,0010).
    pub name: String,
    /// Patient birth date (0010,0030).
    pub birthdate: Option<String>,
    /// Patient sex (0010,0040).
    pub sex: Option<String>,
}

/// What a patient record holds, as mathematical values.
pub struct PatientModel {
    pub patient_id: Seq<char>,
    pub name: Seq<char>,
    pub birthdate: Option<Seq<char>>,
    pub sex: Option<Seq<char>>,
}

impl View for Patient {
    type V = PatientModel;

    open spec fn view(&self) -> PatientModel {
        PatientModel {
            patient_id: self.patient_id@,
            name: self.name@,
            birthdate: optional_text(self.birthdate),
            sex: optional_text(self.sex),
        }
    }
}

/// The patient that a file describes, given the texts that the file holds.
pub open spec fn patient_in(elements: Map<Seq<char>, Option<Seq<char>>>) -> Result<
    PatientModel,
    RecordError,
> {
    if text_of(elements, "PatientID"@) is None {
        Err(RecordError::Missing(Tag::PatientID))
    } else if text_of(elements, "PatientName"@) is None {
        Err(RecordError::Missing(Tag::PatientName))
    } else {
        Ok(
            PatientModel {
                patient_id: text_of(elements, "PatientID"@).unwrap(),
                name: text_of(elements, "PatientName"@).unwrap(),
                birthdate: text_of(elements, "PatientBirthDate"@),
                sex: text_of(elements, "PatientSex"@),
            },
        )
    }
}

/// The patient that the bytes of a file describe.
pub open spec fn patient_from(bytes: Seq<u8>) -> Result<PatientModel, RecordError> {
    match parsed_texts(bytes) {
        Some(elements) => patient_in(elements),
        None => Err(RecordError::Unreadable),
    }
}

/// `r` is the patient, or the error, that `m` describes.
pub open spec fn is_patient(r: Result<Patient, RecordError>, m: Result<PatientModel, RecordError>) -> bool {
    match r {
        Ok(p) => m == Ok::<PatientModel, RecordError>(p@),
        Err(e) => m == Err::<PatientModel, RecordError>(e),
    }
}

/// The patient that the values of a file's tags describe: it needs a
/// patient ID and a patient name.
pub open spec fn patient_of(
    patient_id: Option<String>,
    name: Option<String>,
    birthdate: Option<String>,
    sex: Option<String>,
) -> Result<Patient, RecordError> {
    if patient_id is None {
        Err(RecordError::Missing(Tag::PatientID))
    } else if name is None {
        Err(RecordError::Missing(Tag::PatientName))
    } else {
        Ok(Patient { patient_id: patient_id.unwrap(), name: name.unwrap(), birthdate, sex })
    }
}

impl Patient {
    /// The patient that the values of a file's tags describe.
    pub fn from_tags(
        patient_id: Option<String>,
        name: Option<String>,
        birthdate: Option<String>,
        sex: Option<String>,
    ) -> (r: Result<Patient, RecordError>)
        ensures
            r == patient_of(patient_id, name, birthdate, sex),
    {
        let patient_id = match patient_id {
            Some(v) => v,
            None => {
                return Err(RecordError::Missing(Tag::PatientID));
            },
        };
        let name = match name {
            Some(v) => v,
            None => {
                return Err(RecordError::Missing(Tag::PatientName));
            },
        };
        Ok(Patient { patient_id, name, birthdate, sex })
    }

    /// A patient with the given fields.
    pub fn new(patient_id: String, name: String, birthdate: Option<String>, sex: Option<String>) -> (r:
        Self)
        ensures
            r == (Patient { patient_id, name, birthdate, sex }),
    {
        Patient { patient_id, name, birthdate, sex }
    }
}

impl Patient {
    /// The patient that a parsed file describes.
    pub fn from_object(obj: &DicomObject) -> (r: Result<Patient, RecordError>)
        ensures
            is_patient(r, patient_in(obj.texts())),
    {
        Patient::from_tags(
            obj.text("PatientID"),
            obj.text("PatientName"),
            obj.text("PatientBirthDate"),
            obj.text("PatientSex"),
        )
    }

    /// The patient that the bytes of a file describe.
    pub fn from_file(dicom_data: &[u8]) -> (r: Result<Patient, RecordError>)
        ensures
            is_patient(r, patient_from(dicom_data@)),
    {
        match DicomObject::from_bytes(dicom_data) {
            Ok(obj) => Patient::from_object(&obj),
            Err(e) => Err(e),
        }
    }
}

impl Record for Patient {
    open spec fn key_spec(&self) -> Seq<char> {
        self.patient_id@
    }

    fn key(&self) -> (r: &String) {
        &self.patient_id
    }
}

} // verus!
