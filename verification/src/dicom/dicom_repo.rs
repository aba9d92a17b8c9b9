//! The repository of the records read so far, and the assembly of one of its
//! series into a volume.

use crate::ct_volume::{CTVolume, CTVolumeGenerator};
use crate::dicom::assembly::{
    assemble, assemble_spec, decode_slices, decodes, is_volume_of, results_view, same_grid,
    same_grid_spec, sort_slices, stack_order,
};
use crate::dicom::ct_image::{is_slice_of_file, CTImage};
use crate::dicom::dicom::DicomObject;
use crate::dicom::image_series::{is_series, series_from, ImageSeries};
use crate::dicom::patient::{is_patient, patient_from, Patient};
use crate::dicom::studyset::{is_study, study_from, StudySet};
use crate::dicom::tags::RecordError;
use crate::dicom::table::{children, in_range, is_first_with_key, takes_in, takes_in_row, Table};
use crate::error::VolumeError;
use crate::field::Field;
use vstd::prelude::*;

verus! {

/// Patients, studies, series and slices, each kept by its identifier. A
/// record that arrives under an identifier already present takes the place
/// of the earlier one; otherwise records stay in the order of arrival.
#[derive(Clone, Debug)]
pub struct DicomRepo<T> {
    patients: Table<Patient>,
    study_sets: Table<StudySet>,
    image_series: Table<ImageSeries>,
    ct_images: Table<CTImage<T>>,
}

/// The record that was read, where one was.
pub open spec fn read<R>(r: Result<R, RecordError>) -> Option<R> {
    match r {
        Ok(record) => Some(record),
        Err(_) => None,
    }
}

/// The four results are what the bytes of a file describe: its patient,
/// study, series and slice, or for each the reason why there is none.
pub open spec fn is_file_reading<T: Field>(
    bytes: Seq<u8>,
    patient: Result<Patient, RecordError>,
    study: Result<StudySet, RecordError>,
    series: Result<ImageSeries, RecordError>,
    image: Result<CTImage<T>, RecordError>,
) -> bool {
    &&& is_patient(patient, patient_from(bytes))
    &&& is_study(study, study_from(bytes))
    &&& is_series(series, series_from(bytes))
    &&& is_slice_of_file(bytes, image)
}

impl<T: Field> DicomRepo<T> {
    /// The patients, in the order of arrival.
    pub closed spec fn patients(&self) -> Seq<Patient> {
        self.patients@
    }

    /// The studies, in the order of arrival.
    pub closed spec fn study_sets(&self) -> Seq<StudySet> {
        self.study_sets@
    }

    /// The series, in the order of arrival.
    pub closed spec fn image_series(&self) -> Seq<ImageSeries> {
        self.image_series@
    }

    /// The slices, in the order of arrival.
    pub closed spec fn ct_images(&self) -> Seq<CTImage<T>> {
        self.ct_images@
    }

    /// The repository's invariant: within each kind of record, no two share
    /// an identifier.
    pub closed spec fn wf(&self) -> bool {
        &&& self.patients.wf()
        &&& self.study_sets.wf()
        &&& self.image_series.wf()
        &&& self.ct_images.wf()
    }

    /// The empty repository.
    pub fn new() -> (r: Self)
        ensures
            r.wf(),
            r.patients() == Seq::<Patient>::empty(),
            r.study_sets() == Seq::<StudySet>::empty(),
            r.image_series() == Seq::<ImageSeries>::empty(),
            r.ct_images() == Seq::<CTImage<T>>::empty(),
    {
        DicomRepo {
            patients: Table::new(),
            study_sets: Table::new(),
            image_series: Table::new(),
            ct_images: Table::new(),
        }
    }

    /// Adds a patient, or replaces the one with the same patient ID.
    pub fn add_patient(&mut self, patient: Patient)
        ensures
            old(self).wf() ==> final(self).wf(),
            takes_in_row(old(self).patients(), final(self).patients(), patient),
            final(self).study_sets() == old(self).study_sets(),
            final(self).image_series() == old(self).image_series(),
            final(self).ct_images() == old(self).ct_images(),
    {
        self.patients.upsert(patient);
    }

    /// Adds a study, or replaces the one with the same study instance UID.
    pub fn add_study(&mut self, study: StudySet)
        ensures
            old(self).wf() ==> final(self).wf(),
            takes_in_row(old(self).study_sets(), final(self).study_sets(), study),
            final(self).patients() == old(self).patients(),
            final(self).image_series() == old(self).image_series(),
            final(self).ct_images() == old(self).ct_images(),
    {
        self.study_sets.upsert(study);
    }

    /// Adds a series, or replaces the one with the same series instance UID.
    pub fn add_image_series(&mut self, series: ImageSeries)
        ensures
            old(self).wf() ==> final(self).wf(),
            takes_in_row(old(self).image_series(), final(self).image_series(), series),
            final(self).patients() == old(self).patients(),
            final(self).study_sets() == old(self).study_sets(),
            final(self).ct_images() == old(self).ct_images(),
    {
        self.image_series.upsert(series);
    }

    /// Adds a slice, or replaces the one with the same SOP instance UID.
    pub fn add_ct_image(&mut self, image: CTImage<T>)
        ensures
            old(self).wf() ==> final(self).wf(),
            takes_in_row(old(self).ct_images(), final(self).ct_images(), image),
            final(self).patients() == old(self).patients(),
            final(self).study_sets() == old(self).study_sets(),
            final(self).image_series() == old(self).image_series(),
    {
        self.ct_images.upsert(image);
    }

    /// Takes in the records that one file gave: each of the four that was
    /// read is added, or replaces the record with the same identifier.
    pub fn add_parsed(
        &mut self,
        patient: Option<Patient>,
        study: Option<StudySet>,
        series: Option<ImageSeries>,
        image: Option<CTImage<T>>,
    )
        ensures
            old(self).wf() ==> final(self).wf(),
            takes_in(old(self).patients(), final(self).patients(), patient),
            takes_in(old(self).study_sets(), final(self).study_sets(), study),
            takes_in(old(self).image_series(), final(self).image_series(), series),
            takes_in(old(self).ct_images(), final(self).ct_images(), image),
    {
        if let Some(patient) = patient {
            self.add_patient(patient);
        }
        if let Some(study) = study {
            self.add_study(study);
        }
        if let Some(series) = series {
            self.add_image_series(series);
        }
        if let Some(image) = image {
            self.add_ct_image(image);
        }
    }

    /// Takes in what the bytes of one file describe: its patient, its study,
    /// its series and its slice, each where the file has what the record
    /// needs. A file that cannot be parsed changes nothing.
    pub fn add_file(&mut self, dicom_data: &[u8])
        ensures
            old(self).wf() ==> final(self).wf(),
            exists|
                patient: Result<Patient, RecordError>,
                study: Result<StudySet, RecordError>,
                series: Result<ImageSeries, RecordError>,
                image: Result<CTImage<T>, RecordError>,
            |
                {
                    &&& #[trigger] is_file_reading(dicom_data@, patient, study, series, image)
                    &&& takes_in(old(self).patients(), final(self).patients(), read(patient))
                    &&& takes_in(old(self).study_sets(), final(self).study_sets(), read(study))
                    &&& takes_in(
                        old(self).image_series(),
                        final(self).image_series(),
                        read(series),
                    )
                    &&& takes_in(old(self).ct_images(), final(self).ct_images(), read(image))
                },
    {
        match DicomObject::from_bytes(dicom_data) {
            Ok(obj) => {
                let patient = Patient::from_object(&obj);
                let study = StudySet::from_object(&obj);
                let series = ImageSeries::from_object(&obj);
                let image = CTImage::from_object(&obj);
                let ghost reading = (patient, study, series, image);
                self.add_parsed(patient.ok(), study.ok(), series.ok(), image.ok());
                assert(is_file_reading(dicom_data@, reading.0, reading.1, reading.2, reading.3));
            },
            Err(e) => {
                assert(is_file_reading::<T>(dicom_data@, Err(e), Err(e), Err(e), Err(e)));
            },
        }
    }

    /// All patients, in the order of arrival.
    pub fn get_all_patients(&self) -> (r: Vec<&Patient>)
        ensures
            r@.len() == self.patients().len(),
            forall|k: int| 0 <= k < r@.len() ==> *(#[trigger] r@[k]) == self.patients()[k],
    {
        self.patients.all()
    }

    /// The patient with the ID `patient_id`.
    pub fn get_patient(&self, patient_id: &str) -> (r: Option<&Patient>)
        ensures
            match r {
                Some(p) => exists|i: int|
                    #[trigger] is_first_with_key(self.patients(), patient_id@, Some(i)) && *p
                        == self.patients()[i],
                None => is_first_with_key(self.patients(), patient_id@, None),
            },
    {
        let key = patient_id.to_owned();
        let r = self.patients.get(&key);
        proof {
            if let Some(p) = r {
                let i = choose|i: int|
                    #[trigger] is_first_with_key(self.patients@, key@, Some(i)) && *p
                        == self.patients@[i];
                assert(is_first_with_key(self.patients(), patient_id@, Some(i)));
            }
        }
        r
    }

    /// The studies of the patient `patient_id`, in the order of arrival.
    pub fn get_studies_by_patient(&self, patient_id: &str) -> (r: Vec<&StudySet>)
        ensures
            r@.len() == children(self.study_sets(), patient_id@).len(),
            forall|k: int|
                0 <= k < r@.len() ==> *(#[trigger] r@[k]) == self.study_sets()[children(
                    self.study_sets(),
                    patient_id@,
                )[k] as int],
    {
        let key = patient_id.to_owned();
        self.study_sets.members_of(&key)
    }

    /// The series of the study `study_id`, in the order of arrival.
    pub fn get_series_by_study(&self, study_id: &str) -> (r: Vec<&ImageSeries>)
        ensures
            r@.len() == children(self.image_series(), study_id@).len(),
            forall|k: int|
                0 <= k < r@.len() ==> *(#[trigger] r@[k]) == self.image_series()[children(
                    self.image_series(),
                    study_id@,
                )[k] as int],
    {
        let key = study_id.to_owned();
        self.image_series.members_of(&key)
    }

    /// The slices of the series `series_id`, in the order of arrival.
    pub fn get_images_by_series(&self, series_id: &str) -> (r: Vec<&CTImage<T>>)
        ensures
            r@.len() == children(self.ct_images(), series_id@).len(),
            forall|k: int|
                0 <= k < r@.len() ==> *(#[trigger] r@[k]) == self.ct_images()[children(
                    self.ct_images(),
                    series_id@,
                )[k] as int],
    {
        let key = series_id.to_owned();
        self.ct_images.members_of(&key)
    }

    /// The slices of the series `image_series_id` in stacking order, or the
    /// reason why the series cannot be stacked.
    pub open spec fn slice_order_spec(&self, image_series_id: Seq<char>) -> Result<
        Seq<usize>,
        VolumeError,
    > {
        if is_first_with_key(self.image_series(), image_series_id, None) {
            Err(VolumeError::SeriesNotFound)
        } else {
            stack_order(children(self.ct_images(), image_series_id), self.ct_images())
        }
    }

    /// The slices of the series `image_series_id`, as positions among the
    /// slices of the repository, by ascending z. Fails where the series is
    /// not known, has no slice, or has slices that disagree on rows or
    /// columns.
    pub fn slice_order(&self, image_series_id: &str) -> (r: Result<Vec<usize>, VolumeError>)
        ensures
            match r {
                Ok(order) => {
                    &&& self.slice_order_spec(image_series_id@) == Ok::<Seq<usize>, VolumeError>(
                        order@,
                    )
                    &&& order@.len() > 0
                    &&& in_range(order@, self.ct_images().len() as int)
                    &&& same_grid_spec(self.ct_images(), order@)
                },
                Err(e) => self.slice_order_spec(image_series_id@) == Err::<Seq<usize>, VolumeError>(
                    e,
                ),
            },
    {
        let key = image_series_id.to_owned();
        if self.image_series.find(&key).is_none() {
            return Err(VolumeError::SeriesNotFound);
        }
        let picked = self.ct_images.children_of(&key);
        if picked.len() == 0 {
            return Err(VolumeError::EmptySeries);
        }
        let order = sort_slices(&self.ct_images, &picked);
        if !same_grid(&self.ct_images, &order) {
            return Err(VolumeError::InconsistentGeometry);
        }
        Ok(order)
    }

    /// The volume of the slices `order`, stacked in that order and labelled
    /// `label`, given what the decoding of each slice returned.
    pub fn assemble_volume(
        &self,
        label: &str,
        order: &Vec<usize>,
        decoded: &Vec<Result<Vec<i16>, VolumeError>>,
    ) -> (r: Result<CTVolume<T>, VolumeError>)
        requires
            order@.len() > 0,
            in_range(order@, self.ct_images().len() as int),
            same_grid_spec(self.ct_images(), order@),
            decoded@.len() == order@.len(),
        ensures
            is_volume_of(r, assemble_spec(self.ct_images(), label@, order@, results_view(decoded@))),
            r is Ok ==> r.unwrap().wf(),
    {
        assemble(&self.ct_images, label.to_owned(), order, decoded)
    }
}

impl<T: Field> CTVolumeGenerator<T> for DicomRepo<T> {
    /// The volume of the series `image_series_id`: its slices by ascending
    /// z, each decoded, those that cannot be decoded left out and counted.
    /// Fails, in this order, where the series is not known, has no slice,
    /// has slices that disagree on rows or columns, where its first slice by
    /// z lacks pixel spacing, orientation or position, or where none of its
    /// slices can be decoded.
    fn generate_ct_volume(&self, image_series_id: &str) -> (r: Result<CTVolume<T>, VolumeError>)
        ensures
            match self.slice_order_spec(image_series_id@) {
                Err(e) => is_volume_of(r, Err(e)),
                Ok(order) => exists|decoded: Seq<Result<Seq<i16>, VolumeError>>|
                    {
                        &&& #[trigger] decodes(self.ct_images(), order, decoded)
                        &&& is_volume_of(
                            r,
                            assemble_spec(self.ct_images(), image_series_id@, order, decoded),
                        )
                    },
            },
    {
        let order = match self.slice_order(image_series_id) {
            Ok(order) => order,
            Err(e) => {
                return Err(e);
            },
        };
        let decoded = decode_slices(&self.ct_images, &order);
        let r = self.assemble_volume(image_series_id, &order, &decoded);
        proof {
            let witness = results_view(decoded@);
            assert(decodes(self.ct_images(), order@, witness));
            assert(self.slice_order_spec(image_series_id@)->Ok_0 == order@);
        }
        r
    }
}

/// The patients, studies and series of a set of files, and what belongs to
/// what: for each patient ID the study instance UIDs, for each study
/// instance UID the series instance UIDs.
#[derive(Debug)]
pub struct DCMStructure {
    patients: Table<Patient>,
    study_sets: Table<StudySet>,
    image_series: Table<ImageSeries>,
    patient_to_study_sets: Vec<(String, Vec<String>)>,
    study_sets_to_image_series: Vec<(String, Vec<String>)>,
}

/// What a structure holds, as mathematical values.
pub struct StructureModel {
    pub patients: Seq<Patient>,
    pub study_sets: Seq<StudySet>,
    pub image_series: Seq<ImageSeries>,
    pub patient_to_study_sets: Seq<(String, Vec<String>)>,
    pub study_sets_to_image_series: Seq<(String, Vec<String>)>,
}

impl View for DCMStructure {
    type V = StructureModel;

    closed spec fn view(&self) -> StructureModel {
        StructureModel {
            patients: self.patients@,
            study_sets: self.study_sets@,
            image_series: self.image_series@,
            patient_to_study_sets: self.patient_to_study_sets@,
            study_sets_to_image_series: self.study_sets_to_image_series@,
        }
    }
}

impl Default for DCMStructure {
    /// The structure of no file.
    fn default() -> (r: Self)
        ensures
            r@.patients.len() == 0,
            r@.study_sets.len() == 0,
            r@.image_series.len() == 0,
            r@.patient_to_study_sets.len() == 0,
            r@.study_sets_to_image_series.len() == 0,
    {
        DCMStructure {
            patients: Table::new(),
            study_sets: Table::new(),
            image_series: Table::new(),
            patient_to_study_sets: Vec::new(),
            study_sets_to_image_series: Vec::new(),
        }
    }
}

} // verus!
