use kepler_wgpu::coord::{Base, Matrix4x4};
use kepler_wgpu::ct_volume::{CTVolume, CTVolumeGenerator};
use kepler_wgpu::dicom::assembly::{
    assemble, decode_slices, same_grid, slice_spacing, slice_z, sort_slices, volume_base,
};
use kepler_wgpu::dicom::ct_image::{decode_sample, decode_words, read_words, CTImage};
use kepler_wgpu::dicom::dicom_repo::{DCMStructure, DicomRepo};
use kepler_wgpu::dicom::image_series::ImageSeries;
use kepler_wgpu::dicom::patient::Patient;
use kepler_wgpu::dicom::studyset::StudySet;
use kepler_wgpu::dicom::table::{Child, Record, Table};
use kepler_wgpu::error::VolumeError;
use kepler_wgpu::field::Field;

#[derive(Clone, Copy, Debug, PartialEq, PartialOrd)]
struct Real(f64);

impl Field for Real {
    fn zero_spec() -> Self {
        Real(0.0)
    }
    fn one_spec() -> Self {
        Real(1.0)
    }
    fn add_spec(self, rhs: Self) -> Self {
        Real(self.0 + rhs.0)
    }
    fn sub_spec(self, rhs: Self) -> Self {
        Real(self.0 - rhs.0)
    }
    fn mul_spec(self, rhs: Self) -> Self {
        Real(self.0 * rhs.0)
    }
    fn div_spec(self, rhs: Self) -> Self {
        Real(self.0 / rhs.0)
    }
    fn neg_spec(self) -> Self {
        Real(-self.0)
    }
    fn abs_spec(self) -> Self {
        Real(self.0.abs())
    }
    fn lt_spec(self, rhs: Self) -> bool {
        self.0 < rhs.0
    }
    fn is_zero_spec(self) -> bool {
        self.0 == 0.0
    }
    fn from_i32_spec(v: i32) -> Self {
        Real(v as f64)
    }
    fn from_usize_spec(v: usize) -> Self {
        Real(v as f64)
    }
    fn round_spec(self) -> i64 {
        self.0.round() as i64
    }
    fn zero() -> Self {
        Real(0.0)
    }
    fn one() -> Self {
        Real(1.0)
    }
    fn add(self, rhs: Self) -> Self {
        Real(self.0 + rhs.0)
    }
    fn sub(self, rhs: Self) -> Self {
        Real(self.0 - rhs.0)
    }
    fn mul(self, rhs: Self) -> Self {
        Real(self.0 * rhs.0)
    }
    fn div(self, rhs: Self) -> Self {
        Real(self.0 / rhs.0)
    }
    fn neg(self) -> Self {
        Real(-self.0)
    }
    fn abs(self) -> Self {
        Real(self.0.abs())
    }
    fn lt(self, rhs: Self) -> bool {
        self.0 < rhs.0
    }
    fn is_zero(self) -> bool {
        self.0 == 0.0
    }
    fn from_i32(v: i32) -> Self {
        Real(v as f64)
    }
    fn from_usize(v: usize) -> Self {
        Real(v as f64)
    }
    fn round(self) -> i64 {
        self.0.round() as i64
    }
    fn parse(text: &str) -> Option<Self> {
        text.parse::<f64>().ok().map(Real)
    }
}

const SERIES: &str = "1.2.3";

fn bytes_of(samples: &[i16]) -> Vec<u8> {
    samples.iter().flat_map(|s| s.to_ne_bytes()).collect()
}

fn slice(uid: &str, z: f64, samples: &[i16]) -> CTImage<Real> {
    CTImage::new(
        uid.to_string(),
        SERIES.to_string(),
        2,
        2,
        Some((Real(1.0), Real(1.0))),
        None,
        None,
        Some((Real(0.0), Real(0.0), Real(z))),
        Some((Real(1.0), Real(0.0), Real(0.0), Real(0.0), Real(1.0), Real(0.0))),
        None,
        None,
        None,
        None,
        1,
        bytes_of(samples),
    )
}

fn series(uid: &str) -> ImageSeries {
    ImageSeries::new(uid.to_string(), "study".to_string(), "CT".to_string(), None)
}

fn repo_of(slices: Vec<CTImage<Real>>) -> DicomRepo<Real> {
    let mut repo = DicomRepo::new();
    repo.add_image_series(series(SERIES));
    for s in slices {
        repo.add_ct_image(s);
    }
    repo
}

fn floats(m: &Matrix4x4<Real>) -> [[f64; 4]; 4] {
    m.data.map(|row| row.map(|x| x.0))
}

fn spacing(v: &CTVolume<Real>) -> (f64, f64, f64) {
    (v.voxel_spacing.0 .0, v.voxel_spacing.1 .0, v.voxel_spacing.2 .0)
}

#[test]
fn slices_are_stacked_by_z_whatever_the_input_order() {
    let orders: [[usize; 3]; 6] = [
        [0, 1, 2],
        [0, 2, 1],
        [1, 0, 2],
        [1, 2, 0],
        [2, 0, 1],
        [2, 1, 0],
    ];
    let given = [(5.0, 50i16), (1.0, 10i16), (3.0, 30i16)];
    for order in orders {
        let slices = order
            .iter()
            .map(|&k| slice(&format!("image-{}", k), given[k].0, &[given[k].1; 4]))
            .collect();
        let volume = repo_of(slices).generate_ct_volume(SERIES).unwrap();
        assert_eq!(
            volume.voxel_data,
            vec![10, 10, 10, 10, 30, 30, 30, 30, 50, 50, 50, 50]
        );
        assert_eq!(volume.dimensions, (2, 2, 3));
    }
}

#[test]
fn slices_with_equal_z_keep_their_order_of_arrival() {
    let repo = repo_of(vec![
        slice("a", 2.0, &[1; 4]),
        slice("b", 1.0, &[2; 4]),
        slice("c", 2.0, &[3; 4]),
        slice("d", 1.0, &[4; 4]),
    ]);
    let order = repo.slice_order(SERIES).unwrap();
    assert_eq!(order, vec![1, 3, 0, 2]);
    let volume = repo.generate_ct_volume(SERIES).unwrap();
    assert_eq!(
        volume.voxel_data,
        vec![2, 2, 2, 2, 4, 4, 4, 4, 1, 1, 1, 1, 3, 3, 3, 3]
    );
}

#[test]
fn slice_without_position_is_ordered_at_zero() {
    let mut floating = slice("floating", 9.0, &[7; 4]);
    floating.image_position_patient = None;
    assert_eq!(slice_z(&floating), Real(0.0));
    assert_eq!(slice_z(&slice("placed", -4.5, &[0; 4])), Real(-4.5));
    let repo = repo_of(vec![
        slice("above", 1.0, &[1; 4]),
        floating,
        slice("below", -1.0, &[2; 4]),
    ]);
    assert_eq!(repo.slice_order(SERIES).unwrap(), vec![2, 1, 0]);
}

#[test]
fn sort_slices_orders_positions_not_records() {
    let mut table = Table::new();
    for (k, z) in [4.0, 2.0, 3.0, 1.0].iter().enumerate() {
        table.upsert(slice(&format!("s{}", k), *z, &[0; 4]));
    }
    assert_eq!(sort_slices(&table, &vec![0, 1, 2, 3]), vec![3, 1, 2, 0]);
    assert_eq!(sort_slices(&table, &vec![2, 0]), vec![2, 0]);
    assert_eq!(sort_slices(&table, &vec![]), Vec::<usize>::new());
    assert!(same_grid(&table, &vec![0, 1, 2, 3]));
    assert!(same_grid(&table, &vec![]));
}

#[test]
fn signed_sample_with_intercept() {
    assert_eq!(decode_sample(0, 1, Real(1.0), Real(-1024.0)), -1024);
    let mut img = slice("one", 0.0, &[0, 0, 0, 0]);
    img.rescale_slope = Some(Real(1.0));
    img.rescale_intercept = Some(Real(-1024.0));
    assert_eq!(img.get_pixel_data().unwrap(), vec![-1024; 4]);
}

#[test]
fn unsigned_sample_above_range_saturates() {
    assert_eq!(decode_sample(40000, 0, Real(1.0), Real(0.0)), 32767);
    let mut img = slice("one", 0.0, &[0; 4]);
    img.pixel_representation = 0;
    img.pixel_data = [40000u16, 1, 32767, 32768]
        .iter()
        .flat_map(|w| w.to_ne_bytes())
        .collect();
    assert_eq!(img.get_pixel_data().unwrap(), vec![32767, 1, 32767, 32767]);
}

#[test]
fn samples_saturate_at_both_bounds() {
    assert_eq!(decode_sample(0x8000, 1, Real(2.0), Real(0.0)), -32768);
    assert_eq!(decode_sample(0x7fff, 1, Real(2.0), Real(0.0)), 32767);
    assert_eq!(decode_sample(0x8000, 1, Real(1.0), Real(0.0)), -32768);
    assert_eq!(decode_sample(0xffff, 1, Real(1.0), Real(0.0)), -1);
    assert_eq!(decode_sample(0xffff, 0, Real(0.5), Real(0.0)), 32767);
}

#[test]
fn samples_are_rounded_to_nearest() {
    assert_eq!(decode_sample(3, 1, Real(0.5), Real(0.0)), 2);
    assert_eq!(decode_sample(3, 1, Real(0.4), Real(0.0)), 1);
    assert_eq!(decode_sample(0xfffd, 1, Real(0.5), Real(0.0)), -2);
    assert_eq!(decode_sample(10, 0, Real(1.5), Real(0.25)), 15);
}

#[test]
fn missing_slope_and_intercept_default_to_one_and_zero() {
    let words = vec![0u16, 1, 0x7fff, 0x8000, 0xffff];
    assert_eq!(
        decode_words::<Real>(&words, 1, None, None),
        vec![0, 1, 32767, -32768, -1]
    );
    assert_eq!(
        decode_words(&words, 1, Some(Real(2.0)), None),
        vec![0, 2, 32767, -32768, -2]
    );
    assert_eq!(
        decode_words(&words, 1, None, Some(Real(-1.0))),
        vec![-1, 0, 32766, -32768, -2]
    );
}

#[test]
fn words_are_read_in_native_byte_order() {
    let bytes = vec![0x34u8, 0x12, 0xff, 0x00, 0x80, 0x80];
    assert_eq!(
        read_words(&bytes),
        vec![
            u16::from_ne_bytes([0x34, 0x12]),
            u16::from_ne_bytes([0xff, 0x00]),
            0x8080
        ]
    );
    assert_eq!(read_words(&vec![]), Vec::<u16>::new());
}

#[test]
fn odd_buffer_is_malformed() {
    let mut img = slice("odd", 0.0, &[1, 2, 3, 4]);
    img.pixel_data.pop();
    assert_eq!(img.get_pixel_data(), Err(VolumeError::MalformedPixelBuffer));
}

#[test]
fn unknown_pixel_representation_is_malformed() {
    let mut img = slice("odd", 0.0, &[1, 2, 3, 4]);
    img.pixel_representation = 2;
    assert_eq!(img.get_pixel_data(), Err(VolumeError::MalformedPixelBuffer));
    img.pixel_data.clear();
    assert_eq!(img.get_pixel_data(), Err(VolumeError::MalformedPixelBuffer));
}

#[test]
fn empty_buffer_decodes_to_no_sample() {
    let mut img = slice("empty", 0.0, &[]);
    assert_eq!(img.get_pixel_data(), Ok(vec![]));
    img.pixel_representation = 0;
    assert_eq!(img.get_pixel_data(), Ok(vec![]));
}

#[test]
fn spacing_falls_back_to_distance_between_first_two_slices() {
    let repo = repo_of(vec![slice("a", 0.0, &[0; 4]), slice("b", 2.5, &[0; 4])]);
    let volume = repo.generate_ct_volume(SERIES).unwrap();
    assert_eq!(spacing(&volume), (1.0, 1.0, 2.5));
}

#[test]
fn spacing_uses_absolute_distance() {
    let a = slice("a", -3.0, &[0; 4]);
    let b = slice("b", -5.5, &[0; 4]);
    assert_eq!(slice_spacing(&a, Some(&b)), Real(2.5));
    assert_eq!(slice_spacing(&b, Some(&a)), Real(2.5));
}

#[test]
fn stated_slice_spacing_wins() {
    let mut a = slice("a", 0.0, &[0; 4]);
    a.spacing_between_slices = Some(Real(0.625));
    let b = slice("b", 2.5, &[0; 4]);
    assert_eq!(slice_spacing(&a, Some(&b)), Real(0.625));
    assert_eq!(slice_spacing(&a, None), Real(0.625));
    let volume = repo_of(vec![a, b]).generate_ct_volume(SERIES).unwrap();
    assert_eq!(spacing(&volume), (1.0, 1.0, 0.625));
}

#[test]
fn spacing_is_one_for_a_single_slice_or_no_distance() {
    let a = slice("a", 4.0, &[0; 4]);
    let twin = slice("twin", 4.0, &[0; 4]);
    assert_eq!(slice_spacing(&a, None), Real(1.0));
    assert_eq!(slice_spacing(&a, Some(&twin)), Real(1.0));
    let volume = repo_of(vec![a]).generate_ct_volume(SERIES).unwrap();
    assert_eq!(spacing(&volume), (1.0, 1.0, 1.0));
}

#[test]
fn second_slice_without_position_counts_as_z_one() {
    let a = slice("a", -2.0, &[0; 4]);
    let mut b = slice("b", 0.0, &[0; 4]);
    b.image_position_patient = None;
    assert_eq!(slice_spacing(&a, Some(&b)), Real(3.0));
}

#[test]
fn mismatched_dimensions_are_rejected() {
    let mut large = slice("large", 0.0, &[]);
    large.rows = 512;
    large.columns = 512;
    large.pixel_data = vec![0; 512 * 512 * 2];
    let mut small = slice("small", 1.0, &[]);
    small.rows = 256;
    small.columns = 256;
    small.pixel_data = vec![0; 256 * 256 * 2];
    let repo = repo_of(vec![large, small]);
    assert_eq!(
        repo.slice_order(SERIES),
        Err(VolumeError::InconsistentGeometry)
    );
    match repo.generate_ct_volume(SERIES) {
        Err(e) => assert_eq!(e, VolumeError::InconsistentGeometry),
        Ok(_) => panic!("a volume was produced"),
    }
}

#[test]
fn mismatched_columns_alone_are_rejected() {
    let mut wide = slice("wide", 1.0, &[0; 6]);
    wide.columns = 3;
    let repo = repo_of(vec![slice("a", 0.0, &[0; 4]), wide]);
    assert_eq!(
        repo.generate_ct_volume(SERIES).err(),
        Some(VolumeError::InconsistentGeometry)
    );
}

#[test]
fn end_to_end_three_slices() {
    let repo = repo_of(vec![
        slice("a", 0.0, &[1, 2, 3, 4]),
        slice("b", 1.0, &[5, 6, 7, 8]),
        slice("c", 2.0, &[9, 10, 11, 12]),
    ]);
    let volume = repo.generate_ct_volume(SERIES).unwrap();
    assert_eq!(volume.dimensions, (2, 2, 3));
    assert_eq!(spacing(&volume), (1.0, 1.0, 1.0));
    assert_eq!(volume.voxel_data, (1..=12).collect::<Vec<i16>>());
    assert_eq!(volume.skipped_slices, 0);
    assert_eq!(volume.base.label, SERIES);
    assert_eq!(
        volume.base.matrix.get_column(3),
        [Real(0.0), Real(0.0), Real(0.0), Real(1.0)]
    );
    let world = Base::<Real>::default();
    let in_world = volume.base.to_base(&world).unwrap();
    assert_eq!(floats(&in_world), floats(&volume.base.matrix));
    assert_eq!(floats(&in_world), floats(&Matrix4x4::eye()));
}

#[test]
fn base_is_direction_times_translation_times_scaling() {
    let m = volume_base(
        (Real(0.0), Real(1.0), Real(0.0), Real(-1.0), Real(0.0), Real(0.0)),
        (Real(10.0), Real(20.0), Real(30.0)),
        (Real(0.5), Real(0.25), Real(2.0)),
    );
    assert_eq!(
        floats(&m),
        [
            [0.0, -0.25, 0.0, -20.0],
            [0.5, 0.0, 0.0, 10.0],
            [0.0, 0.0, 2.0, 30.0],
            [0.0, 0.0, 0.0, 1.0]
        ]
    );
}

#[test]
fn unknown_series_is_reported() {
    let repo = repo_of(vec![slice("a", 0.0, &[0; 4])]);
    assert_eq!(
        repo.generate_ct_volume("9.9.9").err(),
        Some(VolumeError::SeriesNotFound)
    );
    assert_eq!(repo.slice_order("9.9.9"), Err(VolumeError::SeriesNotFound));
}

#[test]
fn series_without_slices_is_empty() {
    let mut repo = repo_of(vec![slice("a", 0.0, &[0; 4])]);
    repo.add_image_series(series("7.7.7"));
    assert_eq!(
        repo.generate_ct_volume("7.7.7").err(),
        Some(VolumeError::EmptySeries)
    );
}

#[test]
fn missing_geometry_on_the_anchor_is_fatal() {
    let mut no_spacing = slice("a", 0.0, &[0; 4]);
    no_spacing.pixel_spacing = None;
    let mut no_orientation = slice("a", 0.0, &[0; 4]);
    no_orientation.image_orientation_patient = None;
    let mut no_position = slice("a", 0.0, &[0; 4]);
    no_position.image_position_patient = None;
    for anchor in [no_spacing, no_orientation, no_position] {
        let repo = repo_of(vec![anchor, slice("b", 1.0, &[0; 4])]);
        assert_eq!(
            repo.generate_ct_volume(SERIES).err(),
            Some(VolumeError::MissingRequiredGeometry)
        );
    }
}

#[test]
fn missing_geometry_behind_the_anchor_is_tolerated() {
    let mut bare = slice("b", 1.0, &[5; 4]);
    bare.pixel_spacing = None;
    bare.image_orientation_patient = None;
    let repo = repo_of(vec![slice("a", 0.0, &[1; 4]), bare]);
    let volume = repo.generate_ct_volume(SERIES).unwrap();
    assert_eq!(volume.dimensions, (2, 2, 2));
    assert_eq!(volume.voxel_data, vec![1, 1, 1, 1, 5, 5, 5, 5]);
}

#[test]
fn undecodable_slices_are_skipped_and_counted() {
    let mut odd = slice("odd", 1.0, &[9; 4]);
    odd.pixel_data.pop();
    let mut short = slice("short", 2.0, &[8; 3]);
    short.rescale_slope = Some(Real(1.0));
    let mut strange = slice("strange", 3.0, &[7; 4]);
    strange.pixel_representation = 5;
    let repo = repo_of(vec![
        slice("a", 0.0, &[1; 4]),
        odd,
        short,
        strange,
        slice("e", 4.0, &[2; 4]),
    ]);
    let volume = repo.generate_ct_volume(SERIES).unwrap();
    assert_eq!(volume.dimensions, (2, 2, 2));
    assert_eq!(volume.skipped_slices, 3);
    assert_eq!(volume.voxel_data, vec![1, 1, 1, 1, 2, 2, 2, 2]);
    assert_eq!(spacing(&volume), (1.0, 1.0, 1.0));
}

#[test]
fn first_slice_by_z_anchors_the_volume_even_if_left_out() {
    let mut odd = slice("odd", 0.5, &[9; 4]);
    odd.pixel_data.pop();
    let repo = repo_of(vec![
        slice("c", 4.0, &[2; 4]),
        odd,
        slice("b", 2.0, &[1; 4]),
    ]);
    let volume = repo.generate_ct_volume(SERIES).unwrap();
    assert_eq!(volume.skipped_slices, 1);
    assert_eq!(volume.dimensions, (2, 2, 2));
    assert_eq!(volume.voxel_data, vec![1, 1, 1, 1, 2, 2, 2, 2]);
    assert_eq!(
        volume.base.matrix.get_column(3),
        [Real(0.0), Real(0.0), Real(0.5), Real(1.0)]
    );
    assert_eq!(spacing(&volume), (1.0, 1.0, 1.5));
}

#[test]
fn missing_geometry_on_the_first_slice_is_fatal_before_any_slice_is_dropped() {
    let mut first = slice("first", 0.0, &[0; 4]);
    first.pixel_spacing = None;
    first.pixel_representation = 2;
    let repo = repo_of(vec![slice("second", 1.0, &[1; 4]), first]);
    assert_eq!(
        repo.generate_ct_volume(SERIES).err(),
        Some(VolumeError::MissingRequiredGeometry)
    );
    let mut table = Table::new();
    let mut bare = slice("bare", 0.0, &[0; 4]);
    bare.image_orientation_patient = None;
    table.upsert(bare);
    table.upsert(slice("b", 1.0, &[0; 4]));
    let nothing = vec![
        Err(VolumeError::MalformedPixelBuffer),
        Err(VolumeError::MalformedPixelBuffer),
    ];
    assert_eq!(
        assemble(&table, "label".to_string(), &vec![0, 1], &nothing).err(),
        Some(VolumeError::MissingRequiredGeometry)
    );
    assert_eq!(
        assemble(&table, "label".to_string(), &vec![1, 0], &nothing).err(),
        Some(VolumeError::MalformedPixelBuffer)
    );
}

#[test]
fn series_with_no_decodable_slice_is_malformed() {
    let mut odd = slice("odd", 1.0, &[9; 4]);
    odd.pixel_data.pop();
    let repo = repo_of(vec![odd, slice("short", 2.0, &[1; 2])]);
    assert_eq!(
        repo.generate_ct_volume(SERIES).err(),
        Some(VolumeError::MalformedPixelBuffer)
    );
}

#[test]
fn assemble_takes_the_decodings_it_is_given() {
    let mut table = Table::new();
    table.upsert(slice("a", 0.0, &[0; 4]));
    table.upsert(slice("b", 1.0, &[0; 4]));
    let order = vec![0, 1];
    let decoded = decode_slices(&table, &order);
    assert_eq!(decoded, vec![Ok(vec![0; 4]), Ok(vec![0; 4])]);
    let given = vec![Ok(vec![4, 3, 2, 1]), Err(VolumeError::MalformedPixelBuffer)];
    let volume = assemble(&table, "label".to_string(), &order, &given).unwrap();
    assert_eq!(volume.voxel_data, vec![4, 3, 2, 1]);
    assert_eq!(volume.dimensions, (2, 2, 1));
    assert_eq!(volume.skipped_slices, 1);
    assert_eq!(volume.base.label, "label");
}

#[test]
fn only_slices_of_the_series_are_stacked() {
    let mut other = slice("other", 0.5, &[9; 4]);
    other.series_uid = "4.5.6".to_string();
    let mut repo = repo_of(vec![slice("a", 0.0, &[1; 4]), other, slice("c", 1.0, &[2; 4])]);
    repo.add_image_series(series("4.5.6"));
    let volume = repo.generate_ct_volume(SERIES).unwrap();
    assert_eq!(volume.voxel_data, vec![1, 1, 1, 1, 2, 2, 2, 2]);
    let other = repo.generate_ct_volume("4.5.6").unwrap();
    assert_eq!(other.voxel_data, vec![9; 4]);
    assert_eq!(other.base.label, "4.5.6");
}

#[test]
fn cloned_volume_equals_its_source() {
    let repo = repo_of(vec![slice("a", 0.0, &[1, 2, 3, 4])]);
    let volume = repo.generate_ct_volume(SERIES).unwrap();
    let copy = volume.clone();
    assert_eq!(copy.dimensions, volume.dimensions);
    assert_eq!(copy.voxel_data, volume.voxel_data);
    assert_eq!(copy.base.label, volume.base.label);
    assert_eq!(floats(&copy.base.matrix), floats(&volume.base.matrix));
}

#[test]
fn records_are_replaced_by_key_and_keep_their_place() {
    let mut repo = DicomRepo::<Real>::new();
    repo.add_patient(Patient::new("ada".to_string(), "Ada".to_string(), None, None));
    repo.add_patient(Patient::new("bob".to_string(), "Bob".to_string(), None, None));
    repo.add_patient(Patient::new(
        "ada".to_string(),
        "Ada L.".to_string(),
        Some("18151210".to_string()),
        Some("F".to_string()),
    ));
    let all = repo.get_all_patients();
    assert_eq!(all.len(), 2);
    assert_eq!(all[0].name, "Ada L.");
    assert_eq!(all[1].name, "Bob");
    assert_eq!(repo.get_patient("ada").unwrap().sex.as_deref(), Some("F"));
    assert_eq!(repo.get_patient("bob").unwrap().name, "Bob");
    assert!(repo.get_patient("cyd").is_none());
}

#[test]
fn children_are_found_by_their_parent() {
    let mut repo = repo_of(vec![
        slice("a", 0.0, &[0; 4]),
        slice("b", 1.0, &[0; 4]),
    ]);
    let study = |uid: &str, patient: &str| {
        StudySet::new(
            "id".to_string(),
            uid.to_string(),
            patient.to_string(),
            "20240101".to_string(),
            None,
        )
    };
    repo.add_study(study("s1", "ada"));
    repo.add_study(study("s2", "bob"));
    repo.add_study(study("s3", "ada"));
    let uids = |v: Vec<&StudySet>| v.iter().map(|s| s.uid.clone()).collect::<Vec<_>>();
    assert_eq!(uids(repo.get_studies_by_patient("ada")), vec!["s1", "s3"]);
    assert_eq!(uids(repo.get_studies_by_patient("bob")), vec!["s2"]);
    assert!(repo.get_studies_by_patient("zed").is_empty());
    assert_eq!(repo.get_series_by_study("study").len(), 1);
    assert_eq!(repo.get_series_by_study("study")[0].uid, SERIES);
    assert!(repo.get_series_by_study("other").is_empty());
    let images = repo.get_images_by_series(SERIES);
    assert_eq!(images.len(), 2);
    assert_eq!(images[1].uid, "b");
    repo.add_ct_image(slice("a", 7.0, &[1; 4]));
    let images = repo.get_images_by_series(SERIES);
    assert_eq!(images.len(), 2);
    assert_eq!(images[0].image_position_patient.unwrap().2, Real(7.0));
}

#[test]
fn table_finds_the_first_row_with_a_key() {
    let mut table: Table<ImageSeries> = Table::new();
    assert_eq!(table.len(), 0);
    table.upsert(series("x"));
    table.upsert(series("y"));
    table.upsert(series("x"));
    assert_eq!(table.len(), 2);
    assert_eq!(table.find(&"y".to_string()), Some(1));
    assert_eq!(table.find(&"z".to_string()), None);
    assert_eq!(table.row(0).key(), "x");
    assert_eq!(table.row(0).parent(), "study");
    assert_eq!(table.get(&"y".to_string()).unwrap().uid, "y");
    assert_eq!(table.children_of(&"study".to_string()), vec![0, 1]);
    assert_eq!(table.members_of(&"study".to_string()).len(), 2);
    assert_eq!(table.all().len(), 2);
}

#[test]
fn structure_of_no_file_is_empty() {
    let structure = DCMStructure::default();
    assert_eq!(
        format!("{:?}", structure),
        format!("{:?}", DCMStructure::default())
    );
    assert!(format!("{:?}", structure).contains("patients"));
}
