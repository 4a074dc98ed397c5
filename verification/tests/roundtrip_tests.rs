use uefi_file_info::info::{
    FileAttribute, FileInfo, FileSystemInfo, FileSystemVolumeLabel,
};
use uefi_file_info::region::RawRegion;
use uefi_file_info::time::{Daylight, Time, TimeError, TimeParams};
use uefi_file_info::ucs2::{CString16, Ucs2Error};

#[test]
fn file_info_reconstruction_recovers_the_record() {
    let mut storage = RawRegion {
        base: 0,
        bytes: vec![0; 128],
    };
    let tp = TimeParams {
        year: 2024,
        month: 2,
        day: 29,
        hour: 23,
        minute: 59,
        second: 58,
        nanosecond: 999_999_999,
        time_zone: Some(-90),
        daylight: Daylight::adjust_daylight(),
    };
    let t = Time::new(tp).unwrap();
    let name = CString16::try_from("rebuilt").unwrap();
    let built = FileInfo::new(
        &mut storage,
        77,
        88,
        t,
        t,
        t,
        FileAttribute::read_only(),
        &name,
    )
    .unwrap();

    let seen = FileInfo::from_uefi(&storage, 0);
    assert_eq!(seen.size(), built.size());
    assert_eq!(seen.file_size(), built.file_size());
    assert_eq!(seen.physical_size(), built.physical_size());
    assert_eq!(seen.create_time(), built.create_time());
    assert_eq!(seen.last_access_time(), built.last_access_time());
    assert_eq!(seen.modification_time(), built.modification_time());
    assert_eq!(seen.attribute(), built.attribute());
    assert_eq!(seen.file_name(), built.file_name());
    assert_eq!(seen.file_name().num_units(), 7);
}

#[test]
fn file_system_info_reconstruction_recovers_the_record() {
    let mut storage = RawRegion {
        base: 4,
        bytes: vec![0; 128],
    };
    let name = CString16::try_from("volume").unwrap();
    let built = FileSystemInfo::new(&mut storage, true, 11, 22, 33, &name).unwrap();

    // The builder trimmed four leading bytes to reach an eight-byte
    // boundary; the record begins there.
    let seen = FileSystemInfo::from_uefi(&storage, 4);
    assert_eq!(seen.size(), built.size());
    assert_eq!(seen.read_only(), built.read_only());
    assert_eq!(seen.volume_size(), built.volume_size());
    assert_eq!(seen.free_space(), built.free_space());
    assert_eq!(seen.block_size(), built.block_size());
    assert_eq!(seen.volume_label(), built.volume_label());
}

#[test]
fn volume_label_reconstruction_recovers_the_label() {
    let mut storage = RawRegion {
        base: 0,
        bytes: vec![0; 32],
    };
    let name = CString16::try_from("label").unwrap();
    FileSystemVolumeLabel::new(&mut storage, &name).unwrap();

    let seen = FileSystemVolumeLabel::from_uefi(&storage, 0);
    assert_eq!(seen.volume_label(), &name);
}

#[test]
fn try_from_rejects_an_interior_nul() {
    let r = CString16::try_from("a\u{0}b");
    assert_eq!(r.unwrap_err(), Ucs2Error::InteriorNul);
}

#[test]
fn try_from_rejects_a_character_beyond_one_unit() {
    let r = CString16::try_from("a\u{10000}");
    assert_eq!(r.unwrap_err(), Ucs2Error::Unrepresentable);
}

#[test]
fn try_from_keeps_each_code_unit() {
    let s = CString16::try_from("Az\u{00e9}\u{4e2d}").unwrap();
    assert_eq!(s.as_units(), &vec![0x41, 0x7a, 0xe9, 0x4e2d]);
}

#[test]
fn from_u16_vec_rejects_a_nul_unit() {
    let r = CString16::from_u16_vec(vec![0x41, 0, 0x42]);
    assert_eq!(r.unwrap_err(), Ucs2Error::InteriorNul);
    let ok = CString16::from_u16_vec(vec![0x41, 0x42]).unwrap();
    assert_eq!(ok.num_units(), 2);
}

#[test]
fn time_new_rejects_out_of_range_fields() {
    let tp = TimeParams {
        year: 1899,
        month: 1,
        day: 1,
        hour: 0,
        minute: 0,
        second: 0,
        nanosecond: 0,
        time_zone: None,
        daylight: Daylight::empty(),
    };
    assert_eq!(Time::new(tp).unwrap_err(), TimeError::OutOfRange);
    let bad_zone = TimeParams {
        year: 2000,
        time_zone: Some(2000),
        ..tp
    };
    assert_eq!(Time::new(bad_zone).unwrap_err(), TimeError::OutOfRange);
    let good = TimeParams { year: 2000, ..tp };
    let t = Time::new(good).unwrap();
    assert_eq!(t.year, 2000);
    assert_eq!(t.time_zone, 0x07ff);
}
