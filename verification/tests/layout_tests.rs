use uefi_file_info::info::{
    FileAttribute, FileInfo, FileInfoCreationError, FileSystemInfo, FileSystemVolumeLabel,
};
use uefi_file_info::region::RawRegion;
use uefi_file_info::time::{Daylight, Time, TimeParams};
use uefi_file_info::ucs2::CString16;

fn sample_time() -> Time {
    Time::new(TimeParams {
        year: 1970,
        month: 1,
        day: 1,
        hour: 0,
        minute: 0,
        second: 0,
        nanosecond: 0,
        time_zone: None,
        daylight: Daylight::in_daylight(),
    })
    .unwrap()
}

fn build_file_info(storage: &mut RawRegion) -> Result<FileInfo, FileInfoCreationError> {
    let t = sample_time();
    let name = CString16::try_from("test_name").unwrap();
    FileInfo::new(storage, 123, 456, t, t, t, FileAttribute::read_only(), &name)
}

// A record of this kind with the nine-unit name needs 80 + 20 = 100 bytes,
// rounded up to 104.
#[test]
fn file_info_exact_fit_succeeds() {
    let mut storage = RawRegion {
        base: 0,
        bytes: vec![0; 104],
    };
    let info = build_file_info(&mut storage).unwrap();
    assert_eq!(info.size(), 104);
}

#[test]
fn file_info_one_byte_short_fails_with_full_requirement() {
    let mut storage = RawRegion {
        base: 0,
        bytes: vec![0; 103],
    };
    let r = build_file_info(&mut storage);
    assert_eq!(r.unwrap_err(), FileInfoCreationError::InsufficientStorage(104));
}

#[test]
fn misaligned_base_is_trimmed_and_still_succeeds() {
    // A base three bytes past an eight-byte boundary costs five leading
    // bytes of the buffer.
    let mut storage = RawRegion {
        base: 3,
        bytes: vec![0; 109],
    };
    let info = build_file_info(&mut storage).unwrap();
    assert_eq!(info.size(), 104);
    // The trimmed leading bytes are untouched.
    assert_eq!(&storage.bytes[0..5], &[0, 0, 0, 0, 0]);
    // The stored size field begins at the aligned offset, little endian.
    assert_eq!(&storage.bytes[5..13], &[104, 0, 0, 0, 0, 0, 0, 0]);
}

#[test]
fn misaligned_base_fails_when_trimmed_length_is_short() {
    let mut storage = RawRegion {
        base: 3,
        bytes: vec![0; 108],
    };
    let r = build_file_info(&mut storage);
    assert_eq!(r.unwrap_err(), FileInfoCreationError::InsufficientStorage(104));
}

// A filesystem info record with the ten-unit name needs 36 + 22 = 58
// bytes, rounded up to 64.
#[test]
fn file_system_info_exact_fit_boundary() {
    let name = CString16::try_from("test_name2").unwrap();
    let mut fits = RawRegion {
        base: 8,
        bytes: vec![0; 64],
    };
    let info = FileSystemInfo::new(&mut fits, false, 1, 2, 3, &name).unwrap();
    assert_eq!(info.size(), 64);

    let mut short = RawRegion {
        base: 8,
        bytes: vec![0; 63],
    };
    let r = FileSystemInfo::new(&mut short, false, 1, 2, 3, &name);
    assert_eq!(r.unwrap_err(), FileInfoCreationError::InsufficientStorage(64));
}

// A volume label record has no header and two-byte alignment, so its size
// is exactly the null-terminated label: (9 + 1) * 2 = 20 bytes.
#[test]
fn volume_label_size_is_exactly_the_trailer() {
    let name = CString16::try_from("test_name").unwrap();
    let mut fits = RawRegion {
        base: 0,
        bytes: vec![0; 20],
    };
    assert!(FileSystemVolumeLabel::new(&mut fits, &name).is_ok());

    let mut short = RawRegion {
        base: 0,
        bytes: vec![0; 19],
    };
    let r = FileSystemVolumeLabel::new(&mut short, &name);
    assert_eq!(r.unwrap_err(), FileInfoCreationError::InsufficientStorage(20));
}

#[test]
fn volume_label_odd_base_is_trimmed_one_byte() {
    let name = CString16::try_from("AB").unwrap();
    let mut storage = RawRegion {
        base: 1,
        bytes: vec![0xff; 7],
    };
    FileSystemVolumeLabel::new(&mut storage, &name).unwrap();
    // One trimmed byte, then the two units and the terminator, little
    // endian, byte for byte.
    assert_eq!(storage.bytes, vec![0xff, 0x41, 0x00, 0x42, 0x00, 0x00, 0x00]);
}

#[test]
fn empty_name_still_carries_its_terminator() {
    let name = CString16::new_empty();
    let mut storage = RawRegion {
        base: 0,
        bytes: vec![0; 88],
    };
    let t = sample_time();
    let info = FileInfo::new(
        &mut storage,
        0,
        0,
        t,
        t,
        t,
        FileAttribute::empty(),
        &name,
    )
    .unwrap();
    // 80 header bytes plus one null unit: 82, rounded up to 88.
    assert_eq!(info.size(), 88);
    assert_eq!(info.file_name().num_units(), 0);
}

#[test]
fn oversized_buffer_leaves_the_slack_untouched() {
    let name = CString16::try_from("AB").unwrap();
    let mut storage = RawRegion {
        base: 0,
        bytes: vec![0xee; 10],
    };
    FileSystemVolumeLabel::new(&mut storage, &name).unwrap();
    assert_eq!(
        storage.bytes,
        vec![0x41, 0x00, 0x42, 0x00, 0x00, 0x00, 0xee, 0xee, 0xee, 0xee]
    );
}

#[test]
fn header_fields_sit_at_their_documented_offsets() {
    let mut storage = RawRegion {
        base: 0,
        bytes: vec![0; 104],
    };
    build_file_info(&mut storage).unwrap();
    // Stored size 104 at offset 0, file size 123 at 8, physical size 456
    // at 16, all little endian.
    assert_eq!(&storage.bytes[0..8], &[104, 0, 0, 0, 0, 0, 0, 0]);
    assert_eq!(&storage.bytes[8..16], &[123, 0, 0, 0, 0, 0, 0, 0]);
    assert_eq!(&storage.bytes[16..24], &[200, 1, 0, 0, 0, 0, 0, 0]);
    // Create time at 24: year 1970 little endian, then month and day.
    assert_eq!(&storage.bytes[24..28], &[0xb2, 0x07, 1, 1]);
    // Time zone bits at 36: the local-time marker 0x07ff.
    assert_eq!(&storage.bytes[36..38], &[0xff, 0x07]);
    // Read-only attribute bit at 72.
    assert_eq!(&storage.bytes[72..80], &[1, 0, 0, 0, 0, 0, 0, 0]);
    // Name trailer at 80: 't' as a little-endian code unit.
    assert_eq!(&storage.bytes[80..84], &[0x74, 0x00, 0x65, 0x00]);
    // Terminator after the nine units, then rounding padding.
    assert_eq!(&storage.bytes[98..104], &[0, 0, 0, 0, 0, 0]);
}

#[test]
fn filesystem_header_fields_sit_at_their_documented_offsets() {
    let name = CString16::try_from("X").unwrap();
    let mut storage = RawRegion {
        base: 0,
        bytes: vec![0; 40],
    };
    FileSystemInfo::new(&mut storage, true, 0x0102, 0x0304, 0x0506, &name).unwrap();
    assert_eq!(&storage.bytes[0..8], &[40, 0, 0, 0, 0, 0, 0, 0]);
    assert_eq!(storage.bytes[8], 1);
    assert_eq!(&storage.bytes[16..24], &[0x02, 0x01, 0, 0, 0, 0, 0, 0]);
    assert_eq!(&storage.bytes[24..32], &[0x04, 0x03, 0, 0, 0, 0, 0, 0]);
    assert_eq!(&storage.bytes[32..36], &[0x06, 0x05, 0, 0]);
    assert_eq!(&storage.bytes[36..40], &[0x58, 0x00, 0x00, 0x00]);
}
