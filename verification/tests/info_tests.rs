use uefi_file_info::info::{
    FileAttribute, FileInfo, FileProtocolInfo, FileSystemInfo, FileSystemVolumeLabel,
};
use uefi_file_info::region::RawRegion;
use uefi_file_info::time::{Daylight, Time, TimeParams};
use uefi_file_info::ucs2::CString16;

#[test]
fn test_file_info() {
    let mut storage = RawRegion {
        base: 0,
        bytes: vec![0; 128],
    };

    let file_size = 123;
    let physical_size = 456;
    let tp = TimeParams {
        year: 1970,
        month: 1,
        day: 1,
        hour: 0,
        minute: 0,
        second: 0,
        nanosecond: 0,
        time_zone: None,
        daylight: Daylight::in_daylight(),
    };
    let create_time = Time::new(tp).unwrap();
    let last_access_time = Time::new(TimeParams { year: 1971, ..tp }).unwrap();
    let modification_time = Time::new(TimeParams { year: 1972, ..tp }).unwrap();
    let attribute = FileAttribute::read_only();
    let name = CString16::try_from("test_name").unwrap();
    let info = FileInfo::new(
        &mut storage,
        file_size,
        physical_size,
        create_time,
        last_access_time,
        modification_time,
        attribute,
        &name,
    )
    .unwrap();

    assert_eq!(FileInfo::alignment(), 8);
    assert_eq!(FileInfo::name_offset(), 80);

    //   Header size: 80 bytes
    // + Name size (including trailing null): 20 bytes
    // = 100
    // Round size up to match the kind's alignment of 8: 104
    assert_eq!(info.size, 104);
    assert_eq!(info.size(), 104);

    assert_eq!(info.file_size(), file_size);
    assert_eq!(info.physical_size(), physical_size);
    assert_eq!(info.create_time(), &create_time);
    assert_eq!(info.last_access_time(), &last_access_time);
    assert_eq!(info.modification_time(), &modification_time);
    assert_eq!(info.attribute(), attribute);
    assert_eq!(info.file_name(), &name);
}

#[test]
fn test_file_system_info() {
    let mut storage = RawRegion {
        base: 0,
        bytes: vec![0; 128],
    };

    let read_only = true;
    let volume_size = 123;
    let free_space = 456;
    let block_size = 789;
    let name = CString16::try_from("test_name2").unwrap();
    let info = FileSystemInfo::new(
        &mut storage,
        read_only,
        volume_size,
        free_space,
        block_size,
        &name,
    )
    .unwrap();

    assert_eq!(FileSystemInfo::alignment(), 8);
    assert_eq!(FileSystemInfo::name_offset(), 36);

    //   Header size: 36 bytes
    // + Name size (including trailing null): 22 bytes
    // = 58
    // Round size up to match the kind's alignment of 8: 64
    assert_eq!(info.size, 64);
    assert_eq!(info.size(), 64);

    assert_eq!(info.read_only, read_only);
    assert_eq!(info.volume_size, volume_size);
    assert_eq!(info.free_space, free_space);
    assert_eq!(info.block_size, block_size);
    assert_eq!(info.volume_label(), &name);
}

#[test]
fn test_file_system_volume_label() {
    let mut storage = RawRegion {
        base: 0,
        bytes: vec![0; 128],
    };

    let name = CString16::try_from("test_name").unwrap();
    let info = FileSystemVolumeLabel::new(&mut storage, &name).unwrap();

    assert_eq!(FileSystemVolumeLabel::alignment(), 2);
    assert_eq!(FileSystemVolumeLabel::name_offset(), 0);

    assert_eq!(info.volume_label(), &name);
}

#[test]
fn is_directory_follows_the_attribute_bit() {
    let mut storage = RawRegion {
        base: 0,
        bytes: vec![0; 128],
    };
    let tp = TimeParams {
        year: 2000,
        month: 6,
        day: 15,
        hour: 12,
        minute: 30,
        second: 45,
        nanosecond: 7,
        time_zone: Some(60),
        daylight: Daylight::empty(),
    };
    let t = Time::new(tp).unwrap();
    let name = CString16::try_from("dir").unwrap();
    let info = FileInfo::new(
        &mut storage,
        0,
        0,
        t,
        t,
        t,
        FileAttribute::directory(),
        &name,
    )
    .unwrap();
    assert!(info.is_directory());
    assert!(!info.is_regular_file());

    let mut storage2 = RawRegion {
        base: 0,
        bytes: vec![0; 128],
    };
    let info2 = FileInfo::new(
        &mut storage2,
        0,
        0,
        t,
        t,
        t,
        FileAttribute::empty(),
        &name,
    )
    .unwrap();
    assert!(!info2.is_directory());
    assert!(info2.is_regular_file());
}

#[test]
fn guids_are_distinct_fixed_constants() {
    let a = FileInfo::guid();
    let b = FileSystemInfo::guid();
    let c = FileSystemVolumeLabel::guid();
    assert_eq!(
        a,
        [
            0x92, 0x6e, 0x57, 0x09, 0x3f, 0x6d, 0xd2, 0x11, 0x8e, 0x39, 0x00, 0xa0, 0xc9, 0x69,
            0x72, 0x3b
        ]
    );
    assert_eq!(
        b,
        [
            0x93, 0x6e, 0x57, 0x09, 0x3f, 0x6d, 0xd2, 0x11, 0x8e, 0x39, 0x00, 0xa0, 0xc9, 0x69,
            0x72, 0x3b
        ]
    );
    assert_eq!(
        c,
        [
            0xd3, 0xd7, 0x47, 0xdb, 0x81, 0xfe, 0xd3, 0x11, 0x9a, 0x35, 0x00, 0x90, 0x27, 0x3f,
            0xc1, 0x4d
        ]
    );
    assert_ne!(a, b);
    assert_ne!(a, c);
    assert_ne!(b, c);
}
