//! The three record kinds: general file info, filesystem info, and the
//! volume label.
//!
//! Each kind is built in place inside a caller-supplied [`RawRegion`]: the
//! region is trimmed to the kind's alignment, checked against the exact
//! rounded record size, and then the header fields and the null-terminated
//! UCS-2 name trailer are written. A previously built record is
//! reconstructed from its bytes by scanning the trailer for the terminator
//! to recover the name length.

use crate::layout::{
    align_offset, lemma_record_size_invariant, record_size, spec_align_offset, spec_record_size,
};
use crate::region::{
    lemma_agree_u16, lemma_agree_u32, lemma_agree_u64, u16_at, u32_at, u64_at, RawRegion,
};
use crate::time::{lemma_agree_time, read_time_at, time_at, write_time_at, Time};
use crate::ucs2::CString16;
use vstd::prelude::*;

verus! {

/// Byte offset of the name trailer of a general file info record.
pub const FILE_INFO_NAME_OFFSET: usize = 80;

/// Required base alignment of a general file info record.
pub const FILE_INFO_ALIGNMENT: usize = 8;

/// Byte offset of the name trailer of a filesystem info record.
pub const FILE_SYSTEM_INFO_NAME_OFFSET: usize = 36;

/// Required base alignment of a filesystem info record.
pub const FILE_SYSTEM_INFO_ALIGNMENT: usize = 8;

/// Byte offset of the name trailer of a volume label record.
pub const VOLUME_LABEL_NAME_OFFSET: usize = 0;

/// Required base alignment of a volume label record.
pub const VOLUME_LABEL_ALIGNMENT: usize = 2;

/// Attribute bit of a file that may only be read.
pub const ATTRIBUTE_READ_ONLY: u64 = 0x1;

/// Attribute bit of a hidden file.
pub const ATTRIBUTE_HIDDEN: u64 = 0x2;

/// Attribute bit of a system file.
pub const ATTRIBUTE_SYSTEM: u64 = 0x4;

/// Attribute bit reserved by the record format.
pub const ATTRIBUTE_RESERVED: u64 = 0x8;

/// Attribute bit of a directory.
pub const ATTRIBUTE_DIRECTORY: u64 = 0x10;

/// Attribute bit of a file due for archiving.
pub const ATTRIBUTE_ARCHIVE: u64 = 0x20;

/// Why a record could not be built in the supplied region.
#[derive(Clone, Copy, Debug, PartialEq, Eq, Structural)]
pub enum FileInfoCreationError {
    /// The region, after alignment trimming, is shorter than the record.
    /// Carries the byte count a retry must supply from an aligned base.
    InsufficientStorage(usize),
}

/// Attribute bit flags of a general file record.
#[derive(Clone, Copy, Debug, PartialEq, Eq, Structural)]
pub struct FileAttribute {
    /// The raw attribute bits.
    pub bits: u64,
}

impl FileAttribute {
    /// No attribute bits set.
    pub fn empty() -> (r: FileAttribute)
        ensures
            r.bits == 0,
    {
        FileAttribute { bits: 0 }
    }

    /// The read-only attribute.
    pub fn read_only() -> (r: FileAttribute)
        ensures
            r.bits == ATTRIBUTE_READ_ONLY,
    {
        FileAttribute { bits: ATTRIBUTE_READ_ONLY }
    }

    /// The directory attribute.
    pub fn directory() -> (r: FileAttribute)
        ensures
            r.bits == ATTRIBUTE_DIRECTORY,
    {
        FileAttribute { bits: ATTRIBUTE_DIRECTORY }
    }

    /// Whether every bit of `other` is set in `self`.
    pub fn contains(&self, other: FileAttribute) -> (r: bool)
        ensures
            r == (self.bits & other.bits == other.bits),
    {
        self.bits & other.bits == other.bits
    }
}

/// Layout interface shared by the record kinds usable with the external
/// file object's info queries.
pub trait FileProtocolInfo {
    /// Required base alignment of the record kind.
    spec fn spec_alignment() -> int;

    /// Byte offset of the name trailer from the record's base.
    spec fn spec_name_offset() -> int;

    /// Required base alignment of the record kind.
    fn alignment() -> (r: usize)
        ensures
            r as int == Self::spec_alignment(),
            r > 0,
    ;

    /// Byte offset of the name trailer from the record's base.
    fn name_offset() -> (r: usize)
        ensures
            r as int == Self::spec_name_offset(),
    ;
}

/// The code unit stored at position `k` of a trailer that begins at byte
/// offset `off`.
pub open spec fn trailer_unit(bytes: Seq<u8>, off: int, k: int) -> u16 {
    u16_at(bytes, off + 2 * k)
}

/// The name trailer at byte offset `off`: each code unit of `name` in
/// order, then exactly one null unit.
pub open spec fn name_trailer_at(bytes: Seq<u8>, off: int, name: Seq<u16>) -> bool {
    &&& forall|i: int| 0 <= i < name.len() ==> #[trigger] trailer_unit(bytes, off, i) == name[i]
    &&& trailer_unit(bytes, off, name.len() as int) == 0
}

/// Some code unit at or after byte offset `off` is null.
pub open spec fn has_terminator(bytes: Seq<u8>, off: int) -> bool {
    exists|i: int|
        0 <= i && off + 2 * i + 2 <= bytes.len() && #[trigger] trailer_unit(bytes, off, i) == 0
}

/// A name trailer always ends in a terminator, so every record a builder
/// has finished meets the reconstruction scan's precondition.
pub proof fn lemma_trailer_has_terminator(bytes: Seq<u8>, off: int, name: Seq<u16>)
    requires
        0 <= off,
        off + 2 * name.len() + 2 <= bytes.len(),
        name_trailer_at(bytes, off, name),
    ensures
        has_terminator(bytes, off),
{
    assert(trailer_unit(bytes, off, name.len() as int) == 0);
}

/// Writes the code units of `name` and the terminator at offset `off`,
/// touching nothing else.
fn write_name_at(region: &mut RawRegion, off: usize, name: &CString16)
    requires
        off + 2 * (name@.len() + 1) <= old(region).bytes@.len(),
    ensures
        final(region).base == old(region).base,
        final(region).bytes@.len() == old(region).bytes@.len(),
        name_trailer_at(final(region).bytes@, off as int, name@),
        forall|j: int|
            0 <= j < old(region).bytes@.len() && !(off <= j < off + 2 * (name@.len() + 1))
                ==> final(region).bytes@[j] == old(region).bytes@[j],
{
    let n = region.len();
    let units = name.num_units();
    let mut i: usize = 0;
    while i < units
        invariant
            i <= units,
            units == name@.len(),
            off + 2 * (units + 1) <= n,
            region.base == old(region).base,
            region.bytes@.len() == n,
            n == old(region).bytes@.len(),
            forall|k: int|
                0 <= k < i ==> #[trigger] trailer_unit(region.bytes@, off as int, k) == name@[k],
            forall|j: int|
                0 <= j < n && !(off <= j < off + 2 * i)
                    ==> region.bytes@[j] == old(region).bytes@[j],
        decreases units - i,
    {
        let ghost before = region.bytes@;
        region.write_u16_at(off + 2 * i, name.unit(i));
        proof {
            assert forall|k: int|
                0 <= k < i implies #[trigger] trailer_unit(region.bytes@, off as int, k)
                == name@[k] by {
                assert(trailer_unit(before, off as int, k) == name@[k]);
                lemma_agree_u16(region.bytes@, before, off as int + 2 * k);
            }
            assert(trailer_unit(region.bytes@, off as int, i as int) == name@[i as int]);
        }
        i = i + 1;
    }
    let ghost before = region.bytes@;
    region.write_u16_at(off + 2 * units, 0);
    proof {
        assert forall|k: int|
            0 <= k < units implies #[trigger] trailer_unit(region.bytes@, off as int, k)
            == name@[k] by {
            assert(trailer_unit(before, off as int, k) == name@[k]);
            lemma_agree_u16(region.bytes@, before, off as int + 2 * k);
        }
        assert(trailer_unit(region.bytes@, off as int, units as int) == 0);
    }
}

/// Number of code units before the first null unit at or after offset
/// `off`. This is how a record's extent is recovered when only its base
/// address is known.
fn scan_name_len(region: &RawRegion, off: usize) -> (n: usize)
    requires
        has_terminator(region.bytes@, off as int),
    ensures
        off + 2 * n + 2 <= region.bytes@.len(),
        forall|k: int| 0 <= k < n ==> #[trigger] trailer_unit(region.bytes@, off as int, k) != 0,
        trailer_unit(region.bytes@, off as int, n as int) == 0,
{
    let total = region.len();
    let ghost w = choose|i: int|
        0 <= i && off + 2 * i + 2 <= region.bytes@.len() && #[trigger] trailer_unit(
            region.bytes@,
            off as int,
            i,
        ) == 0;
    let mut i: usize = 0;
    loop
        invariant
            0 <= i <= w,
            off + 2 * w + 2 <= region.bytes@.len(),
            region.bytes@.len() == total,
            trailer_unit(region.bytes@, off as int, w) == 0,
            forall|k: int|
                0 <= k < i ==> #[trigger] trailer_unit(region.bytes@, off as int, k) != 0,
        decreases w - i,
    {
        let v = region.read_u16_at(off + 2 * i);
        assert(v == trailer_unit(region.bytes@, off as int, i as int));
        if v == 0 {
            return i;
        }
        i = i + 1;
    }
}

/// Reads the `n` code units that precede the terminator at offset `off`.
fn read_name_at(region: &RawRegion, off: usize, n: usize) -> (name: CString16)
    requires
        off + 2 * n + 2 <= region.bytes@.len(),
        forall|k: int| 0 <= k < n ==> #[trigger] trailer_unit(region.bytes@, off as int, k) != 0,
        trailer_unit(region.bytes@, off as int, n as int) == 0,
    ensures
        name@.len() == n,
        name.wf(),
        name_trailer_at(region.bytes@, off as int, name@),
{
    let total = region.len();
    let mut units: Vec<u16> = Vec::new();
    let mut i: usize = 0;
    while i < n
        invariant
            i <= n,
            off + 2 * n + 2 <= total,
            region.bytes@.len() == total,
            units@.len() == i as int,
            forall|k: int|
                0 <= k < n ==> #[trigger] trailer_unit(region.bytes@, off as int, k) != 0,
            forall|k: int|
                0 <= k < i ==> units@[k] == #[trigger] trailer_unit(region.bytes@, off as int, k),
            forall|k: int| 0 <= k < i ==> units@[k] != 0,
        decreases n - i,
    {
        units.push(region.read_u16_at(off + 2 * i));
        assert(units@[i as int] == trailer_unit(region.bytes@, off as int, i as int));
        i = i + 1;
    }
    CString16::from_units_unchecked(units)
}

/// Generic file information: sizes, timestamps, attribute bits, and the
/// file's name.
#[derive(Debug)]
pub struct FileInfo {
    /// Total record size in bytes, as stored in the header: the occupied
    /// length rounded up to the kind's alignment.
    pub size: u64,
    /// Number of bytes stored in the file.
    pub file_size: u64,
    /// Physical space the file consumes on the volume.
    pub physical_size: u64,
    /// When the file was created.
    pub create_time: Time,
    /// When the file was last accessed.
    pub last_access_time: Time,
    /// When the file's contents were last modified.
    pub modification_time: Time,
    /// Attribute bit flags.
    pub attribute: FileAttribute,
    /// The file's name.
    pub file_name: CString16,
}

/// Total byte length of a general file info record whose name holds
/// `name_len` code units before the terminator.
pub open spec fn spec_file_info_size(name_len: int) -> int {
    spec_record_size(FILE_INFO_NAME_OFFSET as int, name_len + 1, FILE_INFO_ALIGNMENT as int)
}

/// The header fields and name trailer of `info` as stored at byte offset
/// `start`.
pub open spec fn file_info_encoded(bytes: Seq<u8>, start: int, info: FileInfo) -> bool {
    &&& u64_at(bytes, start) == info.size
    &&& u64_at(bytes, start + 8) == info.file_size
    &&& u64_at(bytes, start + 16) == info.physical_size
    &&& time_at(bytes, start + 24) == info.create_time
    &&& time_at(bytes, start + 40) == info.last_access_time
    &&& time_at(bytes, start + 56) == info.modification_time
    &&& u64_at(bytes, start + 72) == info.attribute.bits
    &&& name_trailer_at(bytes, start + 80, info.file_name@)
}

impl FileInfo {
    /// Builds a general file info record inside `storage`.
    ///
    /// The region is first trimmed so its base satisfies the kind's
    /// alignment; construction succeeds exactly when the trimmed remainder
    /// holds the rounded record size, and fails with that size otherwise.
    /// On success the header fields and the null-terminated name stand in
    /// the region, no byte outside the record is touched, and the returned
    /// record carries the supplied values with the stored total size.
    #[allow(clippy::too_many_arguments)]
    pub fn new(
        storage: &mut RawRegion,
        file_size: u64,
        physical_size: u64,
        create_time: Time,
        last_access_time: Time,
        modification_time: Time,
        attribute: FileAttribute,
        file_name: &CString16,
    ) -> (r: Result<FileInfo, FileInfoCreationError>)
        requires
            FILE_INFO_NAME_OFFSET + 2 * (file_name@.len() + 1) + FILE_INFO_ALIGNMENT
                <= usize::MAX,
        ensures
            r is Ok <==> old(storage).bytes@.len() >= spec_align_offset(
                old(storage).base as int,
                FILE_INFO_ALIGNMENT as int,
            ) + spec_file_info_size(file_name@.len() as int),
            r matches Err(e) ==> {
                &&& e == FileInfoCreationError::InsufficientStorage(
                    spec_file_info_size(file_name@.len() as int) as usize,
                )
                &&& final(storage).base == old(storage).base
                &&& final(storage).bytes@ == old(storage).bytes@
            },
            r matches Ok(info) ==> {
                let pad = spec_align_offset(old(storage).base as int, FILE_INFO_ALIGNMENT as int);
                let total = spec_file_info_size(file_name@.len() as int);
                &&& info.size == total
                &&& info.file_size == file_size
                &&& info.physical_size == physical_size
                &&& info.create_time == create_time
                &&& info.last_access_time == last_access_time
                &&& info.modification_time == modification_time
                &&& info.attribute == attribute
                &&& info.file_name@ == file_name@
                &&& final(storage).base == old(storage).base
                &&& final(storage).bytes@.len() == old(storage).bytes@.len()
                &&& file_info_encoded(final(storage).bytes@, pad, info)
                &&& forall|j: int|
                    0 <= j < old(storage).bytes@.len() && !(pad <= j < pad
                        + FILE_INFO_NAME_OFFSET + 2 * (file_name@.len() + 1))
                        ==> final(storage).bytes@[j] == old(storage).bytes@[j]
            },
    {
        let name_units = file_name.num_units();
        let total = record_size(FILE_INFO_NAME_OFFSET, name_units + 1, FILE_INFO_ALIGNMENT);
        let pad = align_offset(storage.base, FILE_INFO_ALIGNMENT);
        let len = storage.len();
        proof {
            lemma_record_size_invariant(
                FILE_INFO_NAME_OFFSET as int,
                name_units as int + 1,
                FILE_INFO_ALIGNMENT as int,
            );
        }
        if len < pad || len - pad < total {
            return Err(FileInfoCreationError::InsufficientStorage(total));
        }
        storage.write_u64_at(pad, total as u64);
        let ghost b_size = storage.bytes@;
        storage.write_u64_at(pad + 8, file_size);
        let ghost b_fsize = storage.bytes@;
        storage.write_u64_at(pad + 16, physical_size);
        let ghost b_psize = storage.bytes@;
        write_time_at(storage, pad + 24, &create_time);
        let ghost b_create = storage.bytes@;
        write_time_at(storage, pad + 40, &last_access_time);
        let ghost b_access = storage.bytes@;
        write_time_at(storage, pad + 56, &modification_time);
        let ghost b_modify = storage.bytes@;
        storage.write_u64_at(pad + 72, attribute.bits);
        let ghost b_attr = storage.bytes@;
        write_name_at(storage, pad + FILE_INFO_NAME_OFFSET, file_name);
        proof {
            lemma_agree_u64(storage.bytes@, b_size, pad as int);
            lemma_agree_u64(storage.bytes@, b_fsize, pad as int + 8);
            lemma_agree_u64(storage.bytes@, b_psize, pad as int + 16);
            lemma_agree_time(storage.bytes@, b_create, pad as int + 24);
            lemma_agree_time(storage.bytes@, b_access, pad as int + 40);
            lemma_agree_time(storage.bytes@, b_modify, pad as int + 56);
            lemma_agree_u64(storage.bytes@, b_attr, pad as int + 72);
        }
        Ok(
            FileInfo {
                size: total as u64,
                file_size,
                physical_size,
                create_time,
                last_access_time,
                modification_time,
                attribute,
                file_name: file_name.clone(),
            },
        )
    }

    /// Reconstructs a record from the bytes of a region that holds one at
    /// byte offset `offset`, recovering the name length by scanning for
    /// the terminator. The caller must ensure a fully built record of this
    /// kind stands there; the scan itself needs only a terminator.
    pub fn from_uefi(region: &RawRegion, offset: usize) -> (info: FileInfo)
        requires
            has_terminator(region.bytes@, offset as int + FILE_INFO_NAME_OFFSET),
        ensures
            file_info_encoded(region.bytes@, offset as int, info),
            info.file_name.wf(),
    {
        let total = region.len();
        proof {
            assert(offset + FILE_INFO_NAME_OFFSET + 2 <= total);
        }
        let n = scan_name_len(region, offset + FILE_INFO_NAME_OFFSET);
        let file_name = read_name_at(region, offset + FILE_INFO_NAME_OFFSET, n);
        FileInfo {
            size: region.read_u64_at(offset),
            file_size: region.read_u64_at(offset + 8),
            physical_size: region.read_u64_at(offset + 16),
            create_time: read_time_at(region, offset + 24),
            last_access_time: read_time_at(region, offset + 40),
            modification_time: read_time_at(region, offset + 56),
            attribute: FileAttribute { bits: region.read_u64_at(offset + 72) },
            file_name,
        }
    }

    /// File size: the number of bytes stored in the file.
    pub fn file_size(&self) -> (r: u64)
        ensures
            r == self.file_size,
    {
        self.file_size
    }

    /// Physical space consumed by the file on the volume.
    pub fn physical_size(&self) -> (r: u64)
        ensures
            r == self.physical_size,
    {
        self.physical_size
    }

    /// Time when the file was created.
    pub fn create_time(&self) -> (r: &Time)
        ensures
            *r == self.create_time,
    {
        &self.create_time
    }

    /// Time when the file was last accessed.
    pub fn last_access_time(&self) -> (r: &Time)
        ensures
            *r == self.last_access_time,
    {
        &self.last_access_time
    }

    /// Time when the file's contents were last modified.
    pub fn modification_time(&self) -> (r: &Time)
        ensures
            *r == self.modification_time,
    {
        &self.modification_time
    }

    /// Attribute bits of the file.
    pub fn attribute(&self) -> (r: FileAttribute)
        ensures
            r == self.attribute,
    {
        self.attribute
    }

    /// Name of the file.
    pub fn file_name(&self) -> (r: &CString16)
        ensures
            r@ == self.file_name@,
    {
        &self.file_name
    }

    /// Stored total record size in bytes.
    pub fn size(&self) -> (r: u64)
        ensures
            r == self.size,
    {
        self.size
    }

    /// Whether the record describes a directory.
    pub fn is_directory(&self) -> (r: bool)
        ensures
            r == (self.attribute.bits & ATTRIBUTE_DIRECTORY == ATTRIBUTE_DIRECTORY),
    {
        self.attribute.contains(FileAttribute::directory())
    }

    /// Whether the record describes a regular file.
    pub fn is_regular_file(&self) -> (r: bool)
        ensures
            r == (self.attribute.bits & ATTRIBUTE_DIRECTORY != ATTRIBUTE_DIRECTORY),
    {
        !self.is_directory()
    }
}

impl FileProtocolInfo for FileInfo {
    open spec fn spec_alignment() -> int {
        FILE_INFO_ALIGNMENT as int
    }

    open spec fn spec_name_offset() -> int {
        FILE_INFO_NAME_OFFSET as int
    }

    fn alignment() -> usize {
        FILE_INFO_ALIGNMENT
    }

    fn name_offset() -> usize {
        FILE_INFO_NAME_OFFSET
    }
}

/// Any two records of this kind encoded over the same bytes at the same
/// offset carry the same field values and the same name, so reconstruction
/// recovers exactly what construction stored.
pub proof fn lemma_file_info_reconstruction(
    bytes: Seq<u8>,
    start: int,
    a: FileInfo,
    b: FileInfo,
)
    requires
        file_info_encoded(bytes, start, a),
        file_info_encoded(bytes, start, b),
        a.file_name.wf(),
        b.file_name.wf(),
    ensures
        a.size == b.size,
        a.file_size == b.file_size,
        a.physical_size == b.physical_size,
        a.create_time == b.create_time,
        a.last_access_time == b.last_access_time,
        a.modification_time == b.modification_time,
        a.attribute == b.attribute,
        a.file_name@ == b.file_name@,
{
    lemma_trailer_unique(bytes, start + 80, a.file_name@, b.file_name@);
}

/// Two null-terminated trailers stored at the same offset, neither holding
/// an interior null, are the same sequence of code units.
pub proof fn lemma_trailer_unique(bytes: Seq<u8>, off: int, a: Seq<u16>, b: Seq<u16>)
    requires
        name_trailer_at(bytes, off, a),
        name_trailer_at(bytes, off, b),
        forall|i: int| 0 <= i < a.len() ==> a[i] != 0,
        forall|i: int| 0 <= i < b.len() ==> b[i] != 0,
    ensures
        a == b,
{
    if a.len() < b.len() {
        assert(trailer_unit(bytes, off, a.len() as int) == 0);
        assert(b[a.len() as int] != 0);
        assert(trailer_unit(bytes, off, a.len() as int) == b[a.len() as int]);
    }
    if b.len() < a.len() {
        assert(trailer_unit(bytes, off, b.len() as int) == 0);
        assert(a[b.len() as int] != 0);
        assert(trailer_unit(bytes, off, b.len() as int) == a[b.len() as int]);
    }
    assert forall|i: int| 0 <= i < a.len() implies a[i] == b[i] by {
        assert(trailer_unit(bytes, off, i) == a[i]);
        assert(trailer_unit(bytes, off, i) == b[i]);
    }
    assert(a =~= b);
}

/// System volume information: sizes and flags of the volume, and its
/// label.
#[derive(Debug)]
pub struct FileSystemInfo {
    /// Total record size in bytes, as stored in the header: the occupied
    /// length rounded up to the kind's alignment.
    pub size: u64,
    /// Whether the volume only supports read access.
    pub read_only: bool,
    /// Number of bytes managed by the file system.
    pub volume_size: u64,
    /// Number of bytes available for use by the file system.
    pub free_space: u64,
    /// Nominal block size by which files are typically grown.
    pub block_size: u32,
    /// The volume's label.
    pub volume_label: CString16,
}

/// Total byte length of a filesystem info record whose label holds
/// `name_len` code units before the terminator.
pub open spec fn spec_file_system_info_size(name_len: int) -> int {
    spec_record_size(
        FILE_SYSTEM_INFO_NAME_OFFSET as int,
        name_len + 1,
        FILE_SYSTEM_INFO_ALIGNMENT as int,
    )
}

/// The header fields and label trailer of `info` as stored at byte offset
/// `start`.
pub open spec fn file_system_info_encoded(bytes: Seq<u8>, start: int, info: FileSystemInfo) -> bool {
    &&& u64_at(bytes, start) == info.size
    &&& bytes[start + 8] == (if info.read_only { 1u8 } else { 0u8 })
    &&& u64_at(bytes, start + 16) == info.volume_size
    &&& u64_at(bytes, start + 24) == info.free_space
    &&& u32_at(bytes, start + 32) == info.block_size
    &&& name_trailer_at(bytes, start + 36, info.volume_label@)
}

impl FileSystemInfo {
    /// Builds a filesystem info record inside `storage`.
    ///
    /// The region is first trimmed so its base satisfies the kind's
    /// alignment; construction succeeds exactly when the trimmed remainder
    /// holds the rounded record size, and fails with that size otherwise.
    /// On success the header fields and the null-terminated label stand in
    /// the region, no byte outside the record is touched, and the returned
    /// record carries the supplied values with the stored total size.
    pub fn new(
        storage: &mut RawRegion,
        read_only: bool,
        volume_size: u64,
        free_space: u64,
        block_size: u32,
        volume_label: &CString16,
    ) -> (r: Result<FileSystemInfo, FileInfoCreationError>)
        requires
            FILE_SYSTEM_INFO_NAME_OFFSET + 2 * (volume_label@.len() + 1)
                + FILE_SYSTEM_INFO_ALIGNMENT <= usize::MAX,
        ensures
            r is Ok <==> old(storage).bytes@.len() >= spec_align_offset(
                old(storage).base as int,
                FILE_SYSTEM_INFO_ALIGNMENT as int,
            ) + spec_file_system_info_size(volume_label@.len() as int),
            r matches Err(e) ==> {
                &&& e == FileInfoCreationError::InsufficientStorage(
                    spec_file_system_info_size(volume_label@.len() as int) as usize,
                )
                &&& final(storage).base == old(storage).base
                &&& final(storage).bytes@ == old(storage).bytes@
            },
            r matches Ok(info) ==> {
                let pad = spec_align_offset(
                    old(storage).base as int,
                    FILE_SYSTEM_INFO_ALIGNMENT as int,
                );
                let total = spec_file_system_info_size(volume_label@.len() as int);
                &&& info.size == total
                &&& info.read_only == read_only
                &&& info.volume_size == volume_size
                &&& info.free_space == free_space
                &&& info.block_size == block_size
                &&& info.volume_label@ == volume_label@
                &&& final(storage).base == old(storage).base
                &&& final(storage).bytes@.len() == old(storage).bytes@.len()
                &&& file_system_info_encoded(final(storage).bytes@, pad, info)
                &&& forall|j: int|
                    0 <= j < old(storage).bytes@.len() && !(pad <= j < pad
                        + FILE_SYSTEM_INFO_NAME_OFFSET + 2 * (volume_label@.len() + 1))
                        ==> final(storage).bytes@[j] == old(storage).bytes@[j]
            },
    {
        let name_units = volume_label.num_units();
        let total = record_size(
            FILE_SYSTEM_INFO_NAME_OFFSET,
            name_units + 1,
            FILE_SYSTEM_INFO_ALIGNMENT,
        );
        let pad = align_offset(storage.base, FILE_SYSTEM_INFO_ALIGNMENT);
        let len = storage.len();
        proof {
            lemma_record_size_invariant(
                FILE_SYSTEM_INFO_NAME_OFFSET as int,
                name_units as int + 1,
                FILE_SYSTEM_INFO_ALIGNMENT as int,
            );
        }
        if len < pad || len - pad < total {
            return Err(FileInfoCreationError::InsufficientStorage(total));
        }
        storage.write_u64_at(pad, total as u64);
        let ghost b_size = storage.bytes@;
        storage.write_u8_at(pad + 8, if read_only { 1 } else { 0 });
        let ghost b_ro = storage.bytes@;
        storage.write_u64_at(pad + 16, volume_size);
        let ghost b_vsize = storage.bytes@;
        storage.write_u64_at(pad + 24, free_space);
        let ghost b_free = storage.bytes@;
        storage.write_u32_at(pad + 32, block_size);
        let ghost b_block = storage.bytes@;
        write_name_at(storage, pad + FILE_SYSTEM_INFO_NAME_OFFSET, volume_label);
        proof {
            lemma_agree_u64(storage.bytes@, b_size, pad as int);
            assert(storage.bytes@[pad as int + 8] == b_ro[pad as int + 8]);
            lemma_agree_u64(storage.bytes@, b_vsize, pad as int + 16);
            lemma_agree_u64(storage.bytes@, b_free, pad as int + 24);
            lemma_agree_u32(storage.bytes@, b_block, pad as int + 32);
        }
        Ok(
            FileSystemInfo {
                size: total as u64,
                read_only,
                volume_size,
                free_space,
                block_size,
                volume_label: volume_label.clone(),
            },
        )
    }

    /// Reconstructs a record from the bytes of a region that holds one at
    /// byte offset `offset`, recovering the label length by scanning for
    /// the terminator. The caller must ensure a fully built record of this
    /// kind stands there; the scan needs a terminator, and the stored
    /// read-only flag must be a proper truth value.
    pub fn from_uefi(region: &RawRegion, offset: usize) -> (info: FileSystemInfo)
        requires
            has_terminator(region.bytes@, offset as int + FILE_SYSTEM_INFO_NAME_OFFSET),
            region.bytes@[offset as int + 8] == 0 || region.bytes@[offset as int + 8] == 1,
        ensures
            file_system_info_encoded(region.bytes@, offset as int, info),
            info.volume_label.wf(),
    {
        let total = region.len();
        proof {
            assert(offset + FILE_SYSTEM_INFO_NAME_OFFSET + 2 <= total);
        }
        let n = scan_name_len(region, offset + FILE_SYSTEM_INFO_NAME_OFFSET);
        let volume_label = read_name_at(region, offset + FILE_SYSTEM_INFO_NAME_OFFSET, n);
        FileSystemInfo {
            size: region.read_u64_at(offset),
            read_only: region.read_u8_at(offset + 8) == 1,
            volume_size: region.read_u64_at(offset + 16),
            free_space: region.read_u64_at(offset + 24),
            block_size: region.read_u32_at(offset + 32),
            volume_label,
        }
    }

    /// Whether the volume only supports read access.
    pub fn read_only(&self) -> (r: bool)
        ensures
            r == self.read_only,
    {
        self.read_only
    }

    /// Number of bytes managed by the file system.
    pub fn volume_size(&self) -> (r: u64)
        ensures
            r == self.volume_size,
    {
        self.volume_size
    }

    /// Number of bytes available for use by the file system.
    pub fn free_space(&self) -> (r: u64)
        ensures
            r == self.free_space,
    {
        self.free_space
    }

    /// Nominal block size by which files are typically grown.
    pub fn block_size(&self) -> (r: u32)
        ensures
            r == self.block_size,
    {
        self.block_size
    }

    /// The volume's label.
    pub fn volume_label(&self) -> (r: &CString16)
        ensures
            r@ == self.volume_label@,
    {
        &self.volume_label
    }

    /// Stored total record size in bytes.
    pub fn size(&self) -> (r: u64)
        ensures
            r == self.size,
    {
        self.size
    }
}

impl FileProtocolInfo for FileSystemInfo {
    open spec fn spec_alignment() -> int {
        FILE_SYSTEM_INFO_ALIGNMENT as int
    }

    open spec fn spec_name_offset() -> int {
        FILE_SYSTEM_INFO_NAME_OFFSET as int
    }

    fn alignment() -> usize {
        FILE_SYSTEM_INFO_ALIGNMENT
    }

    fn name_offset() -> usize {
        FILE_SYSTEM_INFO_NAME_OFFSET
    }
}

/// Any two records of this kind encoded over the same bytes at the same
/// offset carry the same field values and the same label, so
/// reconstruction recovers exactly what construction stored.
pub proof fn lemma_file_system_info_reconstruction(
    bytes: Seq<u8>,
    start: int,
    a: FileSystemInfo,
    b: FileSystemInfo,
)
    requires
        file_system_info_encoded(bytes, start, a),
        file_system_info_encoded(bytes, start, b),
        a.volume_label.wf(),
        b.volume_label.wf(),
    ensures
        a.size == b.size,
        a.read_only == b.read_only,
        a.volume_size == b.volume_size,
        a.free_space == b.free_space,
        a.block_size == b.block_size,
        a.volume_label@ == b.volume_label@,
{
    lemma_trailer_unique(bytes, start + 36, a.volume_label@, b.volume_label@);
}

/// The system volume's label alone.
#[derive(Debug)]
pub struct FileSystemVolumeLabel {
    /// The volume's label.
    pub volume_label: CString16,
}

/// Total byte length of a volume label record whose label holds `name_len`
/// code units before the terminator: exactly the name trailer.
pub open spec fn spec_volume_label_size(name_len: int) -> int {
    spec_record_size(VOLUME_LABEL_NAME_OFFSET as int, name_len + 1, VOLUME_LABEL_ALIGNMENT as int)
}

/// The label trailer of `info` as stored at byte offset `start`. This kind
/// has no header fields.
pub open spec fn volume_label_encoded(bytes: Seq<u8>, start: int, info: FileSystemVolumeLabel) -> bool {
    name_trailer_at(bytes, start, info.volume_label@)
}

impl FileSystemVolumeLabel {
    /// Builds a volume label record inside `storage`.
    ///
    /// The region is first trimmed so its base satisfies the kind's
    /// two-byte alignment; construction succeeds exactly when the trimmed
    /// remainder holds the record, whose size is the null-terminated label
    /// itself, and fails with that size otherwise.
    pub fn new(storage: &mut RawRegion, volume_label: &CString16) -> (r: Result<
        FileSystemVolumeLabel,
        FileInfoCreationError,
    >)
        requires
            2 * (volume_label@.len() + 1) + VOLUME_LABEL_ALIGNMENT <= usize::MAX,
        ensures
            r is Ok <==> old(storage).bytes@.len() >= spec_align_offset(
                old(storage).base as int,
                VOLUME_LABEL_ALIGNMENT as int,
            ) + spec_volume_label_size(volume_label@.len() as int),
            r matches Err(e) ==> {
                &&& e == FileInfoCreationError::InsufficientStorage(
                    spec_volume_label_size(volume_label@.len() as int) as usize,
                )
                &&& final(storage).base == old(storage).base
                &&& final(storage).bytes@ == old(storage).bytes@
            },
            r matches Ok(info) ==> {
                let pad = spec_align_offset(
                    old(storage).base as int,
                    VOLUME_LABEL_ALIGNMENT as int,
                );
                &&& info.volume_label@ == volume_label@
                &&& final(storage).base == old(storage).base
                &&& final(storage).bytes@.len() == old(storage).bytes@.len()
                &&& volume_label_encoded(final(storage).bytes@, pad, info)
                &&& forall|j: int|
                    0 <= j < old(storage).bytes@.len() && !(pad <= j < pad + 2 * (
                    volume_label@.len() + 1)) ==> final(storage).bytes@[j] == old(
                        storage,
                    ).bytes@[j]
            },
    {
        let name_units = volume_label.num_units();
        let total = record_size(VOLUME_LABEL_NAME_OFFSET, name_units + 1, VOLUME_LABEL_ALIGNMENT);
        let pad = align_offset(storage.base, VOLUME_LABEL_ALIGNMENT);
        let len = storage.len();
        proof {
            lemma_record_size_invariant(
                VOLUME_LABEL_NAME_OFFSET as int,
                name_units as int + 1,
                VOLUME_LABEL_ALIGNMENT as int,
            );
            crate::layout::lemma_headerless_size_exact(name_units as int + 1);
        }
        if len < pad || len - pad < total {
            return Err(FileInfoCreationError::InsufficientStorage(total));
        }
        write_name_at(storage, pad + VOLUME_LABEL_NAME_OFFSET, volume_label);
        Ok(FileSystemVolumeLabel { volume_label: volume_label.clone() })
    }

    /// Reconstructs a record from the bytes of a region that holds one at
    /// byte offset `offset`, recovering the label length by scanning for
    /// the terminator. The caller must ensure a fully built record of this
    /// kind stands there; the scan itself needs only a terminator.
    pub fn from_uefi(region: &RawRegion, offset: usize) -> (info: FileSystemVolumeLabel)
        requires
            has_terminator(region.bytes@, offset as int + VOLUME_LABEL_NAME_OFFSET),
        ensures
            volume_label_encoded(region.bytes@, offset as int, info),
            info.volume_label.wf(),
    {
        let n = scan_name_len(region, offset + VOLUME_LABEL_NAME_OFFSET);
        let volume_label = read_name_at(region, offset + VOLUME_LABEL_NAME_OFFSET, n);
        FileSystemVolumeLabel { volume_label }
    }

    /// The volume's label.
    pub fn volume_label(&self) -> (r: &CString16)
        ensures
            r@ == self.volume_label@,
    {
        &self.volume_label
    }
}

impl FileProtocolInfo for FileSystemVolumeLabel {
    open spec fn spec_alignment() -> int {
        VOLUME_LABEL_ALIGNMENT as int
    }

    open spec fn spec_name_offset() -> int {
        VOLUME_LABEL_NAME_OFFSET as int
    }

    fn alignment() -> usize {
        VOLUME_LABEL_ALIGNMENT
    }

    fn name_offset() -> usize {
        VOLUME_LABEL_NAME_OFFSET
    }
}

/// Any two records of this kind encoded over the same bytes at the same
/// offset carry the same label, so reconstruction recovers exactly what
/// construction stored.
pub proof fn lemma_volume_label_reconstruction(
    bytes: Seq<u8>,
    start: int,
    a: FileSystemVolumeLabel,
    b: FileSystemVolumeLabel,
)
    requires
        volume_label_encoded(bytes, start, a),
        volume_label_encoded(bytes, start, b),
        a.volume_label.wf(),
        b.volume_label.wf(),
    ensures
        a.volume_label@ == b.volume_label@,
{
    lemma_trailer_unique(bytes, start, a.volume_label@, b.volume_label@);
}

/// The sixteen bytes, in wire order, of the identifier under which the
/// general file info kind is requested from the external file object.
pub open spec fn spec_file_info_guid() -> Seq<u8> {
    seq![0x92u8, 0x6e, 0x57, 0x09, 0x3f, 0x6d, 0xd2, 0x11, 0x8e, 0x39, 0x00, 0xa0, 0xc9, 0x69, 0x72, 0x3b]
}

/// The sixteen bytes, in wire order, of the identifier under which the
/// filesystem info kind is requested from the external file object.
pub open spec fn spec_file_system_info_guid() -> Seq<u8> {
    seq![0x93u8, 0x6e, 0x57, 0x09, 0x3f, 0x6d, 0xd2, 0x11, 0x8e, 0x39, 0x00, 0xa0, 0xc9, 0x69, 0x72, 0x3b]
}

/// The sixteen bytes, in wire order, of the identifier under which the
/// volume label kind is requested from the external file object.
pub open spec fn spec_volume_label_guid() -> Seq<u8> {
    seq![0xd3u8, 0xd7, 0x47, 0xdb, 0x81, 0xfe, 0xd3, 0x11, 0x9a, 0x35, 0x00, 0x90, 0x27, 0x3f, 0xc1, 0x4d]
}

/// Relies on `uefi_raw::protocol::file_system::FileInfo::ID` and
/// `uguid::Guid::to_bytes`: the identifier is a fixed constant and
/// `to_bytes` returns its sixteen bytes in wire order, unchanged.
#[verifier::external_body]
fn file_info_guid_raw() -> (r: [u8; 16])
    ensures
        r@ == spec_file_info_guid(),
{
    uefi_raw::protocol::file_system::FileInfo::ID.to_bytes()
}

/// Relies on `uefi_raw::protocol::file_system::FileSystemInfo::ID` and
/// `uguid::Guid::to_bytes`: the identifier is a fixed constant and
/// `to_bytes` returns its sixteen bytes in wire order, unchanged.
#[verifier::external_body]
fn file_system_info_guid_raw() -> (r: [u8; 16])
    ensures
        r@ == spec_file_system_info_guid(),
{
    uefi_raw::protocol::file_system::FileSystemInfo::ID.to_bytes()
}

/// Relies on `uefi_raw::protocol::file_system::FileSystemVolumeLabel::ID`
/// and `uguid::Guid::to_bytes`: the identifier is a fixed constant and
/// `to_bytes` returns its sixteen bytes in wire order, unchanged.
#[verifier::external_body]
fn volume_label_guid_raw() -> (r: [u8; 16])
    ensures
        r@ == spec_volume_label_guid(),
{
    uefi_raw::protocol::file_system::FileSystemVolumeLabel::ID.to_bytes()
}

impl FileInfo {
    /// The 128-bit identifier of this record kind, as its sixteen bytes in
    /// wire order.
    pub fn guid() -> (r: [u8; 16])
        ensures
            r@ == spec_file_info_guid(),
    {
        file_info_guid_raw()
    }
}

impl FileSystemInfo {
    /// The 128-bit identifier of this record kind, as its sixteen bytes in
    /// wire order.
    pub fn guid() -> (r: [u8; 16])
        ensures
            r@ == spec_file_system_info_guid(),
    {
        file_system_info_guid_raw()
    }
}

impl FileSystemVolumeLabel {
    /// The 128-bit identifier of this record kind, as its sixteen bytes in
    /// wire order.
    pub fn guid() -> (r: [u8; 16])
        ensures
            r@ == spec_volume_label_guid(),
    {
        volume_label_guid_raw()
    }
}

} // verus!
