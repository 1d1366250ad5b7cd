//! Generic file information: sizes, timestamps, attribute bits, and the
//! file name as the record's variable-length tail.

use crate::attrib::FileAttribute;
use crate::bytes::{le64_at, read_u64_at, write_u64_at};
use crate::chars::{all_ucs2, lemma_built_tail_strict, lemma_tail_at_unique,
    lemma_tail_text_of_name, nul_free, tail_at, tail_strict, tail_wf, tail_text, ucs2_units,
    CStr16};
use crate::guid::Guid;
use crate::proto::{new_uninitialized, scan_tail, spec_aligned, spec_failure, spec_required_size,
    FileInfoCreationError, FileProtocolInfo, Storage};
use crate::time::{time_at, time_pads_zero, read_time_at, write_time_at, Time};
use vstd::prelude::*;

verus! {

/// Generic file information: a header of sizes, timestamps and attribute
/// bits, followed by the null-terminated file name.
pub struct FileInfo {
    size: u64,
    file_size: u64,
    physical_size: u64,
    create_time: Time,
    last_access_time: Time,
    modification_time: Time,
    attribute: FileAttribute,
    name: Vec<u16>,
}

impl FileInfo {
    /// The stored total record size in bytes.
    pub closed spec fn spec_size(&self) -> u64 {
        self.size
    }

    pub closed spec fn spec_file_size(&self) -> u64 {
        self.file_size
    }

    pub closed spec fn spec_physical_size(&self) -> u64 {
        self.physical_size
    }

    pub closed spec fn spec_create_time(&self) -> Time {
        self.create_time
    }

    pub closed spec fn spec_last_access_time(&self) -> Time {
        self.last_access_time
    }

    pub closed spec fn spec_modification_time(&self) -> Time {
        self.modification_time
    }

    pub closed spec fn spec_attribute(&self) -> FileAttribute {
        self.attribute
    }

    /// The record's name tail is null-terminated.
    pub open spec fn wf(&self) -> bool {
        tail_wf(self.name_seq())
    }

    /// `self` is the record stored at the start of `b`: every header field
    /// reads back from its fixed offset and the name tail lies at the name
    /// offset.
    pub open spec fn abstracts(&self, b: Seq<u8>) -> bool {
        &&& self.wf()
        &&& le64_at(b, 0) == self.spec_size()
        &&& le64_at(b, 8) == self.spec_file_size()
        &&& le64_at(b, 16) == self.spec_physical_size()
        &&& time_at(b, 24) == self.spec_create_time()
        &&& time_at(b, 40) == self.spec_last_access_time()
        &&& time_at(b, 56) == self.spec_modification_time()
        &&& le64_at(b, 72) == self.spec_attribute().bits
        &&& tail_at(b, Self::spec_name_offset() as int, self.name_seq())
    }

    /// Create a file-information record in place within the provided
    /// storage. The storage must be aligned for this type and large enough
    /// for the header and the null-terminated name; the stored size field
    /// is recomputed from the actual footprint, never taken from the
    /// caller.
    pub fn new(
        storage: &mut Storage,
        file_size: u64,
        physical_size: u64,
        create_time: Time,
        last_access_time: Time,
        modification_time: Time,
        attribute: FileAttribute,
        file_name: &str,
    ) -> (r: Result<FileInfo, FileInfoCreationError>)
        requires
            spec_required_size::<FileInfo>(file_name@.len()) <= usize::MAX,
        ensures
            final(storage).addr == old(storage).addr,
            final(storage).bytes@.len() == old(storage).bytes@.len(),
            match r {
                Ok(info) => {
                    &&& spec_aligned::<FileInfo>(old(storage).addr)
                    &&& all_ucs2(file_name@)
                    &&& spec_required_size::<FileInfo>(file_name@.len())
                        <= old(storage).bytes@.len()
                    &&& info.wf()
                    &&& info.spec_size() == spec_required_size::<FileInfo>(file_name@.len())
                    &&& info.spec_file_size() == file_size
                    &&& info.spec_physical_size() == physical_size
                    &&& info.spec_create_time() == create_time
                    &&& info.spec_last_access_time() == last_access_time
                    &&& info.spec_modification_time() == modification_time
                    &&& info.spec_attribute() == attribute
                    &&& info.name_seq() == ucs2_units(file_name@).push(0)
                    &&& info.abstracts(final(storage).bytes@)
                    &&& time_pads_zero(final(storage).bytes@, 24)
                    &&& time_pads_zero(final(storage).bytes@, 40)
                    &&& time_pads_zero(final(storage).bytes@, 56)
                    &&& forall|i: int|
                        spec_required_size::<FileInfo>(file_name@.len()) <= i
                            < final(storage).bytes@.len() ==> final(storage).bytes@[i]
                            == old(storage).bytes@[i]
                },
                Err(e) => {
                    &&& final(storage).bytes@ == old(storage).bytes@
                    &&& spec_failure::<FileInfo>(
                        old(storage).addr,
                        old(storage).bytes@.len(),
                        file_name@,
                        e,
                    )
                },
            },
    {
        let tail = new_uninitialized::<FileInfo>(storage, file_name)?;
        let ghost b0 = storage.bytes@;
        let required = Self::name_offset() + 2 * tail.len();
        write_u64_at(&mut storage.bytes, 0, required as u64);
        write_u64_at(&mut storage.bytes, 8, file_size);
        write_u64_at(&mut storage.bytes, 16, physical_size);
        write_time_at(&mut storage.bytes, 24, &create_time);
        write_time_at(&mut storage.bytes, 40, &last_access_time);
        write_time_at(&mut storage.bytes, 56, &modification_time);
        write_u64_at(&mut storage.bytes, 72, attribute.bits);
        let info = FileInfo {
            size: required as u64,
            file_size,
            physical_size,
            create_time,
            last_access_time,
            modification_time,
            attribute,
            name: tail,
        };
        proof {
            assert(forall|i: int|
                80 <= i < storage.bytes@.len() ==> storage.bytes@[i] == b0[i]);
            assert forall|k: int|
                0 <= k < info.name_seq().len() implies crate::bytes::le16_at(
                storage.bytes@,
                80 + 2 * k,
            ) == info.name_seq()[k] by {
                assert(storage.bytes@[80 + 2 * k] == b0[80 + 2 * k]);
                assert(storage.bytes@[80 + 2 * k + 1] == b0[80 + 2 * k + 1]);
            }
        }
        Ok(info)
    }

    /// File size in bytes.
    pub fn file_size(&self) -> (r: u64)
        ensures
            r == self.spec_file_size(),
    {
        self.file_size
    }

    /// Physical space consumed by the file on the volume.
    pub fn physical_size(&self) -> (r: u64)
        ensures
            r == self.spec_physical_size(),
    {
        self.physical_size
    }

    /// Time when the file was created.
    pub fn create_time(&self) -> (r: &Time)
        ensures
            *r == self.spec_create_time(),
    {
        &self.create_time
    }

    /// Time when the file was last accessed.
    pub fn last_access_time(&self) -> (r: &Time)
        ensures
            *r == self.spec_last_access_time(),
    {
        &self.last_access_time
    }

    /// Time when the file's contents were last modified.
    pub fn modification_time(&self) -> (r: &Time)
        ensures
            *r == self.spec_modification_time(),
    {
        &self.modification_time
    }

    /// Attribute bits of the file.
    pub fn attribute(&self) -> (r: FileAttribute)
        ensures
            r == self.spec_attribute(),
    {
        self.attribute
    }

    /// Name of the file, read up to its first terminator.
    pub fn file_name(&self) -> (r: CStr16)
        requires
            self.wf(),
        ensures
            r.wf(),
            r@ == tail_text(self.name_seq()),
    {
        self.name_str()
    }

    /// Reinterpret bytes the caller asserts already hold a valid,
    /// fully-initialized record of this type, as handed back by the record
    /// consumer. This is the trust boundary: only the terminator scan is
    /// performed; the precondition records what the caller vouches for.
    pub fn from_uefi(bytes: &Vec<u8>) -> (r: FileInfo)
        requires
            exists|t: Seq<u16>|
                tail_at(bytes@, FileInfo::spec_name_offset() as int, t) && tail_strict(t),
        ensures
            r.wf(),
            tail_strict(r.name_seq()),
            r.abstracts(bytes@),
    {
        proof {
            let t = choose|t: Seq<u16>| tail_at(bytes@, 80, t) && tail_strict(t);
            assert(bytes.len() >= 80 + 2 * t.len());
        }
        let name = scan_tail(bytes, 80);
        FileInfo {
            size: read_u64_at(bytes, 0),
            file_size: read_u64_at(bytes, 8),
            physical_size: read_u64_at(bytes, 16),
            create_time: read_time_at(bytes, 24),
            last_access_time: read_time_at(bytes, 40),
            modification_time: read_time_at(bytes, 56),
            attribute: FileAttribute { bits: read_u64_at(bytes, 72) },
            name,
        }
    }
}

/// Two terminator-scanned views of the same bytes agree on every header
/// field and on the name tail: reinterpreting a constructed record's bytes
/// yields the record back, field for field.
pub proof fn lemma_file_info_view_unique(b: Seq<u8>, r1: FileInfo, r2: FileInfo)
    requires
        r1.abstracts(b),
        tail_strict(r1.name_seq()),
        r2.abstracts(b),
        tail_strict(r2.name_seq()),
    ensures
        r1.spec_size() == r2.spec_size(),
        r1.spec_file_size() == r2.spec_file_size(),
        r1.spec_physical_size() == r2.spec_physical_size(),
        r1.spec_create_time() == r2.spec_create_time(),
        r1.spec_last_access_time() == r2.spec_last_access_time(),
        r1.spec_modification_time() == r2.spec_modification_time(),
        r1.spec_attribute() == r2.spec_attribute(),
        r1.name_seq() == r2.name_seq(),
{
    lemma_tail_at_unique(b, FileInfo::spec_name_offset() as int, r1.name_seq(), r2.name_seq());
    assert(r1.spec_attribute() =~= r2.spec_attribute());
}

/// Constructing a record from a terminator-free name and reinterpreting
/// its bytes through the unchecked path yields a view with identical
/// header field values and identical name text.
pub proof fn lemma_file_info_round_trip(
    b: Seq<u8>,
    name: Seq<char>,
    built: FileInfo,
    seen: FileInfo,
)
    requires
        all_ucs2(name),
        nul_free(name),
        built.name_seq() == ucs2_units(name).push(0),
        built.abstracts(b),
        seen.abstracts(b),
        tail_strict(seen.name_seq()),
    ensures
        seen.spec_size() == built.spec_size(),
        seen.spec_file_size() == built.spec_file_size(),
        seen.spec_physical_size() == built.spec_physical_size(),
        seen.spec_create_time() == built.spec_create_time(),
        seen.spec_last_access_time() == built.spec_last_access_time(),
        seen.spec_modification_time() == built.spec_modification_time(),
        seen.spec_attribute() == built.spec_attribute(),
        seen.name_seq() == built.name_seq(),
        tail_text(seen.name_seq()) == ucs2_units(name),
{
    lemma_built_tail_strict(name);
    lemma_file_info_view_unique(b, built, seen);
    lemma_tail_text_of_name(name);
}

impl FileProtocolInfo for FileInfo {
    open spec fn spec_alignment() -> usize {
        8
    }

    open spec fn spec_name_offset() -> usize {
        80
    }

    open spec fn spec_guid() -> Guid {
        Guid { time_low: 0x09576e92, time_mid: 0x6d3f, time_high: 0x11d2, tail: 0x8e3900a0c969723b }
    }

    closed spec fn name_seq(&self) -> Seq<u16> {
        self.name@
    }

    fn alignment() -> usize {
        8
    }

    fn name_offset() -> usize {
        80
    }

    fn guid() -> Guid {
        Guid { time_low: 0x09576e92, time_mid: 0x6d3f, time_high: 0x11d2, tail: 0x8e3900a0c969723b }
    }

    fn name(&self) -> &Vec<u16> {
        &self.name
    }

    fn name_str(&self) -> CStr16 {
        CStr16::from_tail(&self.name)
    }
}

} // verus!
