//! System volume information: volume-wide sizes and flags, followed by the
//! null-terminated volume label as the record's variable-length tail.

use crate::bytes::{le32_at, le64_at, read_u32_at, read_u64_at, write_u32_at, write_u64_at,
    write_u8_at};
use crate::chars::{all_ucs2, lemma_built_tail_strict, lemma_tail_at_unique,
    lemma_tail_text_of_name, nul_free, tail_at, tail_strict, tail_wf, tail_text, ucs2_units,
    CStr16};
use crate::guid::Guid;
use crate::proto::{new_uninitialized, scan_tail, spec_aligned, spec_failure, spec_required_size,
    FileInfoCreationError, FileProtocolInfo, Storage};
use vstd::prelude::*;

verus! {

/// System volume information: a header of volume-wide sizes and flags,
/// followed by the null-terminated volume label.
pub struct FileSystemInfo {
    size: u64,
    read_only: bool,
    volume_size: u64,
    free_space: u64,
    block_size: u32,
    name: Vec<u16>,
}

impl FileSystemInfo {
    /// The stored total record size in bytes.
    pub closed spec fn spec_size(&self) -> u64 {
        self.size
    }

    pub closed spec fn spec_read_only(&self) -> bool {
        self.read_only
    }

    pub closed spec fn spec_volume_size(&self) -> u64 {
        self.volume_size
    }

    pub closed spec fn spec_free_space(&self) -> u64 {
        self.free_space
    }

    pub closed spec fn spec_block_size(&self) -> u32 {
        self.block_size
    }

    /// The record's label tail is null-terminated.
    pub open spec fn wf(&self) -> bool {
        tail_wf(self.name_seq())
    }

    /// `self` is the record stored at the start of `b`: every header field
    /// reads back from its fixed offset and the label tail lies at the
    /// name offset. The seven bytes after the read-only flag are layout
    /// padding and carry no field.
    pub open spec fn abstracts(&self, b: Seq<u8>) -> bool {
        &&& self.wf()
        &&& le64_at(b, 0) == self.spec_size()
        &&& (b[8] != 0) == self.spec_read_only()
        &&& le64_at(b, 16) == self.spec_volume_size()
        &&& le64_at(b, 24) == self.spec_free_space()
        &&& le32_at(b, 32) == self.spec_block_size()
        &&& tail_at(b, Self::spec_name_offset() as int, self.name_seq())
    }

    /// Create a volume-information record in place within the provided
    /// storage. The storage must be aligned for this type and large enough
    /// for the header and the null-terminated label; the stored size field
    /// is recomputed from the actual footprint, never taken from the
    /// caller.
    pub fn new(
        storage: &mut Storage,
        read_only: bool,
        volume_size: u64,
        free_space: u64,
        block_size: u32,
        volume_label: &str,
    ) -> (r: Result<FileSystemInfo, FileInfoCreationError>)
        requires
            spec_required_size::<FileSystemInfo>(volume_label@.len()) <= usize::MAX,
        ensures
            final(storage).addr == old(storage).addr,
            final(storage).bytes@.len() == old(storage).bytes@.len(),
            match r {
                Ok(info) => {
                    &&& spec_aligned::<FileSystemInfo>(old(storage).addr)
                    &&& all_ucs2(volume_label@)
                    &&& spec_required_size::<FileSystemInfo>(volume_label@.len())
                        <= old(storage).bytes@.len()
                    &&& info.wf()
                    &&& info.spec_size() == spec_required_size::<FileSystemInfo>(
                        volume_label@.len(),
                    )
                    &&& info.spec_read_only() == read_only
                    &&& info.spec_volume_size() == volume_size
                    &&& info.spec_free_space() == free_space
                    &&& info.spec_block_size() == block_size
                    &&& info.name_seq() == ucs2_units(volume_label@).push(0)
                    &&& info.abstracts(final(storage).bytes@)
                    &&& forall|i: int|
                        9 <= i < 16 ==> final(storage).bytes@[i] == old(storage).bytes@[i]
                    &&& forall|i: int|
                        spec_required_size::<FileSystemInfo>(volume_label@.len()) <= i
                            < final(storage).bytes@.len() ==> final(storage).bytes@[i]
                            == old(storage).bytes@[i]
                },
                Err(e) => {
                    &&& final(storage).bytes@ == old(storage).bytes@
                    &&& spec_failure::<FileSystemInfo>(
                        old(storage).addr,
                        old(storage).bytes@.len(),
                        volume_label@,
                        e,
                    )
                },
            },
    {
        let tail = new_uninitialized::<FileSystemInfo>(storage, volume_label)?;
        let ghost b0 = storage.bytes@;
        let required = Self::name_offset() + 2 * tail.len();
        write_u64_at(&mut storage.bytes, 0, required as u64);
        write_u8_at(&mut storage.bytes, 8, if read_only { 1 } else { 0 });
        write_u64_at(&mut storage.bytes, 16, volume_size);
        write_u64_at(&mut storage.bytes, 24, free_space);
        write_u32_at(&mut storage.bytes, 32, block_size);
        let info = FileSystemInfo {
            size: required as u64,
            read_only,
            volume_size,
            free_space,
            block_size,
            name: tail,
        };
        proof {
            assert(forall|i: int|
                36 <= i < storage.bytes@.len() ==> storage.bytes@[i] == b0[i]);
            assert forall|k: int|
                0 <= k < info.name_seq().len() implies crate::bytes::le16_at(
                storage.bytes@,
                36 + 2 * k,
            ) == info.name_seq()[k] by {
                assert(storage.bytes@[36 + 2 * k] == b0[36 + 2 * k]);
                assert(storage.bytes@[36 + 2 * k + 1] == b0[36 + 2 * k + 1]);
            }
        }
        Ok(info)
    }

    /// Truth that the volume only supports read access.
    pub fn read_only(&self) -> (r: bool)
        ensures
            r == self.spec_read_only(),
    {
        self.read_only
    }

    /// Number of bytes managed by the file system.
    pub fn volume_size(&self) -> (r: u64)
        ensures
            r == self.spec_volume_size(),
    {
        self.volume_size
    }

    /// Number of available bytes for use by the file system.
    pub fn free_space(&self) -> (r: u64)
        ensures
            r == self.spec_free_space(),
    {
        self.free_space
    }

    /// Nominal block size by which files are typically grown.
    pub fn block_size(&self) -> (r: u32)
        ensures
            r == self.spec_block_size(),
    {
        self.block_size
    }

    /// Volume label, read up to its first terminator.
    pub fn volume_label(&self) -> (r: CStr16)
        requires
            self.wf(),
        ensures
            r.wf(),
            r@ == tail_text(self.name_seq()),
    {
        self.name_str()
    }

    /// Reinterpret bytes the caller asserts already hold a valid,
    /// fully-initialized record of this type, as handed back by the record
    /// consumer. This is the trust boundary: only the terminator scan is
    /// performed; the precondition records what the caller vouches for.
    pub fn from_uefi(bytes: &Vec<u8>) -> (r: FileSystemInfo)
        requires
            exists|t: Seq<u16>|
                tail_at(bytes@, FileSystemInfo::spec_name_offset() as int, t) && tail_strict(t),
        ensures
            r.wf(),
            tail_strict(r.name_seq()),
            r.abstracts(bytes@),
    {
        proof {
            let t = choose|t: Seq<u16>| tail_at(bytes@, 36, t) && tail_strict(t);
            assert(bytes.len() >= 36 + 2 * t.len());
        }
        let name = scan_tail(bytes, 36);
        FileSystemInfo {
            size: read_u64_at(bytes, 0),
            read_only: bytes[8] != 0,
            volume_size: read_u64_at(bytes, 16),
            free_space: read_u64_at(bytes, 24),
            block_size: read_u32_at(bytes, 32),
            name,
        }
    }
}

/// Two terminator-scanned views of the same bytes agree on every header
/// field and on the label tail: reinterpreting a constructed record's
/// bytes yields the record back, field for field.
pub proof fn lemma_fs_info_view_unique(b: Seq<u8>, r1: FileSystemInfo, r2: FileSystemInfo)
    requires
        r1.abstracts(b),
        tail_strict(r1.name_seq()),
        r2.abstracts(b),
        tail_strict(r2.name_seq()),
    ensures
        r1.spec_size() == r2.spec_size(),
        r1.spec_read_only() == r2.spec_read_only(),
        r1.spec_volume_size() == r2.spec_volume_size(),
        r1.spec_free_space() == r2.spec_free_space(),
        r1.spec_block_size() == r2.spec_block_size(),
        r1.name_seq() == r2.name_seq(),
{
    lemma_tail_at_unique(
        b,
        FileSystemInfo::spec_name_offset() as int,
        r1.name_seq(),
        r2.name_seq(),
    );
}

/// Constructing a record from a terminator-free label and reinterpreting
/// its bytes through the unchecked path yields a view with identical
/// header field values and identical label text.
pub proof fn lemma_fs_info_round_trip(
    b: Seq<u8>,
    label: Seq<char>,
    built: FileSystemInfo,
    seen: FileSystemInfo,
)
    requires
        all_ucs2(label),
        nul_free(label),
        built.name_seq() == ucs2_units(label).push(0),
        built.abstracts(b),
        seen.abstracts(b),
        tail_strict(seen.name_seq()),
    ensures
        seen.spec_size() == built.spec_size(),
        seen.spec_read_only() == built.spec_read_only(),
        seen.spec_volume_size() == built.spec_volume_size(),
        seen.spec_free_space() == built.spec_free_space(),
        seen.spec_block_size() == built.spec_block_size(),
        seen.name_seq() == built.name_seq(),
        tail_text(seen.name_seq()) == ucs2_units(label),
{
    lemma_built_tail_strict(label);
    lemma_fs_info_view_unique(b, built, seen);
    lemma_tail_text_of_name(label);
}

impl FileProtocolInfo for FileSystemInfo {
    open spec fn spec_alignment() -> usize {
        8
    }

    open spec fn spec_name_offset() -> usize {
        36
    }

    open spec fn spec_guid() -> Guid {
        Guid { time_low: 0x09576e93, time_mid: 0x6d3f, time_high: 0x11d2, tail: 0x8e3900a0c969723b }
    }

    closed spec fn name_seq(&self) -> Seq<u16> {
        self.name@
    }

    fn alignment() -> usize {
        8
    }

    fn name_offset() -> usize {
        36
    }

    fn guid() -> Guid {
        Guid { time_low: 0x09576e93, time_mid: 0x6d3f, time_high: 0x11d2, tail: 0x8e3900a0c969723b }
    }

    fn name(&self) -> &Vec<u16> {
        &self.name
    }

    fn name_str(&self) -> CStr16 {
        CStr16::from_tail(&self.name)
    }
}

} // verus!
