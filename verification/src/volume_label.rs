//! The volume label on its own: a record whose fixed header is empty, so
//! the whole record is the null-terminated label tail.

use crate::chars::{all_ucs2, lemma_built_tail_strict, lemma_tail_at_unique,
    lemma_tail_text_of_name, nul_free, tail_at, tail_strict, tail_wf, tail_text, ucs2_units,
    CStr16};
use crate::guid::Guid;
use crate::proto::{new_uninitialized, scan_tail, spec_aligned, spec_failure, spec_required_size,
    FileInfoCreationError, FileProtocolInfo, Storage};
use vstd::prelude::*;

verus! {

/// System volume label: no fixed header fields, only the null-terminated
/// label tail.
pub struct FileSystemVolumeLabel {
    name: Vec<u16>,
}

impl FileSystemVolumeLabel {
    /// The record's label tail is null-terminated.
    pub open spec fn wf(&self) -> bool {
        tail_wf(self.name_seq())
    }

    /// `self` is the record stored at the start of `b`: the label tail
    /// lies at the very start, there being no header.
    pub open spec fn abstracts(&self, b: Seq<u8>) -> bool {
        &&& self.wf()
        &&& tail_at(b, Self::spec_name_offset() as int, self.name_seq())
    }

    /// Create a volume-label record in place within the provided storage.
    /// The storage must be aligned for this type and large enough for the
    /// null-terminated label; there are no header fields to fill.
    pub fn new(storage: &mut Storage, volume_label: &str) -> (r: Result<
        FileSystemVolumeLabel,
        FileInfoCreationError,
    >)
        requires
            spec_required_size::<FileSystemVolumeLabel>(volume_label@.len()) <= usize::MAX,
        ensures
            final(storage).addr == old(storage).addr,
            final(storage).bytes@.len() == old(storage).bytes@.len(),
            match r {
                Ok(info) => {
                    &&& spec_aligned::<FileSystemVolumeLabel>(old(storage).addr)
                    &&& all_ucs2(volume_label@)
                    &&& spec_required_size::<FileSystemVolumeLabel>(volume_label@.len())
                        <= old(storage).bytes@.len()
                    &&& info.wf()
                    &&& info.name_seq() == ucs2_units(volume_label@).push(0)
                    &&& info.abstracts(final(storage).bytes@)
                    &&& forall|i: int|
                        spec_required_size::<FileSystemVolumeLabel>(volume_label@.len()) <= i
                            < final(storage).bytes@.len() ==> final(storage).bytes@[i]
                            == old(storage).bytes@[i]
                },
                Err(e) => {
                    &&& final(storage).bytes@ == old(storage).bytes@
                    &&& spec_failure::<FileSystemVolumeLabel>(
                        old(storage).addr,
                        old(storage).bytes@.len(),
                        volume_label@,
                        e,
                    )
                },
            },
    {
        let tail = new_uninitialized::<FileSystemVolumeLabel>(storage, volume_label)?;
        Ok(FileSystemVolumeLabel { name: tail })
    }

    /// Volume label, read up to its first terminator.
    pub fn volume_label(&self) -> (r: CStr16)
        requires
            self.wf(),
        ensures
            r.wf(),
            r@ == tail_text(self.name_seq()),
    {
        self.name_str()
    }

    /// Reinterpret bytes the caller asserts already hold a valid record of
    /// this type, as handed back by the record consumer. This is the trust
    /// boundary: only the terminator scan is performed; the precondition
    /// records what the caller vouches for.
    pub fn from_uefi(bytes: &Vec<u8>) -> (r: FileSystemVolumeLabel)
        requires
            exists|t: Seq<u16>|
                tail_at(bytes@, FileSystemVolumeLabel::spec_name_offset() as int, t)
                    && tail_strict(t),
        ensures
            r.wf(),
            tail_strict(r.name_seq()),
            r.abstracts(bytes@),
    {
        let name = scan_tail(bytes, 0);
        FileSystemVolumeLabel { name }
    }
}

/// Two terminator-scanned views of the same bytes hold the same label:
/// reinterpreting a constructed record's bytes yields the record back.
pub proof fn lemma_volume_label_view_unique(
    b: Seq<u8>,
    r1: FileSystemVolumeLabel,
    r2: FileSystemVolumeLabel,
)
    requires
        r1.abstracts(b),
        tail_strict(r1.name_seq()),
        r2.abstracts(b),
        tail_strict(r2.name_seq()),
    ensures
        r1.name_seq() == r2.name_seq(),
{
    lemma_tail_at_unique(
        b,
        FileSystemVolumeLabel::spec_name_offset() as int,
        r1.name_seq(),
        r2.name_seq(),
    );
}

/// Constructing a record from a terminator-free label and reinterpreting
/// its bytes through the unchecked path yields a view with the identical
/// label text.
pub proof fn lemma_volume_label_round_trip(
    b: Seq<u8>,
    label: Seq<char>,
    built: FileSystemVolumeLabel,
    seen: FileSystemVolumeLabel,
)
    requires
        all_ucs2(label),
        nul_free(label),
        built.name_seq() == ucs2_units(label).push(0),
        built.abstracts(b),
        seen.abstracts(b),
        tail_strict(seen.name_seq()),
    ensures
        seen.name_seq() == built.name_seq(),
        tail_text(seen.name_seq()) == ucs2_units(label),
{
    lemma_built_tail_strict(label);
    lemma_volume_label_view_unique(b, built, seen);
    lemma_tail_text_of_name(label);
}

impl FileProtocolInfo for FileSystemVolumeLabel {
    open spec fn spec_alignment() -> usize {
        2
    }

    open spec fn spec_name_offset() -> usize {
        0
    }

    open spec fn spec_guid() -> Guid {
        Guid { time_low: 0xdb47d7d3, time_mid: 0xfe81, time_high: 0x11d3, tail: 0x9a350090273fc14d }
    }

    closed spec fn name_seq(&self) -> Seq<u16> {
        self.name@
    }

    fn alignment() -> usize {
        2
    }

    fn name_offset() -> usize {
        0
    }

    fn guid() -> Guid {
        Guid { time_low: 0xdb47d7d3, time_mid: 0xfe81, time_high: 0x11d3, tail: 0x9a350090273fc14d }
    }

    fn name(&self) -> &Vec<u16> {
        &self.name
    }

    fn name_str(&self) -> CStr16 {
        CStr16::from_tail(&self.name)
    }
}

} // verus!
