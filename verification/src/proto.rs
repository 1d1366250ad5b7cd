//! The generic tail-sized-record builder: the capability every record type
//! implements, the caller-storage model, and the shared construction path
//! that validates storage and writes the null-terminated name tail.

use crate::bytes::{le16_at, read_u16_at, write_u16_at};
use crate::chars::{all_ucs2, first_bad_char, is_ucs2, str_to_ucs2, tail_at, tail_strict, tail_wf,
    tail_text, ucs2_units, CStr16};
use crate::guid::Guid;
use vstd::prelude::*;

verus! {

/// Why a record could not be built in the caller's storage.
#[derive(Clone, Copy, PartialEq, Eq, Structural, Debug)]
pub enum FileInfoCreationError {
    /// The storage does not start at a multiple of the record type's
    /// required alignment. Not retryable with the same buffer.
    Alignment,
    /// The storage is too small; at least the carried number of bytes is
    /// needed. Retryable with storage of that size and the same alignment.
    InsufficientStorage(usize),
    /// The name holds the carried character, which the fixed-width
    /// encoding cannot represent. Not retryable with the same name.
    InvalidChar(char),
}

/// Caller-owned storage a record is built into: the bytes themselves and
/// the machine address at which they start, against which alignment is
/// checked.
pub struct Storage {
    pub addr: usize,
    pub bytes: Vec<u8>,
}

/// The capability every record type supplies: its layout constants, its
/// identity tag, and access to its name tail. All other builder behavior
/// derives from these.
pub trait FileProtocolInfo: Sized {
    /// Alignment the record type demands of its storage, derived from the
    /// type's layout alone: no record need exist to ask for it.
    spec fn spec_alignment() -> usize;

    /// Byte offset of the name tail from the start of the record, again a
    /// property of the layout alone.
    spec fn spec_name_offset() -> usize;

    /// The identity tag of this record layout.
    spec fn spec_guid() -> Guid;

    /// The record's name tail, terminator included.
    spec fn name_seq(&self) -> Seq<u16>;

    /// Required memory alignment for this type.
    fn alignment() -> (r: usize)
        ensures
            r == Self::spec_alignment(),
    ;

    /// Offset of the name field.
    fn name_offset() -> (r: usize)
        ensures
            r == Self::spec_name_offset(),
    ;

    /// The identity tag accompanying records of this type.
    fn guid() -> (r: Guid)
        ensures
            r == Self::spec_guid(),
    ;

    /// The trailing name units, terminator included.
    fn name(&self) -> (r: &Vec<u16>)
        ensures
            r@ == self.name_seq(),
    ;

    /// The trailing name interpreted as text up to its first terminator.
    fn name_str(&self) -> (r: CStr16)
        requires
            tail_wf(self.name_seq()),
        ensures
            r.wf(),
            r@ == tail_text(self.name_seq()),
    ;
}

/// Whether storage starting at `addr` meets the record type's alignment.
pub open spec fn spec_aligned<T: FileProtocolInfo>(addr: usize) -> bool {
    addr as int % T::spec_alignment() as int == 0
}

/// Total storage a record of type `T` with `n_chars` name characters
/// needs: the header up to the name offset, then the characters and the
/// terminator at two bytes each.
pub open spec fn spec_required_size<T: FileProtocolInfo>(n_chars: nat) -> int {
    T::spec_name_offset() + (n_chars + 1) * 2
}

/// Exactly when and how construction of a `T` record fails, given the
/// storage address, the storage length, and the requested name.
pub open spec fn spec_failure<T: FileProtocolInfo>(
    addr: usize,
    len: nat,
    name: Seq<char>,
    e: FileInfoCreationError,
) -> bool {
    match e {
        FileInfoCreationError::Alignment => !spec_aligned::<T>(addr),
        FileInfoCreationError::InsufficientStorage(n) => spec_aligned::<T>(addr) && n
            == spec_required_size::<T>(name.len()) && (len as int) < n,
        FileInfoCreationError::InvalidChar(c) => spec_aligned::<T>(addr) && (len as int)
            >= spec_required_size::<T>(name.len()) && first_bad_char(name, c),
    }
}

/// With aligned storage, a fully representable name, and storage at least
/// the required size, no failure can be reported: since every failed
/// construction reports a failure, construction succeeds exactly when the
/// storage is aligned, the name representable, and the storage length at
/// least the required size.
pub proof fn lemma_construction_succeeds<T: FileProtocolInfo>(
    addr: usize,
    len: nat,
    name: Seq<char>,
    e: FileInfoCreationError,
)
    requires
        spec_aligned::<T>(addr),
        all_ucs2(name),
        len >= spec_required_size::<T>(name.len()),
    ensures
        !spec_failure::<T>(addr, len, name, e),
{
    match e {
        FileInfoCreationError::Alignment => {
        },
        FileInfoCreationError::InsufficientStorage(_) => {
        },
        FileInfoCreationError::InvalidChar(c) => {
            if first_bad_char(name, c) {
                let i = choose|i: int|
                    0 <= i < name.len() && !is_ucs2(#[trigger] name[i]) && c == name[i] && (
                    forall|j: int| 0 <= j < i ==> is_ucs2(name[j]));
                assert(is_ucs2(name[i]));
                assert(false);
            }
        },
    }
}

/// Storage a `T` record with the given name needs, as a caller computes
/// it before construction and as a failed construction reports it.
pub fn required_size<T: FileProtocolInfo>(name: &str) -> (r: usize)
    requires
        spec_required_size::<T>(name@.len()) <= usize::MAX,
    ensures
        r == spec_required_size::<T>(name@.len()),
{
    T::name_offset() + (name.unicode_len() + 1) * 2
}

/// Fail unless the storage starts at a multiple of the type's alignment.
pub fn check_alignment<T: FileProtocolInfo>(storage: &Storage) -> (r: Result<
    (),
    FileInfoCreationError,
>)
    requires
        T::spec_alignment() >= 1,
    ensures
        r is Ok <==> spec_aligned::<T>(storage.addr),
        r is Err ==> r matches Err(FileInfoCreationError::Alignment),
{
    if storage.addr % T::alignment() == 0 {
        Ok(())
    } else {
        Err(FileInfoCreationError::Alignment)
    }
}

/// Build the name tail of a `T` record in caller storage: validate
/// alignment, measure and transcode the name, check capacity, and write
/// the null-terminated tail at the type's name offset. On success the
/// returned vector is the written tail. Every byte before the name offset
/// is left exactly as the caller supplied it: the concrete record
/// constructor must fill the whole header before the record is read.
pub(crate) fn new_uninitialized<T: FileProtocolInfo>(storage: &mut Storage, name: &str) -> (r:
    Result<Vec<u16>, FileInfoCreationError>)
    requires
        T::spec_alignment() >= 1,
        spec_required_size::<T>(name@.len()) <= usize::MAX,
    ensures
        final(storage).addr == old(storage).addr,
        final(storage).bytes@.len() == old(storage).bytes@.len(),
        match r {
            Ok(tail) => {
                &&& spec_aligned::<T>(old(storage).addr)
                &&& all_ucs2(name@)
                &&& tail@ == ucs2_units(name@).push(0)
                &&& tail@.len() == name@.len() + 1
                &&& spec_required_size::<T>(name@.len()) <= old(storage).bytes@.len()
                &&& tail_at(final(storage).bytes@, T::spec_name_offset() as int, tail@)
                &&& forall|i: int|
                    0 <= i < final(storage).bytes@.len() && !(T::spec_name_offset() <= i
                        < spec_required_size::<T>(name@.len())) ==> final(storage).bytes@[i]
                        == old(storage).bytes@[i]
            },
            Err(e) => {
                &&& final(storage).bytes@ == old(storage).bytes@
                &&& spec_failure::<T>(
                    old(storage).addr,
                    old(storage).bytes@.len(),
                    name@,
                    e,
                )
            },
        },
{
    check_alignment::<T>(storage)?;

    let off = T::name_offset();
    let n = name.unicode_len();
    let required = off + (n + 1) * 2;
    if storage.bytes.len() < required {
        return Err(FileInfoCreationError::InsufficientStorage(required));
    }

    let mut tail = match str_to_ucs2(name) {
        Ok(v) => v,
        Err(c) => {
            return Err(FileInfoCreationError::InvalidChar(c));
        },
    };
    tail.push(0);

    let mut k: usize = 0;
    while k < tail.len()
        invariant
            storage.addr == old(storage).addr,
            storage.bytes@.len() == old(storage).bytes@.len(),
            k <= tail@.len(),
            tail@.len() == name@.len() + 1,
            off == T::spec_name_offset(),
            off + 2 * tail@.len() <= storage.bytes.len(),
            forall|j: int| 0 <= j < k ==> le16_at(storage.bytes@, off + 2 * j) == tail@[j],
            forall|i: int|
                0 <= i < storage.bytes@.len() && !(off <= i < off + 2 * k) ==> storage.bytes@[i]
                    == old(storage).bytes@[i],
        decreases tail@.len() - k,
    {
        let u = tail[k];
        write_u16_at(&mut storage.bytes, off + 2 * k, u);
        k = k + 1;
    }
    Ok(tail)
}

/// Scan caller-trusted bytes for the name tail laid out at `off`: read
/// units until the first terminator, which the caller asserts is present
/// within the bytes. This is the trust-boundary scan used when
/// reinterpreting an externally supplied record.
pub(crate) fn scan_tail(b: &Vec<u8>, off: usize) -> (r: Vec<u16>)
    requires
        exists|t: Seq<u16>| tail_at(b@, off as int, t) && tail_strict(t),
    ensures
        tail_at(b@, off as int, r@),
        tail_strict(r@),
{
    let ghost t = choose|t: Seq<u16>| tail_at(b@, off as int, t) && tail_strict(t);
    let mut units: Vec<u16> = Vec::new();
    let mut k: usize = 0;
    loop
        invariant
            tail_at(b@, off as int, t),
            tail_strict(t),
            off + 2 * t.len() <= b.len(),
            k < t.len(),
            units@ == t.take(k as int),
            forall|j: int| 0 <= j < k ==> t[j] != 0,
        decreases t.len() - k,
    {
        let u = read_u16_at(b, off + 2 * k);
        assert(u == t[k as int]);
        if u == 0 {
            proof {
                if k + 1 < t.len() {
                    assert(t[k as int] != 0);
                }
                assert(k == t.len() - 1);
            }
            units.push(0);
            proof {
                assert(units@ =~= t);
            }
            return units;
        }
        units.push(u);
        k = k + 1;
        proof {
            if k >= t.len() {
                assert(t[t.len() - 1] == 0);
                assert(false);
            }
            assert(units@ =~= t.take(k as int));
        }
    }
}

} // verus!
