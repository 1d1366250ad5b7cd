//! Identity tags: a 128-bit constant per record layout, through which a
//! caller and the record consumer agree on which layout a buffer holds.

use vstd::prelude::*;

verus! {

/// A 128-bit identity tag, split as the conventional four groups: a
/// 32-bit word, two 16-bit words, and the final eight bytes packed
/// big-endian into a 64-bit word.
#[derive(Clone, Copy, PartialEq, Eq, Structural, Debug)]
pub struct Guid {
    pub time_low: u32,
    pub time_mid: u16,
    pub time_high: u16,
    pub tail: u64,
}

} // verus!
