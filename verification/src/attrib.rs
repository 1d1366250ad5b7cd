//! The attribute bitset carried by file records. Which bit means what is
//! the record consumer's concern; this layer stores the bits as given.

use vstd::prelude::*;

verus! {

/// Attribute bits of a file, stored as a 64-bit little-endian header field.
#[derive(Clone, Copy, PartialEq, Eq, Structural, Debug)]
pub struct FileAttribute {
    pub bits: u64,
}

} // verus!
