//! Construction and reading of variable-length file-information records:
//! a fixed little-endian header followed by a null-terminated sequence of
//! 16-bit name characters, laid out in a caller-supplied byte buffer.

pub mod attrib;
pub mod bytes;
pub mod chars;
pub mod file_info;
pub mod fs_info;
pub mod guid;
pub mod proto;
pub mod time;
pub mod volume_label;
