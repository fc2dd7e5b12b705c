//! A fixed-capacity byte buffer for incremental text writes.
//!
//! A [`WriteBuf`] holds at most `N` bytes. Construction from a byte source
//! silently truncates to the capacity, while appends are all-or-nothing:
//! a fragment that does not fit in the remaining space is rejected whole
//! and the buffer is left unchanged. The contents can be read back either
//! as validated UTF-8 text or, consuming the buffer, as a lossy ASCII
//! string of the same capacity in which every byte outside the ASCII
//! range becomes `~`.

pub mod ascii;
pub mod buffer;
pub mod laws;

pub use ascii::AsciiString;
pub use buffer::WriteBuf;
