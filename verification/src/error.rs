//! The error a decode can report.

use vstd::prelude::*;

verus! {

/// Why decoding a fee record failed. The only recoverable failure is a
/// buffer with fewer bytes than the record's fixed width; the caller is
/// expected to re-fetch a correctly sized buffer.
#[derive(Clone, Copy, Debug, PartialEq, Eq)]
pub enum DecodeError {
    BufferTooShort,
}

} // verus!
