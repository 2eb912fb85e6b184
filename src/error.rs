use vstd::prelude::*;

verus! {

/// The errors that decoding an NTFS structure can report.
#[derive(Clone, Copy, Debug, PartialEq, Eq)]
pub enum NtfsError {
    /// The signature of a File Record is not `FILE`.
    InvalidNtfsFileSignature { position: u64, expected: [u8; 4], actual: [u8; 4] },
    /// A read starting at `position` needs more bytes than the reader holds.
    UnexpectedEof { position: u64 },
    /// A seek relative to `position` would leave the range of `u64` offsets.
    InvalidSeek { position: u64 },
    /// The entry at `position` declares a length too small to hold its header,
    /// so stepping over it would not advance the traversal.
    InvalidIndexEntryLength { position: u64, length: u16 },
}

} // verus!
