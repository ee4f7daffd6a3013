use vstd::prelude::*;

verus! {

/// Why a buffer was refused as a container.
#[derive(Debug, Clone, Copy, PartialEq, Eq)]
pub enum VtxFormatError {
    /// The buffer ends before the header does: fewer than four bytes, or, with
    /// version 2, fewer than eight.
    TooShort,
    /// The first three bytes are not `VTX`.
    InvalidPrefix,
    /// The prefix is right and the version byte, carried here, is neither 1
    /// nor 2.
    UnsupportedVersion(u8),
    /// A version 2 header announces more metadata bytes than follow it.
    InvalidMetadataLength,
}

} // verus!
