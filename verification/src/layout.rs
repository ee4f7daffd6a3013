//! The byte layout of a container, as functions on sequences of bytes.
//!
//! | offset      | size | field                                   |
//! |-------------|------|-----------------------------------------|
//! | 0           | 3    | prefix `VTX`                            |
//! | 3           | 1    | version, 1 or 2                         |
//! | 4           | 4    | version 2: metadata length, `u32`, little-endian |
//! | 8           | n    | version 2: metadata                     |
//! | 4, or 8 + n | rest | component                               |

use crate::constants::{VTX_MAGIC_V1, VTX_MAGIC_V2, VTX_PREFIX, VTX_VERSION_V1, VTX_VERSION_V2};
use crate::error::VtxFormatError;
use crate::types::DecodedVtxView;
use vstd::prelude::*;

verus! {

/// The number that four bytes spell, least significant byte first.
pub open spec fn le_u32(field: Seq<u8>) -> nat
    recommends
        field.len() == 4,
{
    (field[0] + 0x100 * field[1] + 0x1_0000 * field[2] + 0x100_0000 * field[3]) as nat
}

/// The four bytes that spell the low 32 bits of `n`, least significant byte
/// first.
pub open spec fn le_u32_bytes(n: nat) -> Seq<u8> {
    seq![
        (n % 0x100) as u8,
        ((n / 0x100) % 0x100) as u8,
        ((n / 0x1_0000) % 0x100) as u8,
        ((n / 0x100_0000) % 0x100) as u8,
    ]
}

/// The bytes of a version 1 container that wraps `component`.
pub open spec fn encoded_v1(component: Seq<u8>) -> Seq<u8> {
    VTX_MAGIC_V1@ + component
}

/// The bytes of a version 2 container that wraps `component` and carries
/// `metadata`. The length field holds the low 32 bits of the metadata's
/// length.
pub open spec fn encoded_v2(component: Seq<u8>, metadata: Seq<u8>) -> Seq<u8> {
    VTX_MAGIC_V2@ + le_u32_bytes(metadata.len()) + metadata + component
}

/// Whether `bytes` has room for the prefix and starts with it.
pub open spec fn has_prefix(bytes: Seq<u8>) -> bool {
    bytes.len() >= 3 && bytes.subrange(0, 3) =~= VTX_PREFIX@
}

/// The metadata length that a version 2 header announces.
pub open spec fn declared_metadata_len(bytes: Seq<u8>) -> nat
    recommends
        bytes.len() >= 8,
{
    le_u32(bytes.subrange(4, 8))
}

/// What follows the first four bytes of a version 2 container: the metadata
/// and the component, or the reason why there are none.
pub open spec fn decoded_v2_parts(bytes: Seq<u8>) -> Result<(Seq<u8>, Seq<u8>), VtxFormatError> {
    if bytes.len() < 8 {
        Err(VtxFormatError::TooShort)
    } else if 8 + declared_metadata_len(bytes) > bytes.len() {
        Err(VtxFormatError::InvalidMetadataLength)
    } else {
        let metadata_end = 8 + declared_metadata_len(bytes);
        Ok(
            (
                bytes.subrange(8, metadata_end as int),
                bytes.subrange(metadata_end as int, bytes.len() as int),
            ),
        )
    }
}

/// What `bytes` holds, read as a container: its parts, or the first reason in
/// the order length, prefix, version, body why it is none.
pub open spec fn decoded(bytes: Seq<u8>) -> Result<DecodedVtxView, VtxFormatError> {
    if bytes.len() < 4 {
        Err(VtxFormatError::TooShort)
    } else if !has_prefix(bytes) {
        Err(VtxFormatError::InvalidPrefix)
    } else if bytes[3] == VTX_VERSION_V1 {
        Ok(
            DecodedVtxView {
                version: VTX_VERSION_V1,
                metadata: None,
                component: bytes.subrange(4, bytes.len() as int),
            },
        )
    } else if bytes[3] == VTX_VERSION_V2 {
        match decoded_v2_parts(bytes) {
            Ok((metadata, component)) => Ok(
                DecodedVtxView { version: VTX_VERSION_V2, metadata: Some(metadata), component },
            ),
            Err(e) => Err(e),
        }
    } else {
        Err(VtxFormatError::UnsupportedVersion(bytes[3]))
    }
}

} // verus!
