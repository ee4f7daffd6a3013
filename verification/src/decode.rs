use crate::constants::{VTX_PREFIX, VTX_VERSION_V1, VTX_VERSION_V2};
use crate::error::VtxFormatError;
use crate::layout::{decoded, decoded_v2_parts, declared_metadata_len, has_prefix, le_u32};
use crate::types::{DecodeWithMetadataResult, DecodedVtx, DecodedVtxView};
use vstd::prelude::*;

verus! {

/// Reads the version and the component of a container; the metadata of a
/// version 2 container is skipped.
pub fn decode<'a>(bytes: &'a [u8]) -> (result: Result<(u8, &'a [u8]), VtxFormatError>)
    ensures
        match result {
            Ok((version, component)) => decoded(bytes@) matches Ok(parts) && parts.version
                == version && parts.component == component@,
            Err(e) => decoded(bytes@) == Err::<DecodedVtxView, VtxFormatError>(e),
        },
        bytes@.len() < 4 ==> result == Err::<(u8, &[u8]), _>(VtxFormatError::TooShort),
        bytes@.len() >= 4 && !has_prefix(bytes@) ==> result == Err::<(u8, &[u8]), _>(
            VtxFormatError::InvalidPrefix,
        ),
        bytes@.len() >= 4 && has_prefix(bytes@) && bytes@[3] != VTX_VERSION_V1 && bytes@[3]
            != VTX_VERSION_V2 ==> result == Err::<(u8, &[u8]), _>(
            VtxFormatError::UnsupportedVersion(bytes@[3]),
        ),
        bytes@.len() >= 8 && has_prefix(bytes@) && bytes@[3] == VTX_VERSION_V2 && bytes@.len() - 8
            < declared_metadata_len(bytes@) ==> result == Err::<(u8, &[u8]), _>(
            VtxFormatError::InvalidMetadataLength,
        ),
{
    match decode_with_metadata(bytes) {
        Ok(parts) => Ok((parts.version, parts.component)),
        Err(e) => Err(e),
    }
}

/// Reads a container: its version, its metadata if it is of version 2, and its
/// component. The parts are slices of `bytes`; nothing is copied.
pub fn decode_with_metadata<'a>(bytes: &'a [u8]) -> (result: DecodeWithMetadataResult<'a>)
    ensures
        match result {
            Ok(parts) => decoded(bytes@) == Ok::<DecodedVtxView, VtxFormatError>(parts@),
            Err(e) => decoded(bytes@) == Err::<DecodedVtxView, VtxFormatError>(e),
        },
        bytes@.len() < 4 ==> result == Err::<DecodedVtx, _>(VtxFormatError::TooShort),
        bytes@.len() >= 4 && !has_prefix(bytes@) ==> result == Err::<DecodedVtx, _>(
            VtxFormatError::InvalidPrefix,
        ),
        bytes@.len() >= 4 && has_prefix(bytes@) && bytes@[3] != VTX_VERSION_V1 && bytes@[3]
            != VTX_VERSION_V2 ==> result == Err::<DecodedVtx, _>(
            VtxFormatError::UnsupportedVersion(bytes@[3]),
        ),
        bytes@.len() >= 8 && has_prefix(bytes@) && bytes@[3] == VTX_VERSION_V2 && bytes@.len() - 8
            < declared_metadata_len(bytes@) ==> result == Err::<DecodedVtx, _>(
            VtxFormatError::InvalidMetadataLength,
        ),
{
    if bytes.len() < 4 {
        return Err(VtxFormatError::TooShort);
    }
    if bytes[0] != VTX_PREFIX[0] || bytes[1] != VTX_PREFIX[1] || bytes[2] != VTX_PREFIX[2] {
        return Err(VtxFormatError::InvalidPrefix);
    }
    let version = bytes[3];
    if version == VTX_VERSION_V1 {
        Ok(DecodedVtx { version, metadata: None, component: &bytes[4..bytes.len()] })
    } else if version == VTX_VERSION_V2 {
        match decode_v2_parts(bytes) {
            Ok((meta, component)) => Ok(DecodedVtx { version, metadata: Some(meta), component }),
            Err(e) => Err(e),
        }
    } else {
        Err(VtxFormatError::UnsupportedVersion(version))
    }
}

/// Splits what follows the first four bytes of a version 2 container into
/// metadata and component.
fn decode_v2_parts<'a>(bytes: &'a [u8]) -> (result: Result<(&'a [u8], &'a [u8]), VtxFormatError>)
    ensures
        match result {
            Ok((meta, component)) => decoded_v2_parts(bytes@) == Ok::<
                (Seq<u8>, Seq<u8>),
                VtxFormatError,
            >((meta@, component@)),
            Err(e) => decoded_v2_parts(bytes@) == Err::<(Seq<u8>, Seq<u8>), VtxFormatError>(e),
        },
{
    if bytes.len() < 8 {
        return Err(VtxFormatError::TooShort);
    }
    let meta_len = u32_from_le_bytes([bytes[4], bytes[5], bytes[6], bytes[7]]);
    assert(bytes@.subrange(4, 8) =~= seq![bytes@[4], bytes@[5], bytes@[6], bytes@[7]]);
    let meta_start = 8usize;
    match meta_start.checked_add(meta_len as usize) {
        Some(meta_end) if meta_end <= bytes.len() => Ok(
            (&bytes[meta_start..meta_end], &bytes[meta_end..bytes.len()]),
        ),
        _ => Err(VtxFormatError::InvalidMetadataLength),
    }
}

/// The `u32` that four bytes spell, least significant byte first.
fn u32_from_le_bytes(field: [u8; 4]) -> (n: u32)
    ensures
        n == le_u32(field@),
{
    field[0] as u32 + 0x100 * (field[1] as u32) + 0x1_0000 * (field[2] as u32) + 0x100_0000 * (
    field[3] as u32)
}

} // verus!
