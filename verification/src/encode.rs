use crate::constants::{VTX_MAGIC_V1, VTX_MAGIC_V2};
use crate::layout::{encoded_v1, encoded_v2, le_u32_bytes};
use vstd::prelude::*;

verus! {

/// Builds a version 1 container: the four header bytes, then the component.
pub fn encode_v1(component_bytes: &[u8]) -> (out: Vec<u8>)
    ensures
        out@ == encoded_v1(component_bytes@),
        out@.len() == 4 + component_bytes@.len(),
{
    let mut out = Vec::with_capacity(VTX_MAGIC_V1.len().saturating_add(component_bytes.len()));
    out.extend_from_slice(VTX_MAGIC_V1.as_slice());
    out.extend_from_slice(component_bytes);
    out
}

/// Builds a version 2 container: the four header bytes, the length of the
/// metadata as a little-endian `u32`, the metadata, then the component.
///
/// The length field has 32 bits. Of a longer metadata block it holds the
/// length's low 32 bits, and such a container does not read back as it was
/// written.
pub fn encode_v2(component_bytes: &[u8], metadata_json: &[u8]) -> (out: Vec<u8>)
    ensures
        out@ == encoded_v2(component_bytes@, metadata_json@),
        out@.len() == 8 + metadata_json@.len() + component_bytes@.len(),
{
    let len = length_field(metadata_json.len());
    let mut out = Vec::with_capacity(
        VTX_MAGIC_V2.len().saturating_add(4).saturating_add(metadata_json.len()).saturating_add(
            component_bytes.len(),
        ),
    );
    out.extend_from_slice(VTX_MAGIC_V2.as_slice());
    out.extend_from_slice(len.as_slice());
    out.extend_from_slice(metadata_json);
    out.extend_from_slice(component_bytes);
    out
}

/// The low 32 bits of `n` as four bytes, least significant byte first.
fn length_field(n: usize) -> (field: [u8; 4])
    ensures
        field@ == le_u32_bytes(n as nat),
{
    [
        (n % 0x100) as u8,
        ((n / 0x100) % 0x100) as u8,
        ((n / 0x1_0000) % 0x100) as u8,
        ((n / 0x100_0000) % 0x100) as u8,
    ]
}

} // verus!
