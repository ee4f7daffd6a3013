//! What holds of the layout for every buffer: reading undoes writing, writing
//! undoes reading, and a length field never passes for a smaller one.

use crate::constants::{VTX_MAGIC_V1, VTX_MAGIC_V2, VTX_PREFIX, VTX_VERSION_V1, VTX_VERSION_V2};
use crate::error::VtxFormatError;
use crate::layout::{
    declared_metadata_len, decoded, encoded_v1, encoded_v2, has_prefix, le_u32, le_u32_bytes,
};
use crate::types::DecodedVtxView;
use vstd::prelude::*;

verus! {

/// Each magic constant is the prefix followed by its version byte.
pub proof fn lemma_magic_is_prefix_and_version()
    ensures
        VTX_MAGIC_V1@ == VTX_PREFIX@.push(VTX_VERSION_V1),
        VTX_MAGIC_V2@ == VTX_PREFIX@.push(VTX_VERSION_V2),
{
}

/// Four bytes spell a number below 2^32, and writing that number gives the
/// four bytes back.
pub proof fn lemma_le_u32_of_bytes(field: Seq<u8>)
    requires
        field.len() == 4,
    ensures
        le_u32(field) <= u32::MAX,
        le_u32_bytes(le_u32(field)) == field,
{
    let n = le_u32(field) as int;
    let upper = field[1] + 0x100 * field[2] + 0x1_0000 * field[3];
    let top = field[2] + 0x100 * field[3];
    assert(n == field[0] + 0x100 * upper);
    assert(n % 0x100 == field[0] && n / 0x100 == upper);
    assert(upper == field[1] + 0x100 * top);
    assert(upper % 0x100 == field[1] && upper / 0x100 == top);
    assert(n / 0x1_0000 == top);
    assert(top % 0x100 == field[2] && top / 0x100 == field[3]);
    assert(n / 0x100_0000 == field[3]);
    assert(le_u32_bytes(le_u32(field)) =~= field);
}

/// Writing a number gives four bytes, and they spell its low 32 bits: the
/// number itself if it is below 2^32.
pub proof fn lemma_le_u32_of_number(n: nat)
    ensures
        le_u32_bytes(n).len() == 4,
        le_u32(le_u32_bytes(n)) == n % 0x1_0000_0000,
        n <= u32::MAX ==> le_u32(le_u32_bytes(n)) == n,
{
    let low = (n % 0x1_0000_0000) as int;
    let q1 = n as int / 0x100;
    let q2 = n as int / 0x1_0000;
    let q3 = n as int / 0x100_0000;
    let q4 = n as int / 0x1_0000_0000;
    assert(q1 / 0x100 == q2 && q2 / 0x100 == q3 && q3 / 0x100 == q4);
    assert(n == n % 0x100 + 0x100 * q1);
    assert(q1 == q1 % 0x100 + 0x100 * q2);
    assert(q2 == q2 % 0x100 + 0x100 * q3);
    assert(q3 == q3 % 0x100 + 0x100 * q4);
    assert(n == low + 0x1_0000_0000 * q4);
    assert(low == n % 0x100 + 0x100 * (q1 % 0x100) + 0x1_0000 * (q2 % 0x100) + 0x100_0000 * (q3
        % 0x100));
}

/// A version 1 container reads back as version 1, without metadata, with the
/// component it was built from.
pub proof fn lemma_roundtrip_v1(component: Seq<u8>)
    ensures
        decoded(encoded_v1(component)) == Ok::<DecodedVtxView, VtxFormatError>(
            DecodedVtxView { version: 1, metadata: None, component },
        ),
{
    let bytes = encoded_v1(component);
    assert(bytes.subrange(0, 3) =~= VTX_PREFIX@);
    assert(bytes.subrange(4, bytes.len() as int) =~= component);
}

/// A version 2 container whose metadata length fits the length field reads
/// back as version 2, with the metadata and the component it was built from.
pub proof fn lemma_roundtrip_v2(component: Seq<u8>, metadata: Seq<u8>)
    requires
        metadata.len() <= u32::MAX,
    ensures
        decoded(encoded_v2(component, metadata)) == Ok::<DecodedVtxView, VtxFormatError>(
            DecodedVtxView { version: 2, metadata: Some(metadata), component },
        ),
{
    let bytes = encoded_v2(component, metadata);
    let metadata_end = 8 + metadata.len();
    lemma_le_u32_of_number(metadata.len());
    assert(bytes.subrange(0, 3) =~= VTX_PREFIX@);
    assert(bytes.subrange(4, 8) =~= le_u32_bytes(metadata.len()));
    assert(bytes.subrange(8, metadata_end as int) =~= metadata);
    assert(bytes.subrange(metadata_end as int, bytes.len() as int) =~= component);
}

/// An empty component survives both layouts: the container then ends with its
/// header, or with its metadata.
pub proof fn lemma_roundtrip_empty_component(metadata: Seq<u8>)
    requires
        metadata.len() <= u32::MAX,
    ensures
        decoded(encoded_v1(Seq::empty())) == Ok::<DecodedVtxView, VtxFormatError>(
            DecodedVtxView { version: 1, metadata: None, component: Seq::empty() },
        ),
        decoded(encoded_v2(Seq::empty(), metadata)) == Ok::<DecodedVtxView, VtxFormatError>(
            DecodedVtxView { version: 2, metadata: Some(metadata), component: Seq::empty() },
        ),
{
    lemma_roundtrip_v1(Seq::empty());
    lemma_roundtrip_v2(Seq::empty(), metadata);
}

/// Empty metadata is still metadata: a version 2 container built with none
/// reads back with an empty block, not without one.
pub proof fn lemma_roundtrip_empty_metadata(component: Seq<u8>)
    ensures
        decoded(encoded_v2(component, Seq::empty())) == Ok::<DecodedVtxView, VtxFormatError>(
            DecodedVtxView { version: 2, metadata: Some(Seq::empty()), component },
        ),
{
    lemma_roundtrip_v2(component, Seq::empty());
}

/// Whatever reads as a container is the container that its parts build:
/// version 1 has no metadata, version 2 has some, and there is no third.
pub proof fn lemma_decoded_parts_rebuild_bytes(bytes: Seq<u8>)
    ensures
        decoded(bytes) matches Ok(parts) ==> match parts.metadata {
            None => parts.version == 1 && bytes == encoded_v1(parts.component),
            Some(metadata) => parts.version == 2 && metadata.len() <= u32::MAX && bytes
                == encoded_v2(parts.component, metadata),
        },
{
    if let Ok(parts) = decoded(bytes) {
        assert(bytes.subrange(0, 3) =~= VTX_PREFIX@);
        match parts.metadata {
            None => {
                assert(bytes =~= encoded_v1(parts.component));
            },
            Some(metadata) => {
                lemma_le_u32_of_bytes(bytes.subrange(4, 8));
                assert(bytes =~= encoded_v2(parts.component, metadata));
            },
        }
    }
}

/// A length field is taken at its full value. Where it is so large that eight
/// more would not fit in 32 bits, no buffer of a length that does fit in 32
/// bits passes for long enough.
pub proof fn lemma_length_field_never_wraps(bytes: Seq<u8>)
    requires
        8 <= bytes.len() <= u32::MAX,
        has_prefix(bytes),
        bytes[3] == VTX_VERSION_V2,
        8 + declared_metadata_len(bytes) > u32::MAX,
    ensures
        decoded(bytes) == Err::<DecodedVtxView, VtxFormatError>(
            VtxFormatError::InvalidMetadataLength,
        ),
{
}

} // verus!
