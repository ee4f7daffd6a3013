//! The `.vtx` container format: a four-byte header (the prefix `VTX` and a
//! version byte), for version 2 a length-prefixed metadata block, and then the
//! wrapped component bytes up to the end of the buffer.
//!
//! [`encode_v1`] and [`encode_v2`] build a container, [`decode`] and
//! [`decode_with_metadata`] take one apart. [`layout`] says in terms of byte
//! sequences what either side computes, and [`laws`] proves how the two fit.

pub mod constants;
pub mod decode;
pub mod encode;
pub mod error;
pub mod laws;
pub mod layout;
pub mod types;

pub use constants::{VTX_MAGIC_V1, VTX_MAGIC_V2, VTX_PREFIX, VTX_VERSION_V1, VTX_VERSION_V2};
pub use decode::{decode, decode_with_metadata};
pub use encode::{encode_v1, encode_v2};
pub use error::VtxFormatError;
pub use types::{DecodeWithMetadataResult, DecodedVtx, DecodedVtxView};
