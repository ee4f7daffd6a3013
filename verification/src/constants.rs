use vstd::prelude::*;

verus! {

/// The three bytes every container starts with: `VTX`.
pub const VTX_PREFIX: [u8; 3] = [0x56, 0x54, 0x58];

/// Version byte of the basic layout: header, then component.
pub const VTX_VERSION_V1: u8 = 0x01;

/// Version byte of the layout that carries a metadata block.
pub const VTX_VERSION_V2: u8 = 0x02;

/// Header of a version 1 container: prefix and version byte.
pub const VTX_MAGIC_V1: [u8; 4] = [0x56, 0x54, 0x58, 0x01];

/// Leading four bytes of a version 2 container: prefix and version byte.
pub const VTX_MAGIC_V2: [u8; 4] = [0x56, 0x54, 0x58, 0x02];


} // verus!
