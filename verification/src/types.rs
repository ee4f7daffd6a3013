use crate::error::VtxFormatError;
use vstd::prelude::*;

verus! {

/// The parts of a container, borrowed from the buffer they were found in.
#[derive(Debug, Clone, Copy, PartialEq, Eq)]
pub struct DecodedVtx<'a> {
    /// The version byte of the header.
    pub version: u8,
    /// The metadata block; only version 2 has one.
    pub metadata: Option<&'a [u8]>,
    /// The wrapped component: every byte after the header and the metadata.
    pub component: &'a [u8],
}

/// What a [`DecodedVtx`] stands for: the same parts as sequences of bytes.
pub struct DecodedVtxView {
    pub version: u8,
    pub metadata: Option<Seq<u8>>,
    pub component: Seq<u8>,
}

impl<'a> View for DecodedVtx<'a> {
    type V = DecodedVtxView;

    open spec fn view(&self) -> DecodedVtxView {
        DecodedVtxView {
            version: self.version,
            metadata: match self.metadata {
                Some(m) => Some(m@),
                None => None,
            },
            component: self.component@,
        }
    }
}

pub type DecodeWithMetadataResult<'a> = Result<DecodedVtx<'a>, VtxFormatError>;

} // verus!
