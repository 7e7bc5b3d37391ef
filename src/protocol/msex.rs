//! MSEX, the media server extensions layer. Its secondary header carries the MSEX
//! version before the message tag. A message with an unknown tag must be discarded
//! silently, so that the layer can evolve.

use crate::protocol::{Header as BaseHeader, Message as LayerMessage};
use crate::wire::{CodecError, ReadFromBytes, SizeBytes, WriteToBytes};
use vstd::prelude::*;

verus! {

/// "MSEX", the tag of this layer in the base header.
pub const LAYER_TAG: u32 = 0x5845534d;

/// The secondary header of MSEX messages.
#[derive(Clone, Copy, Debug, PartialEq, Eq)]
pub struct Header {
    /// The base header; its content type is "MSEX".
    pub citp_header: BaseHeader,
    /// The MSEX major version.
    pub version_major: u8,
    /// The MSEX minor version.
    pub version_minor: u8,
    /// The tag of the message within the layer.
    pub content_type: u32,
}

/// The model of a `Header`.
pub ghost struct HeaderView {
    pub citp_header: BaseHeader,
    pub version_major: u8,
    pub version_minor: u8,
    pub content_type: u32,
}

impl HeaderView {
    /// The fields in the order in which they are written.
    pub open spec fn fields(self) -> (BaseHeader, (u8, (u8, u32))) {
        (self.citp_header, (self.version_major, (self.version_minor, self.content_type)))
    }

    /// The model whose fields, in the order in which they are written, are `t`.
    pub open spec fn from_fields(t: (BaseHeader, (u8, (u8, u32)))) -> HeaderView {
        HeaderView {
            citp_header: t.0,
            version_major: t.1.0,
            version_minor: t.1.1.0,
            content_type: t.1.1.1,
        }
    }
}

impl View for Header {
    type V = HeaderView;

    open spec fn view(&self) -> HeaderView {
        HeaderView {
            citp_header: self.citp_header@,
            version_major: self.version_major,
            version_minor: self.version_minor,
            content_type: self.content_type,
        }
    }
}

impl SizeBytes for Header {
    open spec fn spec_fits(m: HeaderView) -> bool {
        <(BaseHeader, (u8, (u8, u32)))>::spec_fits(m.fields())
    }

    open spec fn spec_bytes(m: HeaderView) -> Seq<u8> {
        <(BaseHeader, (u8, (u8, u32)))>::spec_bytes(m.fields())
    }

    fn fits(&self) -> (r: bool) {
        self.citp_header.fits()
    }

    fn size_bytes(&self) -> (r: usize) {
        self.citp_header.size_bytes() + 1 + 1 + 4
    }
}

impl WriteToBytes for Header {
    fn write_to_bytes(&self, out: &mut Vec<u8>) -> (r: Result<(), CodecError>) {
        if !self.fits() {
            return Err(CodecError::Oversize);
        }
        let ghost start = out@;
        let _ = self.citp_header.write_to_bytes(out);
        let _ = self.version_major.write_to_bytes(out);
        let _ = self.version_minor.write_to_bytes(out);
        let _ = self.content_type.write_to_bytes(out);
        proof {
            assert(out@ =~= start + Self::spec_bytes(self@));
        }
        Ok(())
    }
}

impl ReadFromBytes for Header {
    open spec fn spec_parse(s: Seq<u8>) -> Option<(HeaderView, nat)> {
        match <(BaseHeader, (u8, (u8, u32)))>::spec_parse(s) {
            Some((t, n)) => Some((HeaderView::from_fields(t), n)),
            None => None,
        }
    }

    proof fn lemma_parse_bytes(m: HeaderView, rest: Seq<u8>) {
        <(BaseHeader, (u8, (u8, u32)))>::lemma_parse_bytes(m.fields(), rest);
    }

    fn read_from_bytes(buf: &[u8], pos: usize) -> (r: Result<(Header, usize), CodecError>) {
        let (t, end) = <(BaseHeader, (u8, (u8, u32)))>::read_from_bytes(buf, pos)?;
        let (citp_header, (version_major, (version_minor, content_type))) = t;
        Ok((Header { citp_header, version_major, version_minor, content_type }, end))
    }
}

/// An MSEX message: the headers and the payload.
pub type Message<T> = LayerMessage<Header, T>;

/// MSEX/CInf, the client information message: the MSEX versions that the client supports.
/// A client sends it first on a new connection to a media server.
#[derive(Clone, Debug, PartialEq, Eq)]
pub struct CInf {
    /// The supported versions, each as major and minor version.
    pub supported_msex_versions: Vec<[u8; 2]>,
    /// Data that later versions of the message may append.
    pub future_message_data: Vec<u8>,
}

impl CInf {
    /// "CInf".
    pub const CONTENT_TYPE: u32 = 0x666e4943;
}

} // verus!
