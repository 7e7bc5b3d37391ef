//! The base layer: the header that starts every CITP message, the secondary header that
//! names a message within a layer, and the pairing of a header with its payload.
//!
//! Each further layer of the protocol has a module of its own.

use crate::wire::{
    le16, le32, u16_at, u32_at, lemma_le16, lemma_le32, read_le16, read_le32, push_le16,
    push_le32, CodecError,
};
use vstd::prelude::*;

pub use crate::text::{CString, Ucs2};
pub use crate::wire::{
    read_new_vec, read_vec, ConstSizeBytes, ReadFromBytes, SizeBytes, WriteToBytes,
};

pub mod caex;
pub mod finf;
pub mod fptc;
pub mod fsel;
pub mod msex;
pub mod pinf;
pub mod sdmx;

verus! {

/// "CITP", the cookie that starts every message, as a little-endian integer.
pub const COOKIE: u32 = 0x50544943;

/// The number of bytes of the base header.
pub const HEADER_LEN: usize = 20;

/// The number of bytes of a content-type tag.
pub const CONTENT_TYPE_LEN: usize = 4;

/// The request-correlation field of the base header: one 16-bit value read in one of two
/// ways. In a request it is the sender's request index, counting from 1 and skipping 0; in
/// a response it repeats the index of the request answered. 0 means that it is not set.
#[derive(Clone, Copy, Debug, PartialEq, Eq, Structural)]
pub struct Kind {
    pub value: u16,
}

impl View for Kind {
    type V = Kind;

    open spec fn view(&self) -> Kind {
        *self
    }
}

/// The request index that follows `current`: one more, wrapping from 65535 back to 1, so
/// that 0 is never used.
pub open spec fn spec_next_request_index(current: u16) -> u16 {
    if current == 0xffff {
        1
    } else {
        (current + 1) as u16
    }
}

impl Kind {
    /// The field of a request with the given index.
    pub fn request_index(index: u16) -> (r: Kind)
        ensures
            r.value == index,
    {
        Kind { value: index }
    }

    /// The field of a response to a message whose field is `request`: the same value.
    pub fn in_response_to(request: Kind) -> (r: Kind)
        ensures
            r.value == request.value,
    {
        Kind { value: request.value }
    }

    /// Whether this field, read in a response, answers the request whose field is
    /// `request`. A zero on either side never matches.
    pub fn answers(&self, request: &Kind) -> (r: bool)
        ensures
            r == (request.value != 0 && self.value == request.value),
    {
        request.value != 0 && self.value == request.value
    }

    /// The index for the next request after one with index `current`.
    pub fn next_request_index(current: u16) -> (r: u16)
        ensures
            r == spec_next_request_index(current),
            r != 0,
    {
        if current == 0xffff {
            1
        } else {
            current + 1
        }
    }
}

/// The base header that starts every message.
#[derive(Clone, Copy, Debug, PartialEq, Eq, Structural)]
pub struct Header {
    /// `COOKIE`.
    pub cookie: u32,
    /// Set to 1.
    pub version_major: u8,
    /// Set to 0.
    pub version_minor: u8,
    /// The request-correlation field.
    pub kind: Kind,
    /// The size of the whole message, this header included.
    pub message_size: u32,
    /// The number of fragments of the message.
    pub message_part_count: u16,
    /// The index of this fragment, from 0.
    pub message_part: u16,
    /// The tag of the layer that follows.
    pub content_type: u32,
}

impl View for Header {
    type V = Header;

    open spec fn view(&self) -> Header {
        *self
    }
}

impl SizeBytes for Header {
    open spec fn spec_fits(m: Header) -> bool {
        true
    }

    fn fits(&self) -> (r: bool) {
        true
    }

    open spec fn spec_bytes(m: Header) -> Seq<u8> {
        le32(m.cookie) + seq![m.version_major, m.version_minor] + le16(m.kind.value) + le32(
            m.message_size,
        ) + le16(m.message_part_count) + le16(m.message_part) + le32(m.content_type)
    }

    fn size_bytes(&self) -> (r: usize) {
        HEADER_LEN
    }
}

impl ConstSizeBytes for Header {
    const SIZE_BYTES: usize = 20;

    proof fn lemma_const_size(m: Header) {
    }
}

impl WriteToBytes for Header {
    fn write_to_bytes(&self, out: &mut Vec<u8>) -> (r: Result<(), CodecError>) {
        let ghost start = out@;
        push_le32(out, self.cookie);
        out.push(self.version_major);
        out.push(self.version_minor);
        push_le16(out, self.kind.value);
        push_le32(out, self.message_size);
        push_le16(out, self.message_part_count);
        push_le16(out, self.message_part);
        push_le32(out, self.content_type);
        proof {
            assert(out@ =~= start + Self::spec_bytes(*self));
        }
        Ok(())
    }
}

impl ReadFromBytes for Header {
    open spec fn spec_parse(s: Seq<u8>) -> Option<(Header, nat)> {
        if s.len() < 20 {
            None
        } else {
            Some(
                (
                    Header {
                        cookie: u32_at(s, 0),
                        version_major: s[4],
                        version_minor: s[5],
                        kind: Kind { value: u16_at(s, 6) },
                        message_size: u32_at(s, 8),
                        message_part_count: u16_at(s, 12),
                        message_part: u16_at(s, 14),
                        content_type: u32_at(s, 16),
                    },
                    20,
                ),
            )
        }
    }

    proof fn lemma_parse_bytes(m: Header, rest: Seq<u8>) {
        let s = Self::spec_bytes(m) + rest;
        lemma_le32(m.cookie);
        lemma_le16(m.kind.value);
        lemma_le32(m.message_size);
        lemma_le16(m.message_part_count);
        lemma_le16(m.message_part);
        lemma_le32(m.content_type);
        assert(s.subrange(0, 4) =~= le32(m.cookie));
        assert(s.subrange(6, 8) =~= le16(m.kind.value));
        assert(s.subrange(8, 12) =~= le32(m.message_size));
        assert(s.subrange(12, 14) =~= le16(m.message_part_count));
        assert(s.subrange(14, 16) =~= le16(m.message_part));
        assert(s.subrange(16, 20) =~= le32(m.content_type));
    }

    fn read_from_bytes(buf: &[u8], pos: usize) -> (r: Result<(Header, usize), CodecError>) {
        if buf.len() - pos < HEADER_LEN {
            return Err(CodecError::Truncated);
        }
        let header = Header {
            cookie: read_le32(buf, pos),
            version_major: buf[pos + 4],
            version_minor: buf[pos + 5],
            kind: Kind { value: read_le16(buf, pos + 6) },
            message_size: read_le32(buf, pos + 8),
            message_part_count: read_le16(buf, pos + 12),
            message_part: read_le16(buf, pos + 14),
            content_type: read_le32(buf, pos + 16),
        };
        Ok((header, pos + HEADER_LEN))
    }
}


/// A layer's secondary header: the base header followed by the tag of the message within
/// the layer. Most layers use this one.
#[derive(Clone, Copy, Debug, PartialEq, Eq, Structural)]
pub struct LayerHeader {
    /// The base header; its content type names the layer.
    pub citp_header: Header,
    /// The tag of the message within the layer.
    pub content_type: u32,
}

impl View for LayerHeader {
    type V = LayerHeader;

    open spec fn view(&self) -> LayerHeader {
        *self
    }
}

impl SizeBytes for LayerHeader {
    open spec fn spec_fits(m: LayerHeader) -> bool {
        true
    }

    fn fits(&self) -> (r: bool) {
        true
    }

    open spec fn spec_bytes(m: LayerHeader) -> Seq<u8> {
        Header::spec_bytes(m.citp_header) + le32(m.content_type)
    }

    fn size_bytes(&self) -> (r: usize) {
        HEADER_LEN + CONTENT_TYPE_LEN
    }
}

impl ConstSizeBytes for LayerHeader {
    const SIZE_BYTES: usize = 24;

    proof fn lemma_const_size(m: LayerHeader) {
    }
}

impl WriteToBytes for LayerHeader {
    fn write_to_bytes(&self, out: &mut Vec<u8>) -> (r: Result<(), CodecError>) {
        let _ = self.citp_header.write_to_bytes(out);
        push_le32(out, self.content_type);
        Ok(())
    }
}

impl ReadFromBytes for LayerHeader {
    open spec fn spec_parse(s: Seq<u8>) -> Option<(LayerHeader, nat)> {
        match Header::spec_parse(s) {
            Some((h, n)) => match u32::spec_parse(s.skip(n as int)) {
                Some((c, k)) => Some((LayerHeader { citp_header: h, content_type: c }, n + k)),
                None => None,
            },
            None => None,
        }
    }

    proof fn lemma_parse_bytes(m: LayerHeader, rest: Seq<u8>) {
        let hb = Header::spec_bytes(m.citp_header);
        assert(Self::spec_bytes(m) + rest =~= hb + (le32(m.content_type) + rest));
        Header::lemma_parse_bytes(m.citp_header, le32(m.content_type) + rest);
        assert((hb + (le32(m.content_type) + rest)).skip(hb.len() as int) =~= le32(m.content_type)
            + rest);
        u32::lemma_parse_bytes(m.content_type, rest);
    }

    fn read_from_bytes(buf: &[u8], pos: usize) -> (r: Result<(LayerHeader, usize), CodecError>) {
        let (citp_header, p) = Header::read_from_bytes(buf, pos)?;
        proof {
            assert(buf@.skip(pos as int).skip(p - pos) =~= buf@.skip(p as int));
        }
        let (content_type, end) = u32::read_from_bytes(buf, p)?;
        Ok((LayerHeader { citp_header, content_type }, end))
    }
}

/// A message: a header followed by its payload.
#[derive(Clone, Debug, PartialEq, Eq)]
pub struct Message<H, T> {
    /// The headers of the message.
    pub header: H,
    /// The payload.
    pub message: T,
}

impl<H: View, T: View> View for Message<H, T> {
    type V = (H::V, T::V);

    open spec fn view(&self) -> (H::V, T::V) {
        (self.header@, self.message@)
    }
}

impl<H: SizeBytes, T: SizeBytes> SizeBytes for Message<H, T> {
    open spec fn spec_fits(m: (H::V, T::V)) -> bool {
        H::spec_fits(m.0) && T::spec_fits(m.1)
    }

    open spec fn spec_bytes(m: (H::V, T::V)) -> Seq<u8> {
        H::spec_bytes(m.0) + T::spec_bytes(m.1)
    }

    fn fits(&self) -> (r: bool) {
        self.header.fits() && self.message.fits()
    }

    fn size_bytes(&self) -> (r: usize) {
        self.header.size_bytes() + self.message.size_bytes()
    }
}

impl<H: WriteToBytes, T: WriteToBytes> WriteToBytes for Message<H, T> {
    fn write_to_bytes(&self, out: &mut Vec<u8>) -> (r: Result<(), CodecError>) {
        if !self.fits() {
            return Err(CodecError::Oversize);
        }
        let ghost start = out@;
        let _ = self.header.write_to_bytes(out);
        let _ = self.message.write_to_bytes(out);
        proof {
            assert(out@ =~= start + Self::spec_bytes(self@));
        }
        Ok(())
    }
}

impl<H: ReadFromBytes, T: ReadFromBytes> ReadFromBytes for Message<H, T> {
    open spec fn spec_parse(s: Seq<u8>) -> Option<((H::V, T::V), nat)> {
        match H::spec_parse(s) {
            Some((h, n)) => match T::spec_parse(s.skip(n as int)) {
                Some((t, k)) => Some(((h, t), n + k)),
                None => None,
            },
            None => None,
        }
    }

    proof fn lemma_parse_bytes(m: (H::V, T::V), rest: Seq<u8>) {
        let hb = H::spec_bytes(m.0);
        let tail = T::spec_bytes(m.1) + rest;
        assert(Self::spec_bytes(m) + rest =~= hb + tail);
        H::lemma_parse_bytes(m.0, tail);
        assert((hb + tail).skip(hb.len() as int) =~= tail);
        T::lemma_parse_bytes(m.1, rest);
    }

    fn read_from_bytes(buf: &[u8], pos: usize) -> (r: Result<(Message<H, T>, usize), CodecError>) {
        let (header, p) = H::read_from_bytes(buf, pos)?;
        proof {
            assert(buf@.skip(pos as int).skip(p - pos) =~= buf@.skip(p as int));
        }
        let (message, end) = T::read_from_bytes(buf, p)?;
        Ok((Message { header, message }, end))
    }
}

/// The base header of a single-part message of `size` bytes in layer `layer`.
pub open spec fn spec_base_header(layer: u32, kind: Kind, size: u32) -> Header {
    Header {
        cookie: COOKIE,
        version_major: 1,
        version_minor: 0,
        kind,
        message_size: size,
        message_part_count: 1,
        message_part: 0,
        content_type: layer,
    }
}

/// The secondary header of a single-part message of `size` bytes.
pub open spec fn spec_layer_header(layer: u32, content_type: u32, kind: Kind, size: u32) -> LayerHeader {
    LayerHeader { citp_header: spec_base_header(layer, kind, size), content_type }
}

impl<T: SizeBytes> Message<LayerHeader, T> {
    /// A single-part message of layer `layer` with message tag `content_type`, whose
    /// declared size counts both headers and the payload. Fails with `Oversize` when that
    /// size does not fit in 32 bits.
    pub fn new(layer: u32, content_type: u32, kind: Kind, message: T) -> (r: Result<Self, CodecError>)
        requires
            T::spec_bytes(message@).len() + HEADER_LEN + CONTENT_TYPE_LEN <= usize::MAX,
        ensures
            r is Ok <==> T::spec_bytes(message@).len() + 24 <= u32::MAX,
            r matches Ok(m) ==> m.message == message && m.header == spec_layer_header(
                layer,
                content_type,
                kind,
                (T::spec_bytes(message@).len() + 24) as u32,
            ),
            r matches Ok(m) ==> Self::spec_bytes(m@).len() == m.header.citp_header.message_size,
            r is Err ==> r == Err::<Self, CodecError>(CodecError::Oversize),
    {
        let size = message.size_bytes() + HEADER_LEN + CONTENT_TYPE_LEN;
        if size > 0xffff_ffff {
            return Err(CodecError::Oversize);
        }
        let header = LayerHeader {
            citp_header: Header {
                cookie: COOKIE,
                version_major: 1,
                version_minor: 0,
                kind,
                message_size: size as u32,
                message_part_count: 1,
                message_part: 0,
                content_type: layer,
            },
            content_type,
        };
        Ok(Message { header, message })
    }
}

/// The bytes of a single-part message of layer `layer` with message tag `tag`, correlation
/// field `kind` and payload bytes `payload`.
pub open spec fn framed(layer: u32, tag: u32, kind: Kind, payload: Seq<u8>) -> Seq<u8> {
    LayerHeader::spec_bytes(spec_layer_header(layer, tag, kind, (payload.len() + 24) as u32))
        + payload
}

/// Frames `payload` as a single-part message of layer `layer` with message tag `tag`.
pub fn frame_message(layer: u32, tag: u32, kind: Kind, payload: &[u8]) -> (r: Vec<u8>)
    requires
        payload@.len() + 24 <= u32::MAX,
    ensures
        r@ == framed(layer, tag, kind, payload@),
{
    let size = (payload.len() + HEADER_LEN + CONTENT_TYPE_LEN) as u32;
    let header = LayerHeader {
        citp_header: Header {
            cookie: COOKIE,
            version_major: 1,
            version_minor: 0,
            kind,
            message_size: size,
            message_part_count: 1,
            message_part: 0,
            content_type: layer,
        },
        content_type: tag,
    };
    let mut out: Vec<u8> = Vec::new();
    let _ = header.write_to_bytes(&mut out);
    let ghost start = out@;
    let mut i: usize = 0;
    while i < payload.len()
        invariant
            i <= payload@.len(),
            out@ == start + payload@.take(i as int),
        decreases payload@.len() - i,
    {
        out.push(payload[i]);
        proof {
            assert(out@ =~= start + payload@.take(i + 1));
        }
        i = i + 1;
    }
    proof {
        assert(payload@.take(i as int) =~= payload@);
    }
    out
}

} // verus!
