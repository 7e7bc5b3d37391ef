//! FPTC, the fixture patch layer: the existence and patch of fixtures. Fixtures are
//! identified by 16-bit integers from 1 to 65535; an unpatched fixture does not exist for
//! this layer, and a repatched one passes through no unpatched state.

use crate::protocol::{Header as BaseHeader, Message as LayerMessage};
use crate::text::CString;
use crate::wire::{fits_vec, size_list16, views, write_list16, List16};
use crate::wire::{CodecError, ReadFromBytes, SizeBytes, WriteToBytes};
use vstd::prelude::*;

verus! {

/// "FPTC", the tag of this layer in the base header.
pub const LAYER_TAG: u32 = 0x43545046;

/// The secondary header of FPTC messages, which adds content hints.
#[derive(Clone, Copy, Debug, PartialEq, Eq)]
pub struct Header {
    /// The base header; its content type is "FPTC".
    pub citp_header: BaseHeader,
    /// The tag of the message within the layer.
    pub content_type: u32,
    /// Hint flags: 1, part of a sequence of messages; 2, part of and ending a sequence.
    pub content_hint: u32,
}

/// The model of a `Header`.
pub ghost struct HeaderView {
    pub citp_header: BaseHeader,
    pub content_type: u32,
    pub content_hint: u32,
}

impl HeaderView {
    /// The fields in the order in which they are written.
    pub open spec fn fields(self) -> (BaseHeader, (u32, u32)) {
        (self.citp_header, (self.content_type, self.content_hint))
    }

    /// The model whose fields, in the order in which they are written, are `t`.
    pub open spec fn from_fields(t: (BaseHeader, (u32, u32))) -> HeaderView {
        HeaderView {
            citp_header: t.0,
            content_type: t.1.0,
            content_hint: t.1.1,
        }
    }
}

impl View for Header {
    type V = HeaderView;

    open spec fn view(&self) -> HeaderView {
        HeaderView {
            citp_header: self.citp_header@,
            content_type: self.content_type,
            content_hint: self.content_hint,
        }
    }
}

impl SizeBytes for Header {
    open spec fn spec_fits(m: HeaderView) -> bool {
        <(BaseHeader, (u32, u32))>::spec_fits(m.fields())
    }

    open spec fn spec_bytes(m: HeaderView) -> Seq<u8> {
        <(BaseHeader, (u32, u32))>::spec_bytes(m.fields())
    }

    fn fits(&self) -> (r: bool) {
        self.citp_header.fits()
    }

    fn size_bytes(&self) -> (r: usize) {
        self.citp_header.size_bytes() + 4 + 4
    }
}

impl WriteToBytes for Header {
    fn write_to_bytes(&self, out: &mut Vec<u8>) -> (r: Result<(), CodecError>) {
        if !self.fits() {
            return Err(CodecError::Oversize);
        }
        let ghost start = out@;
        let _ = self.citp_header.write_to_bytes(out);
        let _ = self.content_type.write_to_bytes(out);
        let _ = self.content_hint.write_to_bytes(out);
        proof {
            assert(out@ =~= start + Self::spec_bytes(self@));
        }
        Ok(())
    }
}

impl ReadFromBytes for Header {
    open spec fn spec_parse(s: Seq<u8>) -> Option<(HeaderView, nat)> {
        match <(BaseHeader, (u32, u32))>::spec_parse(s) {
            Some((t, n)) => Some((HeaderView::from_fields(t), n)),
            None => None,
        }
    }

    proof fn lemma_parse_bytes(m: HeaderView, rest: Seq<u8>) {
        <(BaseHeader, (u32, u32))>::lemma_parse_bytes(m.fields(), rest);
    }

    fn read_from_bytes(buf: &[u8], pos: usize) -> (r: Result<(Header, usize), CodecError>) {
        let (t, end) = <(BaseHeader, (u32, u32))>::read_from_bytes(buf, pos)?;
        let (citp_header, (content_type, content_hint)) = t;
        Ok((Header { citp_header, content_type, content_hint }, end))
    }
}

/// An FPTC message: the headers and the payload.
pub type Message<T> = LayerMessage<Header, T>;

/// FPTC/Ptch, the patch message: sent when a fixture is introduced or repatched.
#[derive(Clone, Debug, PartialEq, Eq)]
pub struct Ptch {
    /// The fixture identifier.
    pub fixture_identifier: u16,
    /// The patch universe, from 0.
    pub universe: u8,
    /// Padding to four bytes.
    pub reserved: u8,
    /// The patch channel, from 0.
    pub channel: u16,
    /// The number of channels patched, from 1 to 512.
    pub channel_count: u16,
    /// The make of the fixture; empty if omitted.
    pub fixture_make: CString,
    /// The name of the fixture, never omitted.
    pub fixture_name: CString,
}

/// The model of a `Ptch`.
pub ghost struct PtchView {
    pub fixture_identifier: u16,
    pub universe: u8,
    pub reserved: u8,
    pub channel: u16,
    pub channel_count: u16,
    pub fixture_make: Seq<u8>,
    pub fixture_name: Seq<u8>,
}

impl PtchView {
    /// The fields in the order in which they are written.
    pub open spec fn fields(self) -> (u16, (u8, (u8, (u16, (u16, (Seq<u8>, Seq<u8>)))))) {
        (self.fixture_identifier, (self.universe, (self.reserved, (self.channel, (self.channel_count, (self.fixture_make, self.fixture_name))))))
    }

    /// The model whose fields, in the order in which they are written, are `t`.
    pub open spec fn from_fields(t: (u16, (u8, (u8, (u16, (u16, (Seq<u8>, Seq<u8>))))))) -> PtchView {
        PtchView {
            fixture_identifier: t.0,
            universe: t.1.0,
            reserved: t.1.1.0,
            channel: t.1.1.1.0,
            channel_count: t.1.1.1.1.0,
            fixture_make: t.1.1.1.1.1.0,
            fixture_name: t.1.1.1.1.1.1,
        }
    }
}

impl View for Ptch {
    type V = PtchView;

    open spec fn view(&self) -> PtchView {
        PtchView {
            fixture_identifier: self.fixture_identifier,
            universe: self.universe,
            reserved: self.reserved,
            channel: self.channel,
            channel_count: self.channel_count,
            fixture_make: self.fixture_make@,
            fixture_name: self.fixture_name@,
        }
    }
}

impl Ptch {
    /// "Ptch".
    pub const CONTENT_TYPE: u32 = 0x68637450;
}

impl SizeBytes for Ptch {
    open spec fn spec_fits(m: PtchView) -> bool {
        <(u16, (u8, (u8, (u16, (u16, (CString, CString))))))>::spec_fits(m.fields())
    }

    open spec fn spec_bytes(m: PtchView) -> Seq<u8> {
        <(u16, (u8, (u8, (u16, (u16, (CString, CString))))))>::spec_bytes(m.fields())
    }

    fn fits(&self) -> (r: bool) {
        self.fixture_make.fits() && self.fixture_name.fits()
    }

    fn size_bytes(&self) -> (r: usize) {
        2 + 1 + 1 + 2 + 2 + self.fixture_make.size_bytes() + self.fixture_name.size_bytes()
    }
}

impl WriteToBytes for Ptch {
    fn write_to_bytes(&self, out: &mut Vec<u8>) -> (r: Result<(), CodecError>) {
        if !self.fits() {
            return Err(CodecError::Oversize);
        }
        let ghost start = out@;
        let _ = self.fixture_identifier.write_to_bytes(out);
        let _ = self.universe.write_to_bytes(out);
        let _ = self.reserved.write_to_bytes(out);
        let _ = self.channel.write_to_bytes(out);
        let _ = self.channel_count.write_to_bytes(out);
        let _ = self.fixture_make.write_to_bytes(out);
        let _ = self.fixture_name.write_to_bytes(out);
        proof {
            assert(out@ =~= start + Self::spec_bytes(self@));
        }
        Ok(())
    }
}

impl ReadFromBytes for Ptch {
    open spec fn spec_parse(s: Seq<u8>) -> Option<(PtchView, nat)> {
        match <(u16, (u8, (u8, (u16, (u16, (CString, CString))))))>::spec_parse(s) {
            Some((t, n)) => Some((PtchView::from_fields(t), n)),
            None => None,
        }
    }

    proof fn lemma_parse_bytes(m: PtchView, rest: Seq<u8>) {
        <(u16, (u8, (u8, (u16, (u16, (CString, CString))))))>::lemma_parse_bytes(m.fields(), rest);
    }

    fn read_from_bytes(buf: &[u8], pos: usize) -> (r: Result<(Ptch, usize), CodecError>) {
        let (t, end) = <(u16, (u8, (u8, (u16, (u16, (CString, CString))))))>::read_from_bytes(buf, pos)?;
        let (fixture_identifier, (universe, (reserved, (channel, (channel_count, (fixture_make, fixture_name)))))) = t;
        Ok((Ptch { fixture_identifier, universe, reserved, channel, channel_count, fixture_make, fixture_name }, end))
    }
}

/// FPTC/UPtc, the unpatch message: sent when fixtures are deleted or unpatched. An empty
/// list unpatches every fixture.
#[derive(Clone, Debug, PartialEq, Eq)]
pub struct UPtc {
    /// The fixtures to unpatch.
    pub fixture_identifiers: Vec<u16>,
}

/// The model of a `UPtc`.
pub ghost struct UPtcView {
    pub fixture_identifiers: Seq<u16>,
}

impl UPtcView {
    /// The fields in the order in which they are written.
    pub open spec fn fields(self) -> Seq<u16> {
        self.fixture_identifiers
    }

    /// The model whose fields, in the order in which they are written, are `t`.
    pub open spec fn from_fields(t: Seq<u16>) -> UPtcView {
        UPtcView {
            fixture_identifiers: t,
        }
    }
}

impl View for UPtc {
    type V = UPtcView;

    open spec fn view(&self) -> UPtcView {
        UPtcView {
            fixture_identifiers: views(self.fixture_identifiers@),
        }
    }
}

impl UPtc {
    /// "UPtc".
    pub const CONTENT_TYPE: u32 = 0x63745055;
}

impl SizeBytes for UPtc {
    open spec fn spec_fits(m: UPtcView) -> bool {
        <List16<u16>>::spec_fits(m.fields())
    }

    open spec fn spec_bytes(m: UPtcView) -> Seq<u8> {
        <List16<u16>>::spec_bytes(m.fields())
    }

    fn fits(&self) -> (r: bool) {
        self.fixture_identifiers.len() <= 0xffff && fits_vec(&self.fixture_identifiers)
    }

    fn size_bytes(&self) -> (r: usize) {
        size_list16(&self.fixture_identifiers)
    }
}

impl WriteToBytes for UPtc {
    fn write_to_bytes(&self, out: &mut Vec<u8>) -> (r: Result<(), CodecError>) {
        if !self.fits() {
            return Err(CodecError::Oversize);
        }
        let ghost start = out@;
        let _ = write_list16(&self.fixture_identifiers, out);
        proof {
            assert(out@ =~= start + Self::spec_bytes(self@));
        }
        Ok(())
    }
}

impl ReadFromBytes for UPtc {
    open spec fn spec_parse(s: Seq<u8>) -> Option<(UPtcView, nat)> {
        match <List16<u16>>::spec_parse(s) {
            Some((t, n)) => Some((UPtcView::from_fields(t), n)),
            None => None,
        }
    }

    proof fn lemma_parse_bytes(m: UPtcView, rest: Seq<u8>) {
        <List16<u16>>::lemma_parse_bytes(m.fields(), rest);
    }

    fn read_from_bytes(buf: &[u8], pos: usize) -> (r: Result<(UPtc, usize), CodecError>) {
        let (t, end) = <List16<u16>>::read_from_bytes(buf, pos)?;
        let fixture_identifiers = t;
        Ok((UPtc { fixture_identifiers: fixture_identifiers.items }, end))
    }
}

/// FPTC/SPtc, the send patch message: asks for one Ptch message per fixture listed, or for
/// the whole patch when the list is empty.
#[derive(Clone, Debug, PartialEq, Eq)]
pub struct SPtc {
    /// The fixtures whose patch is asked for.
    pub fixture_identifiers: Vec<u16>,
}

/// The model of a `SPtc`.
pub ghost struct SPtcView {
    pub fixture_identifiers: Seq<u16>,
}

impl SPtcView {
    /// The fields in the order in which they are written.
    pub open spec fn fields(self) -> Seq<u16> {
        self.fixture_identifiers
    }

    /// The model whose fields, in the order in which they are written, are `t`.
    pub open spec fn from_fields(t: Seq<u16>) -> SPtcView {
        SPtcView {
            fixture_identifiers: t,
        }
    }
}

impl View for SPtc {
    type V = SPtcView;

    open spec fn view(&self) -> SPtcView {
        SPtcView {
            fixture_identifiers: views(self.fixture_identifiers@),
        }
    }
}

impl SPtc {
    /// "SPtc".
    pub const CONTENT_TYPE: u32 = 0x63745053;
}

impl SizeBytes for SPtc {
    open spec fn spec_fits(m: SPtcView) -> bool {
        <List16<u16>>::spec_fits(m.fields())
    }

    open spec fn spec_bytes(m: SPtcView) -> Seq<u8> {
        <List16<u16>>::spec_bytes(m.fields())
    }

    fn fits(&self) -> (r: bool) {
        self.fixture_identifiers.len() <= 0xffff && fits_vec(&self.fixture_identifiers)
    }

    fn size_bytes(&self) -> (r: usize) {
        size_list16(&self.fixture_identifiers)
    }
}

impl WriteToBytes for SPtc {
    fn write_to_bytes(&self, out: &mut Vec<u8>) -> (r: Result<(), CodecError>) {
        if !self.fits() {
            return Err(CodecError::Oversize);
        }
        let ghost start = out@;
        let _ = write_list16(&self.fixture_identifiers, out);
        proof {
            assert(out@ =~= start + Self::spec_bytes(self@));
        }
        Ok(())
    }
}

impl ReadFromBytes for SPtc {
    open spec fn spec_parse(s: Seq<u8>) -> Option<(SPtcView, nat)> {
        match <List16<u16>>::spec_parse(s) {
            Some((t, n)) => Some((SPtcView::from_fields(t), n)),
            None => None,
        }
    }

    proof fn lemma_parse_bytes(m: SPtcView, rest: Seq<u8>) {
        <List16<u16>>::lemma_parse_bytes(m.fields(), rest);
    }

    fn read_from_bytes(buf: &[u8], pos: usize) -> (r: Result<(SPtc, usize), CodecError>) {
        let (t, end) = <List16<u16>>::read_from_bytes(buf, pos)?;
        let fixture_identifiers = t;
        Ok((SPtc { fixture_identifiers: fixture_identifiers.items }, end))
    }
}

} // verus!
