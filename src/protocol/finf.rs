//! FINF, the fixture information layer.

use crate::protocol::{LayerHeader, Message as LayerMessage};
use crate::text::CString;
use crate::wire::{fits_vec, size_list16, views, write_list16, List16};
use crate::wire::{CodecError, ReadFromBytes, SizeBytes, WriteToBytes};
use vstd::prelude::*;

verus! {

/// "FINF", the tag of this layer in the base header.
pub const LAYER_TAG: u32 = 0x464e4946;

/// The secondary header of FINF messages.
pub type Header = LayerHeader;

/// A FINF message: the headers and the payload.
pub type Message<T> = LayerMessage<LayerHeader, T>;

/// FINF/SFra, the send frames message: asks for Fram messages for the fixtures listed.
#[derive(Clone, Debug, PartialEq, Eq)]
pub struct SFra {
    /// The fixtures.
    pub fixture_identifiers: Vec<u16>,
}

/// The model of a `SFra`.
pub ghost struct SFraView {
    pub fixture_identifiers: Seq<u16>,
}

impl SFraView {
    /// The fields in the order in which they are written.
    pub open spec fn fields(self) -> Seq<u16> {
        self.fixture_identifiers
    }

    /// The model whose fields, in the order in which they are written, are `t`.
    pub open spec fn from_fields(t: Seq<u16>) -> SFraView {
        SFraView {
            fixture_identifiers: t,
        }
    }
}

impl View for SFra {
    type V = SFraView;

    open spec fn view(&self) -> SFraView {
        SFraView {
            fixture_identifiers: views(self.fixture_identifiers@),
        }
    }
}

impl SFra {
    /// "SFra".
    pub const CONTENT_TYPE: u32 = 0x61724653;
}

impl SizeBytes for SFra {
    open spec fn spec_fits(m: SFraView) -> bool {
        <List16<u16>>::spec_fits(m.fields())
    }

    open spec fn spec_bytes(m: SFraView) -> Seq<u8> {
        <List16<u16>>::spec_bytes(m.fields())
    }

    fn fits(&self) -> (r: bool) {
        self.fixture_identifiers.len() <= 0xffff && fits_vec(&self.fixture_identifiers)
    }

    fn size_bytes(&self) -> (r: usize) {
        size_list16(&self.fixture_identifiers)
    }
}

impl WriteToBytes for SFra {
    fn write_to_bytes(&self, out: &mut Vec<u8>) -> (r: Result<(), CodecError>) {
        if !self.fits() {
            return Err(CodecError::Oversize);
        }
        let ghost start = out@;
        let _ = write_list16(&self.fixture_identifiers, out);
        proof {
            assert(out@ =~= start + Self::spec_bytes(self@));
        }
        Ok(())
    }
}

impl ReadFromBytes for SFra {
    open spec fn spec_parse(s: Seq<u8>) -> Option<(SFraView, nat)> {
        match <List16<u16>>::spec_parse(s) {
            Some((t, n)) => Some((SFraView::from_fields(t), n)),
            None => None,
        }
    }

    proof fn lemma_parse_bytes(m: SFraView, rest: Seq<u8>) {
        <List16<u16>>::lemma_parse_bytes(m.fields(), rest);
    }

    fn read_from_bytes(buf: &[u8], pos: usize) -> (r: Result<(SFra, usize), CodecError>) {
        let (t, end) = <List16<u16>>::read_from_bytes(buf, pos)?;
        let fixture_identifiers = t;
        Ok((SFra { fixture_identifiers: fixture_identifiers.items }, end))
    }
}

/// FINF/Fram, the frames message: the filters and gobos of a fixture.
#[derive(Clone, Debug, PartialEq, Eq)]
pub struct Fram {
    /// The fixture identifier.
    pub fixture_identifier: u16,
    /// The number of filters in `frame_names`.
    pub frame_filter_count: u8,
    /// The number of gobos in `frame_names`.
    pub frame_gobo_count: u8,
    /// The filters, then the gobos, separated by newlines.
    pub frame_names: CString,
}

/// The model of a `Fram`.
pub ghost struct FramView {
    pub fixture_identifier: u16,
    pub frame_filter_count: u8,
    pub frame_gobo_count: u8,
    pub frame_names: Seq<u8>,
}

impl FramView {
    /// The fields in the order in which they are written.
    pub open spec fn fields(self) -> (u16, (u8, (u8, Seq<u8>))) {
        (self.fixture_identifier, (self.frame_filter_count, (self.frame_gobo_count, self.frame_names)))
    }

    /// The model whose fields, in the order in which they are written, are `t`.
    pub open spec fn from_fields(t: (u16, (u8, (u8, Seq<u8>)))) -> FramView {
        FramView {
            fixture_identifier: t.0,
            frame_filter_count: t.1.0,
            frame_gobo_count: t.1.1.0,
            frame_names: t.1.1.1,
        }
    }
}

impl View for Fram {
    type V = FramView;

    open spec fn view(&self) -> FramView {
        FramView {
            fixture_identifier: self.fixture_identifier,
            frame_filter_count: self.frame_filter_count,
            frame_gobo_count: self.frame_gobo_count,
            frame_names: self.frame_names@,
        }
    }
}

impl Fram {
    /// "Fram".
    pub const CONTENT_TYPE: u32 = 0x6d617246;
}

impl SizeBytes for Fram {
    open spec fn spec_fits(m: FramView) -> bool {
        <(u16, (u8, (u8, CString)))>::spec_fits(m.fields())
    }

    open spec fn spec_bytes(m: FramView) -> Seq<u8> {
        <(u16, (u8, (u8, CString)))>::spec_bytes(m.fields())
    }

    fn fits(&self) -> (r: bool) {
        self.frame_names.fits()
    }

    fn size_bytes(&self) -> (r: usize) {
        2 + 1 + 1 + self.frame_names.size_bytes()
    }
}

impl WriteToBytes for Fram {
    fn write_to_bytes(&self, out: &mut Vec<u8>) -> (r: Result<(), CodecError>) {
        if !self.fits() {
            return Err(CodecError::Oversize);
        }
        let ghost start = out@;
        let _ = self.fixture_identifier.write_to_bytes(out);
        let _ = self.frame_filter_count.write_to_bytes(out);
        let _ = self.frame_gobo_count.write_to_bytes(out);
        let _ = self.frame_names.write_to_bytes(out);
        proof {
            assert(out@ =~= start + Self::spec_bytes(self@));
        }
        Ok(())
    }
}

impl ReadFromBytes for Fram {
    open spec fn spec_parse(s: Seq<u8>) -> Option<(FramView, nat)> {
        match <(u16, (u8, (u8, CString)))>::spec_parse(s) {
            Some((t, n)) => Some((FramView::from_fields(t), n)),
            None => None,
        }
    }

    proof fn lemma_parse_bytes(m: FramView, rest: Seq<u8>) {
        <(u16, (u8, (u8, CString)))>::lemma_parse_bytes(m.fields(), rest);
    }

    fn read_from_bytes(buf: &[u8], pos: usize) -> (r: Result<(Fram, usize), CodecError>) {
        let (t, end) = <(u16, (u8, (u8, CString)))>::read_from_bytes(buf, pos)?;
        let (fixture_identifier, (frame_filter_count, (frame_gobo_count, frame_names))) = t;
        Ok((Fram { fixture_identifier, frame_filter_count, frame_gobo_count, frame_names }, end))
    }
}

} // verus!
