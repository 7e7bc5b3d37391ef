//! FSEL, the fixture selection layer.

use crate::protocol::{LayerHeader, Message as LayerMessage};
use crate::wire::{fits_vec, size_list16, views, write_list16, List16};
use crate::wire::{CodecError, ReadFromBytes, SizeBytes, WriteToBytes};
use vstd::prelude::*;

verus! {

/// "FSEL", the tag of this layer in the base header.
pub const LAYER_TAG: u32 = 0x4c455346;

/// The secondary header of FSEL messages.
pub type Header = LayerHeader;

/// A FSEL message: the headers and the payload.
pub type Message<T> = LayerMessage<LayerHeader, T>;

/// FSEL/Sele, the select message: the fixtures to select. When `complete` is not zero, all
/// other fixtures are to be deselected.
#[derive(Clone, Debug, PartialEq, Eq)]
pub struct Sele {
    /// Not zero for a complete selection.
    pub complete: u8,
    /// Padding to four bytes.
    pub reserved: u8,
    /// The fixtures to select.
    pub fixture_identifiers: Vec<u16>,
}

/// The model of a `Sele`.
pub ghost struct SeleView {
    pub complete: u8,
    pub reserved: u8,
    pub fixture_identifiers: Seq<u16>,
}

impl SeleView {
    /// The fields in the order in which they are written.
    pub open spec fn fields(self) -> (u8, (u8, Seq<u16>)) {
        (self.complete, (self.reserved, self.fixture_identifiers))
    }

    /// The model whose fields, in the order in which they are written, are `t`.
    pub open spec fn from_fields(t: (u8, (u8, Seq<u16>))) -> SeleView {
        SeleView {
            complete: t.0,
            reserved: t.1.0,
            fixture_identifiers: t.1.1,
        }
    }
}

impl View for Sele {
    type V = SeleView;

    open spec fn view(&self) -> SeleView {
        SeleView {
            complete: self.complete,
            reserved: self.reserved,
            fixture_identifiers: views(self.fixture_identifiers@),
        }
    }
}

impl Sele {
    /// "Sele".
    pub const CONTENT_TYPE: u32 = 0x656c6553;
}

impl SizeBytes for Sele {
    open spec fn spec_fits(m: SeleView) -> bool {
        <(u8, (u8, List16<u16>))>::spec_fits(m.fields())
    }

    open spec fn spec_bytes(m: SeleView) -> Seq<u8> {
        <(u8, (u8, List16<u16>))>::spec_bytes(m.fields())
    }

    fn fits(&self) -> (r: bool) {
        self.fixture_identifiers.len() <= 0xffff && fits_vec(&self.fixture_identifiers)
    }

    fn size_bytes(&self) -> (r: usize) {
        1 + 1 + size_list16(&self.fixture_identifiers)
    }
}

impl WriteToBytes for Sele {
    fn write_to_bytes(&self, out: &mut Vec<u8>) -> (r: Result<(), CodecError>) {
        if !self.fits() {
            return Err(CodecError::Oversize);
        }
        let ghost start = out@;
        let _ = self.complete.write_to_bytes(out);
        let _ = self.reserved.write_to_bytes(out);
        let _ = write_list16(&self.fixture_identifiers, out);
        proof {
            assert(out@ =~= start + Self::spec_bytes(self@));
        }
        Ok(())
    }
}

impl ReadFromBytes for Sele {
    open spec fn spec_parse(s: Seq<u8>) -> Option<(SeleView, nat)> {
        match <(u8, (u8, List16<u16>))>::spec_parse(s) {
            Some((t, n)) => Some((SeleView::from_fields(t), n)),
            None => None,
        }
    }

    proof fn lemma_parse_bytes(m: SeleView, rest: Seq<u8>) {
        <(u8, (u8, List16<u16>))>::lemma_parse_bytes(m.fields(), rest);
    }

    fn read_from_bytes(buf: &[u8], pos: usize) -> (r: Result<(Sele, usize), CodecError>) {
        let (t, end) = <(u8, (u8, List16<u16>))>::read_from_bytes(buf, pos)?;
        let (complete, (reserved, fixture_identifiers)) = t;
        Ok((Sele { complete, reserved, fixture_identifiers: fixture_identifiers.items }, end))
    }
}

/// FSEL/DeSe, the deselect message: the fixtures to deselect; all of them when the list is
/// empty.
#[derive(Clone, Debug, PartialEq, Eq)]
pub struct DeSe {
    /// The fixtures to deselect.
    pub fixture_identifiers: Vec<u16>,
}

/// The model of a `DeSe`.
pub ghost struct DeSeView {
    pub fixture_identifiers: Seq<u16>,
}

impl DeSeView {
    /// The fields in the order in which they are written.
    pub open spec fn fields(self) -> Seq<u16> {
        self.fixture_identifiers
    }

    /// The model whose fields, in the order in which they are written, are `t`.
    pub open spec fn from_fields(t: Seq<u16>) -> DeSeView {
        DeSeView {
            fixture_identifiers: t,
        }
    }
}

impl View for DeSe {
    type V = DeSeView;

    open spec fn view(&self) -> DeSeView {
        DeSeView {
            fixture_identifiers: views(self.fixture_identifiers@),
        }
    }
}

impl DeSe {
    /// "DeSe".
    pub const CONTENT_TYPE: u32 = 0x65536544;
}

impl SizeBytes for DeSe {
    open spec fn spec_fits(m: DeSeView) -> bool {
        <List16<u16>>::spec_fits(m.fields())
    }

    open spec fn spec_bytes(m: DeSeView) -> Seq<u8> {
        <List16<u16>>::spec_bytes(m.fields())
    }

    fn fits(&self) -> (r: bool) {
        self.fixture_identifiers.len() <= 0xffff && fits_vec(&self.fixture_identifiers)
    }

    fn size_bytes(&self) -> (r: usize) {
        size_list16(&self.fixture_identifiers)
    }
}

impl WriteToBytes for DeSe {
    fn write_to_bytes(&self, out: &mut Vec<u8>) -> (r: Result<(), CodecError>) {
        if !self.fits() {
            return Err(CodecError::Oversize);
        }
        let ghost start = out@;
        let _ = write_list16(&self.fixture_identifiers, out);
        proof {
            assert(out@ =~= start + Self::spec_bytes(self@));
        }
        Ok(())
    }
}

impl ReadFromBytes for DeSe {
    open spec fn spec_parse(s: Seq<u8>) -> Option<(DeSeView, nat)> {
        match <List16<u16>>::spec_parse(s) {
            Some((t, n)) => Some((DeSeView::from_fields(t), n)),
            None => None,
        }
    }

    proof fn lemma_parse_bytes(m: DeSeView, rest: Seq<u8>) {
        <List16<u16>>::lemma_parse_bytes(m.fields(), rest);
    }

    fn read_from_bytes(buf: &[u8], pos: usize) -> (r: Result<(DeSe, usize), CodecError>) {
        let (t, end) = <List16<u16>>::read_from_bytes(buf, pos)?;
        let fixture_identifiers = t;
        Ok((DeSe { fixture_identifiers: fixture_identifiers.items }, end))
    }
}

} // verus!
