//! PINF, the peer information layer: peers tell each other who they are and where they
//! can be reached, during discovery and once connected.
//!
//! PNam was once broadcast on UDP port 4810 to find peers; PLoc, multicast on port 4809,
//! replaced it. Since early 2014 the multicast group is 239.224.0.180, and systems should
//! also accept the earlier group 224.0.0.180 during a transitional period. Once two peers
//! have a TCP connection, a PNam message should be the first message sent.

use crate::protocol::{LayerHeader, Message as LayerMessage};
use crate::text::CString;
use crate::wire::{CodecError, ReadFromBytes, SizeBytes, WriteToBytes};
use vstd::prelude::*;

verus! {

/// The port that was used for broadcast discovery.
pub const OLD_BROADCAST_PORT: u16 = 4810;

/// The port used for multicast discovery.
pub const MULTICAST_PORT: u16 = 4809;

/// The multicast group that was used before early 2014.
pub const OLD_MULTICAST_ADDR: [u8; 4] = [224, 0, 0, 180];

/// The multicast group used since early 2014.
pub const MULTICAST_ADDR: [u8; 4] = [239, 224, 0, 180];

/// "PINF", the tag of this layer in the base header.
pub const LAYER_TAG: u32 = 0x464e4950;

/// The secondary header of PINF messages.
pub type Header = LayerHeader;

/// A PINF message: the headers and the payload.
pub type Message<T> = LayerMessage<LayerHeader, T>;

/// PINF/PNam, the peer name message: the display name of the peer. It is the first
/// message that a peer sends on a new TCP connection.
#[derive(Clone, Debug, PartialEq, Eq)]
pub struct PNam {
    /// The display name of the peer: a user-defined alias, the name of the product,
    /// or both.
    pub name: CString,
}

/// The model of a `PNam`.
pub ghost struct PNamView {
    pub name: Seq<u8>,
}

impl PNamView {
    /// The fields in the order in which they are written.
    pub open spec fn fields(self) -> Seq<u8> {
        self.name
    }

    /// The model whose fields, in the order in which they are written, are `t`.
    pub open spec fn from_fields(t: Seq<u8>) -> PNamView {
        PNamView {
            name: t,
        }
    }
}

impl View for PNam {
    type V = PNamView;

    open spec fn view(&self) -> PNamView {
        PNamView {
            name: self.name@,
        }
    }
}

impl PNam {
    /// "PNam".
    pub const CONTENT_TYPE: u32 = 0x6d614e50;
}

impl SizeBytes for PNam {
    open spec fn spec_fits(m: PNamView) -> bool {
        <CString>::spec_fits(m.fields())
    }

    open spec fn spec_bytes(m: PNamView) -> Seq<u8> {
        <CString>::spec_bytes(m.fields())
    }

    fn fits(&self) -> (r: bool) {
        self.name.fits()
    }

    fn size_bytes(&self) -> (r: usize) {
        self.name.size_bytes()
    }
}

impl WriteToBytes for PNam {
    fn write_to_bytes(&self, out: &mut Vec<u8>) -> (r: Result<(), CodecError>) {
        if !self.fits() {
            return Err(CodecError::Oversize);
        }
        let ghost start = out@;
        let _ = self.name.write_to_bytes(out);
        proof {
            assert(out@ =~= start + Self::spec_bytes(self@));
        }
        Ok(())
    }
}

impl ReadFromBytes for PNam {
    open spec fn spec_parse(s: Seq<u8>) -> Option<(PNamView, nat)> {
        match <CString>::spec_parse(s) {
            Some((t, n)) => Some((PNamView::from_fields(t), n)),
            None => None,
        }
    }

    proof fn lemma_parse_bytes(m: PNamView, rest: Seq<u8>) {
        <CString>::lemma_parse_bytes(m.fields(), rest);
    }

    fn read_from_bytes(buf: &[u8], pos: usize) -> (r: Result<(PNam, usize), CodecError>) {
        let (t, end) = <CString>::read_from_bytes(buf, pos)?;
        let name = t;
        Ok((PNam { name }, end))
    }
}

/// PINF/PLoc, the peer location message: how to reach the peer. If the listening port is
/// not 0 it may be possible to connect to the peer on that port over TCP.
#[derive(Clone, Debug, PartialEq, Eq)]
pub struct PLoc {
    /// The port on which the peer listens for TCP connections; 0 if it does not.
    pub listening_tcp_port: u16,
    /// "LightingConsole", "MediaServer" or "Visualiser".
    pub kind: CString,
    /// The display name of the peer, as in PNam.
    pub name: CString,
    /// The display state of the peer, such as "Idle" or "Running".
    pub state: CString,
}

/// The model of a `PLoc`.
pub ghost struct PLocView {
    pub listening_tcp_port: u16,
    pub kind: Seq<u8>,
    pub name: Seq<u8>,
    pub state: Seq<u8>,
}

impl PLocView {
    /// The fields in the order in which they are written.
    pub open spec fn fields(self) -> (u16, (Seq<u8>, (Seq<u8>, Seq<u8>))) {
        (self.listening_tcp_port, (self.kind, (self.name, self.state)))
    }

    /// The model whose fields, in the order in which they are written, are `t`.
    pub open spec fn from_fields(t: (u16, (Seq<u8>, (Seq<u8>, Seq<u8>)))) -> PLocView {
        PLocView {
            listening_tcp_port: t.0,
            kind: t.1.0,
            name: t.1.1.0,
            state: t.1.1.1,
        }
    }
}

impl View for PLoc {
    type V = PLocView;

    open spec fn view(&self) -> PLocView {
        PLocView {
            listening_tcp_port: self.listening_tcp_port,
            kind: self.kind@,
            name: self.name@,
            state: self.state@,
        }
    }
}

impl PLoc {
    /// "PLoc".
    pub const CONTENT_TYPE: u32 = 0x636f4c50;
}

impl SizeBytes for PLoc {
    open spec fn spec_fits(m: PLocView) -> bool {
        <(u16, (CString, (CString, CString)))>::spec_fits(m.fields())
    }

    open spec fn spec_bytes(m: PLocView) -> Seq<u8> {
        <(u16, (CString, (CString, CString)))>::spec_bytes(m.fields())
    }

    fn fits(&self) -> (r: bool) {
        self.kind.fits() && self.name.fits() && self.state.fits()
    }

    fn size_bytes(&self) -> (r: usize) {
        2 + self.kind.size_bytes() + self.name.size_bytes() + self.state.size_bytes()
    }
}

impl WriteToBytes for PLoc {
    fn write_to_bytes(&self, out: &mut Vec<u8>) -> (r: Result<(), CodecError>) {
        if !self.fits() {
            return Err(CodecError::Oversize);
        }
        let ghost start = out@;
        let _ = self.listening_tcp_port.write_to_bytes(out);
        let _ = self.kind.write_to_bytes(out);
        let _ = self.name.write_to_bytes(out);
        let _ = self.state.write_to_bytes(out);
        proof {
            assert(out@ =~= start + Self::spec_bytes(self@));
        }
        Ok(())
    }
}

impl ReadFromBytes for PLoc {
    open spec fn spec_parse(s: Seq<u8>) -> Option<(PLocView, nat)> {
        match <(u16, (CString, (CString, CString)))>::spec_parse(s) {
            Some((t, n)) => Some((PLocView::from_fields(t), n)),
            None => None,
        }
    }

    proof fn lemma_parse_bytes(m: PLocView, rest: Seq<u8>) {
        <(u16, (CString, (CString, CString)))>::lemma_parse_bytes(m.fields(), rest);
    }

    fn read_from_bytes(buf: &[u8], pos: usize) -> (r: Result<(PLoc, usize), CodecError>) {
        let (t, end) = <(u16, (CString, (CString, CString)))>::read_from_bytes(buf, pos)?;
        let (listening_tcp_port, (kind, (name, state))) = t;
        Ok((PLoc { listening_tcp_port, kind, name, state }, end))
    }
}

} // verus!
