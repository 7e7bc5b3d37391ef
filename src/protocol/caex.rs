//! CAEX, the Capture extensions layer: show synchronization (patch, selection and fixture
//! status exchanged with Capture) and laser feeds, whose frames are multicast.

use crate::protocol::{LayerHeader, Message as LayerMessage};
use crate::text::Ucs2;
use crate::wire::{
    fits_vec, size_list16, size_list8, views, write_list16, write_list8, CodecError, ConstSizeBytes,
    List16, List8,
    ReadFromBytes, SizeBytes, WriteToBytes,
};
use vstd::prelude::*;

verus! {

/// "CAEX", the tag of this layer in the base header.
pub const LAYER_TAG: u32 = 0x58454143;

/// The secondary header of CAEX messages.
pub type Header = LayerHeader;

/// A CAEX message: the headers and the payload.
pub type Message<T> = LayerMessage<LayerHeader, T>;

/// Why a request was refused by a Nack message.
#[derive(Clone, Copy, Debug, PartialEq, Eq, Structural)]
pub enum NackReason {
    UnknownRequest,
    IncorrectRequest,
    InternalError,
    RequestRefused,
}

impl NackReason {
    /// The byte that stands for the reason on the wire.
    pub open spec fn spec_code(self) -> u8 {
        match self {
            NackReason::UnknownRequest => 0,
            NackReason::IncorrectRequest => 1,
            NackReason::InternalError => 2,
            NackReason::RequestRefused => 3,
        }
    }

    /// The reason for a byte; `None` for a byte that names none.
    pub fn from_u8(v: u8) -> (r: Option<NackReason>)
        ensures
            r is Some <==> v <= 3,
            r matches Some(x) ==> x.spec_code() == v,
    {
        match v {
            0 => Some(NackReason::UnknownRequest),
            1 => Some(NackReason::IncorrectRequest),
            2 => Some(NackReason::InternalError),
            3 => Some(NackReason::RequestRefused),
            _ => None,
        }
    }

    /// The byte for the reason.
    pub fn to_u8(self) -> (r: u8)
        ensures
            r == self.spec_code(),
    {
        match self {
            NackReason::UnknownRequest => 0,
            NackReason::IncorrectRequest => 1,
            NackReason::InternalError => 2,
            NackReason::RequestRefused => 3,
        }
    }
}

/// What a FixtureList message holds.
#[derive(Clone, Copy, Debug, PartialEq, Eq, Structural)]
pub enum FixtureListMessageType {
    /// All known fixtures, in answer to a FixtureListRequest.
    ExistingPatchList,
    /// Fixtures that were just added.
    NewFixture,
    /// Fixtures that replace others.
    ExchangeFixture,
}

impl FixtureListMessageType {
    /// The byte that stands for the type on the wire.
    pub open spec fn spec_code(self) -> u8 {
        match self {
            FixtureListMessageType::ExistingPatchList => 0,
            FixtureListMessageType::NewFixture => 1,
            FixtureListMessageType::ExchangeFixture => 2,
        }
    }

    /// The type for a byte; `None` for a byte that names none.
    pub fn from_u8(v: u8) -> (r: Option<FixtureListMessageType>)
        ensures
            r is Some <==> v <= 2,
            r matches Some(x) ==> x.spec_code() == v,
    {
        match v {
            0 => Some(FixtureListMessageType::ExistingPatchList),
            1 => Some(FixtureListMessageType::NewFixture),
            2 => Some(FixtureListMessageType::ExchangeFixture),
            _ => None,
        }
    }

    /// The byte for the type.
    pub fn to_u8(self) -> (r: u8)
        ensures
            r == self.spec_code(),
    {
        match self {
            FixtureListMessageType::ExistingPatchList => 0,
            FixtureListMessageType::NewFixture => 1,
            FixtureListMessageType::ExchangeFixture => 2,
        }
    }
}

/// What the data of an Identifier block identifies.
#[derive(Clone, Copy, Debug, PartialEq, Eq, Structural)]
pub enum IdentifierType {
    /// A 16-bit RDM device model id.
    RDMDeviceModelId,
    /// An RDM personality id, written in 64 bits of which only the low 16 carry meaning;
    /// the six high bytes are zero.
    RDMPersonalityId,
    /// An AtlaBase fixture GUID.
    AtlaBaseFixtureId,
    /// An AtlaBase mode GUID.
    AtlaBaseModeId,
    /// A Capture instance GUID.
    CaptureInstanceId,
    /// A 16-bit RDM manufacturer id.
    RDMManufacturerId,
}

impl IdentifierType {
    /// The byte that stands for the type on the wire.
    pub open spec fn spec_code(self) -> u8 {
        match self {
            IdentifierType::RDMDeviceModelId => 0,
            IdentifierType::RDMPersonalityId => 1,
            IdentifierType::AtlaBaseFixtureId => 2,
            IdentifierType::AtlaBaseModeId => 3,
            IdentifierType::CaptureInstanceId => 4,
            IdentifierType::RDMManufacturerId => 5,
        }
    }

    /// The type for a byte; `None` for a byte that names none.
    pub fn from_u8(v: u8) -> (r: Option<IdentifierType>)
        ensures
            r is Some <==> v <= 5,
            r matches Some(x) ==> x.spec_code() == v,
    {
        match v {
            0 => Some(IdentifierType::RDMDeviceModelId),
            1 => Some(IdentifierType::RDMPersonalityId),
            2 => Some(IdentifierType::AtlaBaseFixtureId),
            3 => Some(IdentifierType::AtlaBaseModeId),
            4 => Some(IdentifierType::CaptureInstanceId),
            5 => Some(IdentifierType::RDMManufacturerId),
            _ => None,
        }
    }

    /// The byte for the type.
    pub fn to_u8(self) -> (r: u8)
        ensures
            r == self.spec_code(),
    {
        match self {
            IdentifierType::RDMDeviceModelId => 0,
            IdentifierType::RDMPersonalityId => 1,
            IdentifierType::AtlaBaseFixtureId => 2,
            IdentifierType::AtlaBaseModeId => 3,
            IdentifierType::CaptureInstanceId => 4,
            IdentifierType::RDMManufacturerId => 5,
        }
    }
}

/// CAEX/Nack: the answer to an unknown message, or to a request that cannot be served. Its
/// base header answers the request's correlation field.
#[derive(Clone, Debug, PartialEq, Eq)]
pub struct Nack {
    /// The reason, as a `NackReason` byte.
    pub reason: u8,
}

/// The model of a `Nack`.
pub ghost struct NackView {
    pub reason: u8,
}

impl NackView {
    /// The fields in the order in which they are written.
    pub open spec fn fields(self) -> u8 {
        self.reason
    }

    /// The model whose fields, in the order in which they are written, are `t`.
    pub open spec fn from_fields(t: u8) -> NackView {
        NackView {
            reason: t,
        }
    }
}

impl View for Nack {
    type V = NackView;

    open spec fn view(&self) -> NackView {
        NackView {
            reason: self.reason,
        }
    }
}

impl Nack {
    /// The tag of Nack.
    pub const CONTENT_TYPE: u32 = 0xffffffff;
}

impl SizeBytes for Nack {
    open spec fn spec_fits(m: NackView) -> bool {
        <u8>::spec_fits(m.fields())
    }

    open spec fn spec_bytes(m: NackView) -> Seq<u8> {
        <u8>::spec_bytes(m.fields())
    }

    fn fits(&self) -> (r: bool) {
        true
    }

    fn size_bytes(&self) -> (r: usize) {
        1
    }
}

impl WriteToBytes for Nack {
    fn write_to_bytes(&self, out: &mut Vec<u8>) -> (r: Result<(), CodecError>) {
        if !self.fits() {
            return Err(CodecError::Oversize);
        }
        let ghost start = out@;
        let _ = self.reason.write_to_bytes(out);
        proof {
            assert(out@ =~= start + Self::spec_bytes(self@));
        }
        Ok(())
    }
}

impl ReadFromBytes for Nack {
    open spec fn spec_parse(s: Seq<u8>) -> Option<(NackView, nat)> {
        match <u8>::spec_parse(s) {
            Some((t, n)) => Some((NackView::from_fields(t), n)),
            None => None,
        }
    }

    proof fn lemma_parse_bytes(m: NackView, rest: Seq<u8>) {
        <u8>::lemma_parse_bytes(m.fields(), rest);
    }

    fn read_from_bytes(buf: &[u8], pos: usize) -> (r: Result<(Nack, usize), CodecError>) {
        let (t, end) = <u8>::read_from_bytes(buf, pos)?;
        let reason = t;
        Ok((Nack { reason }, end))
    }
}

/// CAEX/EnterShow: sent unsolicited by either side when a show is opened, or when show
/// synchronization is switched on.
#[derive(Clone, Debug, PartialEq, Eq)]
pub struct EnterShow {
    /// The name of the show.
    pub name: Ucs2,
}

/// The model of a `EnterShow`.
pub ghost struct EnterShowView {
    pub name: Seq<u16>,
}

impl EnterShowView {
    /// The fields in the order in which they are written.
    pub open spec fn fields(self) -> Seq<u16> {
        self.name
    }

    /// The model whose fields, in the order in which they are written, are `t`.
    pub open spec fn from_fields(t: Seq<u16>) -> EnterShowView {
        EnterShowView {
            name: t,
        }
    }
}

impl View for EnterShow {
    type V = EnterShowView;

    open spec fn view(&self) -> EnterShowView {
        EnterShowView {
            name: self.name@,
        }
    }
}

impl EnterShow {
    /// The tag of EnterShow.
    pub const CONTENT_TYPE: u32 = 0x00020100;
}

impl SizeBytes for EnterShow {
    open spec fn spec_fits(m: EnterShowView) -> bool {
        <Ucs2>::spec_fits(m.fields())
    }

    open spec fn spec_bytes(m: EnterShowView) -> Seq<u8> {
        <Ucs2>::spec_bytes(m.fields())
    }

    fn fits(&self) -> (r: bool) {
        self.name.fits()
    }

    fn size_bytes(&self) -> (r: usize) {
        self.name.size_bytes()
    }
}

impl WriteToBytes for EnterShow {
    fn write_to_bytes(&self, out: &mut Vec<u8>) -> (r: Result<(), CodecError>) {
        if !self.fits() {
            return Err(CodecError::Oversize);
        }
        let ghost start = out@;
        let _ = self.name.write_to_bytes(out);
        proof {
            assert(out@ =~= start + Self::spec_bytes(self@));
        }
        Ok(())
    }
}

impl ReadFromBytes for EnterShow {
    open spec fn spec_parse(s: Seq<u8>) -> Option<(EnterShowView, nat)> {
        match <Ucs2>::spec_parse(s) {
            Some((t, n)) => Some((EnterShowView::from_fields(t), n)),
            None => None,
        }
    }

    proof fn lemma_parse_bytes(m: EnterShowView, rest: Seq<u8>) {
        <Ucs2>::lemma_parse_bytes(m.fields(), rest);
    }

    fn read_from_bytes(buf: &[u8], pos: usize) -> (r: Result<(EnterShow, usize), CodecError>) {
        let (t, end) = <Ucs2>::read_from_bytes(buf, pos)?;
        let name = t;
        Ok((EnterShow { name }, end))
    }
}

/// CAEX/LeaveShow: sent unsolicited by either side when a show is closed, or when show
/// synchronization is switched off.
#[derive(Clone, Copy, Debug, PartialEq, Eq)]
pub struct LeaveShow {}

impl View for LeaveShow {
    type V = ();

    open spec fn view(&self) -> () {
        ()
    }
}

impl LeaveShow {
    /// The tag of LeaveShow.
    pub const CONTENT_TYPE: u32 = 0x00020101;
}

impl SizeBytes for LeaveShow {
    open spec fn spec_fits(m: ()) -> bool {
        true
    }

    open spec fn spec_bytes(m: ()) -> Seq<u8> {
        Seq::empty()
    }

    fn fits(&self) -> (r: bool) {
        true
    }

    fn size_bytes(&self) -> (r: usize) {
        0
    }
}

impl WriteToBytes for LeaveShow {
    fn write_to_bytes(&self, out: &mut Vec<u8>) -> (r: Result<(), CodecError>) {
        proof {
            assert(out@ =~= out@ + Seq::<u8>::empty());
        }
        Ok(())
    }
}

impl ReadFromBytes for LeaveShow {
    open spec fn spec_parse(s: Seq<u8>) -> Option<((), nat)> {
        Some(((), 0))
    }

    proof fn lemma_parse_bytes(m: (), rest: Seq<u8>) {
    }

    fn read_from_bytes(buf: &[u8], pos: usize) -> (r: Result<(LeaveShow, usize), CodecError>) {
        Ok((LeaveShow {}, pos))
    }
}

/// CAEX/FixtureListRequest: asks the other side for its whole patch, which comes back as a
/// FixtureList of type `ExistingPatchList`.
#[derive(Clone, Copy, Debug, PartialEq, Eq)]
pub struct FixtureListRequest {}

impl View for FixtureListRequest {
    type V = ();

    open spec fn view(&self) -> () {
        ()
    }
}

impl FixtureListRequest {
    /// The tag of FixtureListRequest.
    pub const CONTENT_TYPE: u32 = 0x00020200;
}

impl SizeBytes for FixtureListRequest {
    open spec fn spec_fits(m: ()) -> bool {
        true
    }

    open spec fn spec_bytes(m: ()) -> Seq<u8> {
        Seq::empty()
    }

    fn fits(&self) -> (r: bool) {
        true
    }

    fn size_bytes(&self) -> (r: usize) {
        0
    }
}

impl WriteToBytes for FixtureListRequest {
    fn write_to_bytes(&self, out: &mut Vec<u8>) -> (r: Result<(), CodecError>) {
        proof {
            assert(out@ =~= out@ + Seq::<u8>::empty());
        }
        Ok(())
    }
}

impl ReadFromBytes for FixtureListRequest {
    open spec fn spec_parse(s: Seq<u8>) -> Option<((), nat)> {
        Some(((), 0))
    }

    proof fn lemma_parse_bytes(m: (), rest: Seq<u8>) {
    }

    fn read_from_bytes(buf: &[u8], pos: usize) -> (r: Result<(FixtureListRequest, usize), CodecError>) {
        Ok((FixtureListRequest {}, pos))
    }
}

/// A block that identifies a fixture type by one of several schemes.
#[derive(Clone, Debug, PartialEq, Eq)]
pub struct Identifier {
    /// The scheme, as an `IdentifierType` byte.
    pub identifier_type: u8,
    /// The identifier, as the scheme lays it out.
    pub data: Vec<u8>,
}

/// The model of a `Identifier`.
pub ghost struct IdentifierView {
    pub identifier_type: u8,
    pub data: Seq<u8>,
}

impl IdentifierView {
    /// The fields in the order in which they are written.
    pub open spec fn fields(self) -> (u8, Seq<u8>) {
        (self.identifier_type, self.data)
    }

    /// The model whose fields, in the order in which they are written, are `t`.
    pub open spec fn from_fields(t: (u8, Seq<u8>)) -> IdentifierView {
        IdentifierView {
            identifier_type: t.0,
            data: t.1,
        }
    }
}

impl View for Identifier {
    type V = IdentifierView;

    open spec fn view(&self) -> IdentifierView {
        IdentifierView {
            identifier_type: self.identifier_type,
            data: views(self.data@),
        }
    }
}

impl SizeBytes for Identifier {
    open spec fn spec_fits(m: IdentifierView) -> bool {
        <(u8, List16<u8>)>::spec_fits(m.fields())
    }

    open spec fn spec_bytes(m: IdentifierView) -> Seq<u8> {
        <(u8, List16<u8>)>::spec_bytes(m.fields())
    }

    fn fits(&self) -> (r: bool) {
        self.data.len() <= 0xffff && fits_vec(&self.data)
    }

    fn size_bytes(&self) -> (r: usize) {
        1 + size_list16(&self.data)
    }
}

impl WriteToBytes for Identifier {
    fn write_to_bytes(&self, out: &mut Vec<u8>) -> (r: Result<(), CodecError>) {
        if !self.fits() {
            return Err(CodecError::Oversize);
        }
        let ghost start = out@;
        let _ = self.identifier_type.write_to_bytes(out);
        let _ = write_list16(&self.data, out);
        proof {
            assert(out@ =~= start + Self::spec_bytes(self@));
        }
        Ok(())
    }
}

impl ReadFromBytes for Identifier {
    open spec fn spec_parse(s: Seq<u8>) -> Option<(IdentifierView, nat)> {
        match <(u8, List16<u8>)>::spec_parse(s) {
            Some((t, n)) => Some((IdentifierView::from_fields(t), n)),
            None => None,
        }
    }

    proof fn lemma_parse_bytes(m: IdentifierView, rest: Seq<u8>) {
        <(u8, List16<u8>)>::lemma_parse_bytes(m.fields(), rest);
    }

    fn read_from_bytes(buf: &[u8], pos: usize) -> (r: Result<(Identifier, usize), CodecError>) {
        let (t, end) = <(u8, List16<u8>)>::read_from_bytes(buf, pos)?;
        let (identifier_type, data) = t;
        Ok((Identifier { identifier_type, data: data.items }, end))
    }
}

/// The patch of a fixture and where it stands in the visualiser. The coordinates are
/// IEEE-754 single-precision numbers, held here as their bits.
#[derive(Clone, Debug, PartialEq, Eq)]
pub struct FixtureData {
    /// 1 when the fixture is patched, 0 otherwise.
    pub patched: u8,
    /// The universe, from 0.
    pub universe: u8,
    /// The DMX channel, from 0.
    pub universe_channel: u16,
    /// The unit number.
    pub unit: Ucs2,
    /// The channel number.
    pub channel: u16,
    /// The circuit number.
    pub circuit: Ucs2,
    /// Notes.
    pub note: Ucs2,
    /// The position in 3D, as the bits of three single-precision numbers.
    pub position: [u32; 3],
    /// The rotation in 3D, as the bits of three single-precision numbers.
    pub angles: [u32; 3],
}

/// The model of a `FixtureData`.
pub ghost struct FixtureDataView {
    pub patched: u8,
    pub universe: u8,
    pub universe_channel: u16,
    pub unit: Seq<u16>,
    pub channel: u16,
    pub circuit: Seq<u16>,
    pub note: Seq<u16>,
    pub position: (u32, u32, u32),
    pub angles: (u32, u32, u32),
}

impl FixtureDataView {
    /// The fields in the order in which they are written.
    pub open spec fn fields(self) -> (u8, (u8, (u16, (Seq<u16>, (u16, (Seq<u16>, (Seq<u16>, ((u32, (u32, u32)), (u32, (u32, u32)))))))))) {
        (self.patched, (self.universe, (self.universe_channel, (self.unit, (self.channel, (self.circuit, (self.note, ((self.position.0, (self.position.1, self.position.2)), (self.angles.0, (self.angles.1, self.angles.2))))))))))
    }

    /// The model whose fields, in the order in which they are written, are `t`.
    pub open spec fn from_fields(t: (u8, (u8, (u16, (Seq<u16>, (u16, (Seq<u16>, (Seq<u16>, ((u32, (u32, u32)), (u32, (u32, u32))))))))))) -> FixtureDataView {
        FixtureDataView {
            patched: t.0,
            universe: t.1.0,
            universe_channel: t.1.1.0,
            unit: t.1.1.1.0,
            channel: t.1.1.1.1.0,
            circuit: t.1.1.1.1.1.0,
            note: t.1.1.1.1.1.1.0,
            position: (t.1.1.1.1.1.1.1.0.0, t.1.1.1.1.1.1.1.0.1.0, t.1.1.1.1.1.1.1.0.1.1),
            angles: (t.1.1.1.1.1.1.1.1.0, t.1.1.1.1.1.1.1.1.1.0, t.1.1.1.1.1.1.1.1.1.1),
        }
    }
}

impl View for FixtureData {
    type V = FixtureDataView;

    open spec fn view(&self) -> FixtureDataView {
        FixtureDataView {
            patched: self.patched,
            universe: self.universe,
            universe_channel: self.universe_channel,
            unit: self.unit@,
            channel: self.channel,
            circuit: self.circuit@,
            note: self.note@,
            position: (self.position[0], self.position[1], self.position[2]),
            angles: (self.angles[0], self.angles[1], self.angles[2]),
        }
    }
}

impl SizeBytes for FixtureData {
    open spec fn spec_fits(m: FixtureDataView) -> bool {
        <(u8, (u8, (u16, (Ucs2, (u16, (Ucs2, (Ucs2, ((u32, (u32, u32)), (u32, (u32, u32))))))))))>::spec_fits(m.fields())
    }

    open spec fn spec_bytes(m: FixtureDataView) -> Seq<u8> {
        <(u8, (u8, (u16, (Ucs2, (u16, (Ucs2, (Ucs2, ((u32, (u32, u32)), (u32, (u32, u32))))))))))>::spec_bytes(m.fields())
    }

    fn fits(&self) -> (r: bool) {
        self.unit.fits() && self.circuit.fits() && self.note.fits()
    }

    fn size_bytes(&self) -> (r: usize) {
        1 + 1 + 2 + self.unit.size_bytes() + 2 + self.circuit.size_bytes() + self.note.size_bytes() + 12 + 12
    }
}

impl WriteToBytes for FixtureData {
    fn write_to_bytes(&self, out: &mut Vec<u8>) -> (r: Result<(), CodecError>) {
        if !self.fits() {
            return Err(CodecError::Oversize);
        }
        let ghost start = out@;
        let _ = self.patched.write_to_bytes(out);
        let _ = self.universe.write_to_bytes(out);
        let _ = self.universe_channel.write_to_bytes(out);
        let _ = self.unit.write_to_bytes(out);
        let _ = self.channel.write_to_bytes(out);
        let _ = self.circuit.write_to_bytes(out);
        let _ = self.note.write_to_bytes(out);
        let _ = self.position[0].write_to_bytes(out);
        let _ = self.position[1].write_to_bytes(out);
        let _ = self.position[2].write_to_bytes(out);
        let _ = self.angles[0].write_to_bytes(out);
        let _ = self.angles[1].write_to_bytes(out);
        let _ = self.angles[2].write_to_bytes(out);
        proof {
            assert(out@ =~= start + Self::spec_bytes(self@));
        }
        Ok(())
    }
}

impl ReadFromBytes for FixtureData {
    open spec fn spec_parse(s: Seq<u8>) -> Option<(FixtureDataView, nat)> {
        match <(u8, (u8, (u16, (Ucs2, (u16, (Ucs2, (Ucs2, ((u32, (u32, u32)), (u32, (u32, u32))))))))))>::spec_parse(s) {
            Some((t, n)) => Some((FixtureDataView::from_fields(t), n)),
            None => None,
        }
    }

    proof fn lemma_parse_bytes(m: FixtureDataView, rest: Seq<u8>) {
        <(u8, (u8, (u16, (Ucs2, (u16, (Ucs2, (Ucs2, ((u32, (u32, u32)), (u32, (u32, u32))))))))))>::lemma_parse_bytes(m.fields(), rest);
    }

    #[verifier::rlimit(30)]
    fn read_from_bytes(buf: &[u8], pos: usize) -> (r: Result<(FixtureData, usize), CodecError>) {
        let (t, end) = <(u8, (u8, (u16, (Ucs2, (u16, (Ucs2, (Ucs2, ((u32, (u32, u32)), (u32, (u32, u32))))))))))>::read_from_bytes(buf, pos)?;
        let (patched, (universe, (universe_channel, (unit, (channel, (circuit, (note, ((position_0, (position_1, position_2)), (angles_0, (angles_1, angles_2)))))))))) = t;
        Ok((FixtureData { patched, universe, universe_channel, unit, channel, circuit, note, position: [position_0, position_1, position_2], angles: [angles_0, angles_1, angles_2] }, end))
    }
}

/// A fixture of a FixtureList message.
#[derive(Clone, Debug, PartialEq, Eq)]
pub struct Fixture {
    /// The console's fixture identifier; 0xffffffff when Capture does not know it.
    pub fixture_identifier: u32,
    /// The name of the fixture's manufacturer.
    pub manufacturer_name: Ucs2,
    /// The model name of the fixture.
    pub fixture_name: Ucs2,
    /// The name of the DMX mode.
    pub mode_name: Ucs2,
    /// The number of channels of the DMX mode.
    pub channel_count: u16,
    /// 1 when the fixture is only a dimmer, 0 otherwise.
    pub is_dimmer: u8,
    /// The identifier blocks.
    pub identifiers: Vec<Identifier>,
    /// The patch and the place in the visualiser.
    pub data: FixtureData,
}

/// The model of a `Fixture`.
pub ghost struct FixtureView {
    pub fixture_identifier: u32,
    pub manufacturer_name: Seq<u16>,
    pub fixture_name: Seq<u16>,
    pub mode_name: Seq<u16>,
    pub channel_count: u16,
    pub is_dimmer: u8,
    pub identifiers: Seq<IdentifierView>,
    pub data: FixtureDataView,
}

impl FixtureView {
    /// The fields in the order in which they are written.
    pub open spec fn fields(self) -> (u32, (Seq<u16>, (Seq<u16>, (Seq<u16>, (u16, (u8, (Seq<IdentifierView>, FixtureDataView))))))) {
        (self.fixture_identifier, (self.manufacturer_name, (self.fixture_name, (self.mode_name, (self.channel_count, (self.is_dimmer, (self.identifiers, self.data)))))))
    }

    /// The model whose fields, in the order in which they are written, are `t`.
    pub open spec fn from_fields(t: (u32, (Seq<u16>, (Seq<u16>, (Seq<u16>, (u16, (u8, (Seq<IdentifierView>, FixtureDataView)))))))) -> FixtureView {
        FixtureView {
            fixture_identifier: t.0,
            manufacturer_name: t.1.0,
            fixture_name: t.1.1.0,
            mode_name: t.1.1.1.0,
            channel_count: t.1.1.1.1.0,
            is_dimmer: t.1.1.1.1.1.0,
            identifiers: t.1.1.1.1.1.1.0,
            data: t.1.1.1.1.1.1.1,
        }
    }
}

impl View for Fixture {
    type V = FixtureView;

    open spec fn view(&self) -> FixtureView {
        FixtureView {
            fixture_identifier: self.fixture_identifier,
            manufacturer_name: self.manufacturer_name@,
            fixture_name: self.fixture_name@,
            mode_name: self.mode_name@,
            channel_count: self.channel_count,
            is_dimmer: self.is_dimmer,
            identifiers: views(self.identifiers@),
            data: self.data@,
        }
    }
}

impl SizeBytes for Fixture {
    open spec fn spec_fits(m: FixtureView) -> bool {
        <(u32, (Ucs2, (Ucs2, (Ucs2, (u16, (u8, (List8<Identifier>, FixtureData)))))))>::spec_fits(m.fields())
    }

    open spec fn spec_bytes(m: FixtureView) -> Seq<u8> {
        <(u32, (Ucs2, (Ucs2, (Ucs2, (u16, (u8, (List8<Identifier>, FixtureData)))))))>::spec_bytes(m.fields())
    }

    fn fits(&self) -> (r: bool) {
        self.manufacturer_name.fits() && self.fixture_name.fits() && self.mode_name.fits() && self.identifiers.len() <= 0xff && fits_vec(&self.identifiers) && self.data.fits()
    }

    fn size_bytes(&self) -> (r: usize) {
        4 + self.manufacturer_name.size_bytes() + self.fixture_name.size_bytes() + self.mode_name.size_bytes() + 2 + 1 + size_list8(&self.identifiers) + self.data.size_bytes()
    }
}

impl WriteToBytes for Fixture {
    fn write_to_bytes(&self, out: &mut Vec<u8>) -> (r: Result<(), CodecError>) {
        if !self.fits() {
            return Err(CodecError::Oversize);
        }
        let ghost start = out@;
        let _ = self.fixture_identifier.write_to_bytes(out);
        let _ = self.manufacturer_name.write_to_bytes(out);
        let _ = self.fixture_name.write_to_bytes(out);
        let _ = self.mode_name.write_to_bytes(out);
        let _ = self.channel_count.write_to_bytes(out);
        let _ = self.is_dimmer.write_to_bytes(out);
        let _ = write_list8(&self.identifiers, out);
        let _ = self.data.write_to_bytes(out);
        proof {
            assert(out@ =~= start + Self::spec_bytes(self@));
        }
        Ok(())
    }
}

impl ReadFromBytes for Fixture {
    open spec fn spec_parse(s: Seq<u8>) -> Option<(FixtureView, nat)> {
        match <(u32, (Ucs2, (Ucs2, (Ucs2, (u16, (u8, (List8<Identifier>, FixtureData)))))))>::spec_parse(s) {
            Some((t, n)) => Some((FixtureView::from_fields(t), n)),
            None => None,
        }
    }

    proof fn lemma_parse_bytes(m: FixtureView, rest: Seq<u8>) {
        <(u32, (Ucs2, (Ucs2, (Ucs2, (u16, (u8, (List8<Identifier>, FixtureData)))))))>::lemma_parse_bytes(m.fields(), rest);
    }

    fn read_from_bytes(buf: &[u8], pos: usize) -> (r: Result<(Fixture, usize), CodecError>) {
        let (t, end) = <(u32, (Ucs2, (Ucs2, (Ucs2, (u16, (u8, (List8<Identifier>, FixtureData)))))))>::read_from_bytes(buf, pos)?;
        let (fixture_identifier, (manufacturer_name, (fixture_name, (mode_name, (channel_count, (is_dimmer, (identifiers, data))))))) = t;
        Ok((Fixture { fixture_identifier, manufacturer_name, fixture_name, mode_name, channel_count, is_dimmer, identifiers: identifiers.items, data }, end))
    }
}

/// CAEX/FixtureList: the answer to a FixtureListRequest, with all known fixtures, or an
/// unsolicited list of fixtures just added or exchanged.
#[derive(Clone, Debug, PartialEq, Eq)]
pub struct FixtureList {
    /// What the list holds, as a `FixtureListMessageType` byte.
    pub message_type: u8,
    /// The fixtures.
    pub fixtures: Vec<Fixture>,
}

/// The model of a `FixtureList`.
pub ghost struct FixtureListView {
    pub message_type: u8,
    pub fixtures: Seq<FixtureView>,
}

impl FixtureListView {
    /// The fields in the order in which they are written.
    pub open spec fn fields(self) -> (u8, Seq<FixtureView>) {
        (self.message_type, self.fixtures)
    }

    /// The model whose fields, in the order in which they are written, are `t`.
    pub open spec fn from_fields(t: (u8, Seq<FixtureView>)) -> FixtureListView {
        FixtureListView {
            message_type: t.0,
            fixtures: t.1,
        }
    }
}

impl View for FixtureList {
    type V = FixtureListView;

    open spec fn view(&self) -> FixtureListView {
        FixtureListView {
            message_type: self.message_type,
            fixtures: views(self.fixtures@),
        }
    }
}

impl FixtureList {
    /// The tag of FixtureList.
    pub const CONTENT_TYPE: u32 = 0x00020201;
}

impl SizeBytes for FixtureList {
    open spec fn spec_fits(m: FixtureListView) -> bool {
        <(u8, List16<Fixture>)>::spec_fits(m.fields())
    }

    open spec fn spec_bytes(m: FixtureListView) -> Seq<u8> {
        <(u8, List16<Fixture>)>::spec_bytes(m.fields())
    }

    fn fits(&self) -> (r: bool) {
        self.fixtures.len() <= 0xffff && fits_vec(&self.fixtures)
    }

    fn size_bytes(&self) -> (r: usize) {
        1 + size_list16(&self.fixtures)
    }
}

impl WriteToBytes for FixtureList {
    fn write_to_bytes(&self, out: &mut Vec<u8>) -> (r: Result<(), CodecError>) {
        if !self.fits() {
            return Err(CodecError::Oversize);
        }
        let ghost start = out@;
        let _ = self.message_type.write_to_bytes(out);
        let _ = write_list16(&self.fixtures, out);
        proof {
            assert(out@ =~= start + Self::spec_bytes(self@));
        }
        Ok(())
    }
}

impl ReadFromBytes for FixtureList {
    open spec fn spec_parse(s: Seq<u8>) -> Option<(FixtureListView, nat)> {
        match <(u8, List16<Fixture>)>::spec_parse(s) {
            Some((t, n)) => Some((FixtureListView::from_fields(t), n)),
            None => None,
        }
    }

    proof fn lemma_parse_bytes(m: FixtureListView, rest: Seq<u8>) {
        <(u8, List16<Fixture>)>::lemma_parse_bytes(m.fields(), rest);
    }

    fn read_from_bytes(buf: &[u8], pos: usize) -> (r: Result<(FixtureList, usize), CodecError>) {
        let (t, end) = <(u8, List16<Fixture>)>::read_from_bytes(buf, pos)?;
        let (message_type, fixtures) = t;
        Ok((FixtureList { message_type, fixtures: fixtures.items }, end))
    }
}

/// CAEX/FixtureRemove: sent unsolicited by either side when fixtures have been removed.
#[derive(Clone, Debug, PartialEq, Eq)]
pub struct FixtureRemove {
    /// The fixtures removed.
    pub fixture_identifiers: Vec<u32>,
}

/// The model of a `FixtureRemove`.
pub ghost struct FixtureRemoveView {
    pub fixture_identifiers: Seq<u32>,
}

impl FixtureRemoveView {
    /// The fields in the order in which they are written.
    pub open spec fn fields(self) -> Seq<u32> {
        self.fixture_identifiers
    }

    /// The model whose fields, in the order in which they are written, are `t`.
    pub open spec fn from_fields(t: Seq<u32>) -> FixtureRemoveView {
        FixtureRemoveView {
            fixture_identifiers: t,
        }
    }
}

impl View for FixtureRemove {
    type V = FixtureRemoveView;

    open spec fn view(&self) -> FixtureRemoveView {
        FixtureRemoveView {
            fixture_identifiers: views(self.fixture_identifiers@),
        }
    }
}

impl FixtureRemove {
    /// The tag of FixtureRemove.
    pub const CONTENT_TYPE: u32 = 0x00020203;
}

impl SizeBytes for FixtureRemove {
    open spec fn spec_fits(m: FixtureRemoveView) -> bool {
        <List16<u32>>::spec_fits(m.fields())
    }

    open spec fn spec_bytes(m: FixtureRemoveView) -> Seq<u8> {
        <List16<u32>>::spec_bytes(m.fields())
    }

    fn fits(&self) -> (r: bool) {
        self.fixture_identifiers.len() <= 0xffff && fits_vec(&self.fixture_identifiers)
    }

    fn size_bytes(&self) -> (r: usize) {
        size_list16(&self.fixture_identifiers)
    }
}

impl WriteToBytes for FixtureRemove {
    fn write_to_bytes(&self, out: &mut Vec<u8>) -> (r: Result<(), CodecError>) {
        if !self.fits() {
            return Err(CodecError::Oversize);
        }
        let ghost start = out@;
        let _ = write_list16(&self.fixture_identifiers, out);
        proof {
            assert(out@ =~= start + Self::spec_bytes(self@));
        }
        Ok(())
    }
}

impl ReadFromBytes for FixtureRemove {
    open spec fn spec_parse(s: Seq<u8>) -> Option<(FixtureRemoveView, nat)> {
        match <List16<u32>>::spec_parse(s) {
            Some((t, n)) => Some((FixtureRemoveView::from_fields(t), n)),
            None => None,
        }
    }

    proof fn lemma_parse_bytes(m: FixtureRemoveView, rest: Seq<u8>) {
        <List16<u32>>::lemma_parse_bytes(m.fields(), rest);
    }

    fn read_from_bytes(buf: &[u8], pos: usize) -> (r: Result<(FixtureRemove, usize), CodecError>) {
        let (t, end) = <List16<u32>>::read_from_bytes(buf, pos)?;
        let fixture_identifiers = t;
        Ok((FixtureRemove { fixture_identifiers: fixture_identifiers.items }, end))
    }
}

/// The state of one fixture in a FixtureConsoleStatus message.
#[derive(Clone, Copy, Debug, PartialEq, Eq)]
pub struct FixtureState {
    /// The console's fixture identifier.
    pub fixture_identifier: u32,
    /// Not zero when the fixture is locked against changes.
    pub locked: u8,
    /// Not zero when the fixture has a programmer state that can be cleared.
    pub clearable: u8,
}

/// The model of a `FixtureState`.
pub ghost struct FixtureStateView {
    pub fixture_identifier: u32,
    pub locked: u8,
    pub clearable: u8,
}

impl FixtureStateView {
    /// The fields in the order in which they are written.
    pub open spec fn fields(self) -> (u32, (u8, u8)) {
        (self.fixture_identifier, (self.locked, self.clearable))
    }

    /// The model whose fields, in the order in which they are written, are `t`.
    pub open spec fn from_fields(t: (u32, (u8, u8))) -> FixtureStateView {
        FixtureStateView {
            fixture_identifier: t.0,
            locked: t.1.0,
            clearable: t.1.1,
        }
    }
}

impl View for FixtureState {
    type V = FixtureStateView;

    open spec fn view(&self) -> FixtureStateView {
        FixtureStateView {
            fixture_identifier: self.fixture_identifier,
            locked: self.locked,
            clearable: self.clearable,
        }
    }
}

impl SizeBytes for FixtureState {
    open spec fn spec_fits(m: FixtureStateView) -> bool {
        <(u32, (u8, u8))>::spec_fits(m.fields())
    }

    open spec fn spec_bytes(m: FixtureStateView) -> Seq<u8> {
        <(u32, (u8, u8))>::spec_bytes(m.fields())
    }

    fn fits(&self) -> (r: bool) {
        true
    }

    fn size_bytes(&self) -> (r: usize) {
        4 + 1 + 1
    }
}

impl WriteToBytes for FixtureState {
    fn write_to_bytes(&self, out: &mut Vec<u8>) -> (r: Result<(), CodecError>) {
        if !self.fits() {
            return Err(CodecError::Oversize);
        }
        let ghost start = out@;
        let _ = self.fixture_identifier.write_to_bytes(out);
        let _ = self.locked.write_to_bytes(out);
        let _ = self.clearable.write_to_bytes(out);
        proof {
            assert(out@ =~= start + Self::spec_bytes(self@));
        }
        Ok(())
    }
}

impl ReadFromBytes for FixtureState {
    open spec fn spec_parse(s: Seq<u8>) -> Option<(FixtureStateView, nat)> {
        match <(u32, (u8, u8))>::spec_parse(s) {
            Some((t, n)) => Some((FixtureStateView::from_fields(t), n)),
            None => None,
        }
    }

    proof fn lemma_parse_bytes(m: FixtureStateView, rest: Seq<u8>) {
        <(u32, (u8, u8))>::lemma_parse_bytes(m.fields(), rest);
    }

    fn read_from_bytes(buf: &[u8], pos: usize) -> (r: Result<(FixtureState, usize), CodecError>) {
        let (t, end) = <(u32, (u8, u8))>::read_from_bytes(buf, pos)?;
        let (fixture_identifier, (locked, clearable)) = t;
        Ok((FixtureState { fixture_identifier, locked, clearable }, end))
    }
}

/// CAEX/FixtureConsoleStatus: live information from the console that Capture can display.
#[derive(Clone, Debug, PartialEq, Eq)]
pub struct FixtureConsoleStatus {
    /// The states of the fixtures.
    pub fixtures_state: Vec<FixtureState>,
}

/// The model of a `FixtureConsoleStatus`.
pub ghost struct FixtureConsoleStatusView {
    pub fixtures_state: Seq<FixtureStateView>,
}

impl FixtureConsoleStatusView {
    /// The fields in the order in which they are written.
    pub open spec fn fields(self) -> Seq<FixtureStateView> {
        self.fixtures_state
    }

    /// The model whose fields, in the order in which they are written, are `t`.
    pub open spec fn from_fields(t: Seq<FixtureStateView>) -> FixtureConsoleStatusView {
        FixtureConsoleStatusView {
            fixtures_state: t,
        }
    }
}

impl View for FixtureConsoleStatus {
    type V = FixtureConsoleStatusView;

    open spec fn view(&self) -> FixtureConsoleStatusView {
        FixtureConsoleStatusView {
            fixtures_state: views(self.fixtures_state@),
        }
    }
}

impl FixtureConsoleStatus {
    /// The tag of FixtureConsoleStatus.
    pub const CONTENT_TYPE: u32 = 0x00020400;
}

impl SizeBytes for FixtureConsoleStatus {
    open spec fn spec_fits(m: FixtureConsoleStatusView) -> bool {
        <List16<FixtureState>>::spec_fits(m.fields())
    }

    open spec fn spec_bytes(m: FixtureConsoleStatusView) -> Seq<u8> {
        <List16<FixtureState>>::spec_bytes(m.fields())
    }

    fn fits(&self) -> (r: bool) {
        self.fixtures_state.len() <= 0xffff && fits_vec(&self.fixtures_state)
    }

    fn size_bytes(&self) -> (r: usize) {
        size_list16(&self.fixtures_state)
    }
}

impl WriteToBytes for FixtureConsoleStatus {
    fn write_to_bytes(&self, out: &mut Vec<u8>) -> (r: Result<(), CodecError>) {
        if !self.fits() {
            return Err(CodecError::Oversize);
        }
        let ghost start = out@;
        let _ = write_list16(&self.fixtures_state, out);
        proof {
            assert(out@ =~= start + Self::spec_bytes(self@));
        }
        Ok(())
    }
}

impl ReadFromBytes for FixtureConsoleStatus {
    open spec fn spec_parse(s: Seq<u8>) -> Option<(FixtureConsoleStatusView, nat)> {
        match <List16<FixtureState>>::spec_parse(s) {
            Some((t, n)) => Some((FixtureConsoleStatusView::from_fields(t), n)),
            None => None,
        }
    }

    proof fn lemma_parse_bytes(m: FixtureConsoleStatusView, rest: Seq<u8>) {
        <List16<FixtureState>>::lemma_parse_bytes(m.fields(), rest);
    }

    fn read_from_bytes(buf: &[u8], pos: usize) -> (r: Result<(FixtureConsoleStatus, usize), CodecError>) {
        let (t, end) = <List16<FixtureState>>::read_from_bytes(buf, pos)?;
        let fixtures_state = t;
        Ok((FixtureConsoleStatus { fixtures_state: fixtures_state.items }, end))
    }
}

/// CAEX/GetLaserFeedList: sent by Capture on connection to learn which laser feeds are
/// available.
#[derive(Clone, Copy, Debug, PartialEq, Eq)]
pub struct GetLaserFeedList {}

impl View for GetLaserFeedList {
    type V = ();

    open spec fn view(&self) -> () {
        ()
    }
}

impl GetLaserFeedList {
    /// The tag of GetLaserFeedList.
    pub const CONTENT_TYPE: u32 = 0x00030100;
}

impl SizeBytes for GetLaserFeedList {
    open spec fn spec_fits(m: ()) -> bool {
        true
    }

    open spec fn spec_bytes(m: ()) -> Seq<u8> {
        Seq::empty()
    }

    fn fits(&self) -> (r: bool) {
        true
    }

    fn size_bytes(&self) -> (r: usize) {
        0
    }
}

impl WriteToBytes for GetLaserFeedList {
    fn write_to_bytes(&self, out: &mut Vec<u8>) -> (r: Result<(), CodecError>) {
        proof {
            assert(out@ =~= out@ + Seq::<u8>::empty());
        }
        Ok(())
    }
}

impl ReadFromBytes for GetLaserFeedList {
    open spec fn spec_parse(s: Seq<u8>) -> Option<((), nat)> {
        Some(((), 0))
    }

    proof fn lemma_parse_bytes(m: (), rest: Seq<u8>) {
    }

    fn read_from_bytes(buf: &[u8], pos: usize) -> (r: Result<(GetLaserFeedList, usize), CodecError>) {
        Ok((GetLaserFeedList {}, pos))
    }
}

/// CAEX/LaserFeedList: the laser feeds available, in answer to GetLaserFeedList or when they
/// change.
#[derive(Clone, Debug, PartialEq, Eq)]
pub struct LaserFeedList {
    /// The source key that the frame messages carry.
    pub source_key: u32,
    /// The names of the feeds.
    pub feed_names: Vec<Ucs2>,
}

/// The model of a `LaserFeedList`.
pub ghost struct LaserFeedListView {
    pub source_key: u32,
    pub feed_names: Seq<Seq<u16>>,
}

impl LaserFeedListView {
    /// The fields in the order in which they are written.
    pub open spec fn fields(self) -> (u32, Seq<Seq<u16>>) {
        (self.source_key, self.feed_names)
    }

    /// The model whose fields, in the order in which they are written, are `t`.
    pub open spec fn from_fields(t: (u32, Seq<Seq<u16>>)) -> LaserFeedListView {
        LaserFeedListView {
            source_key: t.0,
            feed_names: t.1,
        }
    }
}

impl View for LaserFeedList {
    type V = LaserFeedListView;

    open spec fn view(&self) -> LaserFeedListView {
        LaserFeedListView {
            source_key: self.source_key,
            feed_names: views(self.feed_names@),
        }
    }
}

impl LaserFeedList {
    /// The tag of LaserFeedList.
    pub const CONTENT_TYPE: u32 = 0x00030101;
}

impl SizeBytes for LaserFeedList {
    open spec fn spec_fits(m: LaserFeedListView) -> bool {
        <(u32, List8<Ucs2>)>::spec_fits(m.fields())
    }

    open spec fn spec_bytes(m: LaserFeedListView) -> Seq<u8> {
        <(u32, List8<Ucs2>)>::spec_bytes(m.fields())
    }

    fn fits(&self) -> (r: bool) {
        self.feed_names.len() <= 0xff && fits_vec(&self.feed_names)
    }

    fn size_bytes(&self) -> (r: usize) {
        4 + size_list8(&self.feed_names)
    }
}

impl WriteToBytes for LaserFeedList {
    fn write_to_bytes(&self, out: &mut Vec<u8>) -> (r: Result<(), CodecError>) {
        if !self.fits() {
            return Err(CodecError::Oversize);
        }
        let ghost start = out@;
        let _ = self.source_key.write_to_bytes(out);
        let _ = write_list8(&self.feed_names, out);
        proof {
            assert(out@ =~= start + Self::spec_bytes(self@));
        }
        Ok(())
    }
}

impl ReadFromBytes for LaserFeedList {
    open spec fn spec_parse(s: Seq<u8>) -> Option<(LaserFeedListView, nat)> {
        match <(u32, List8<Ucs2>)>::spec_parse(s) {
            Some((t, n)) => Some((LaserFeedListView::from_fields(t), n)),
            None => None,
        }
    }

    proof fn lemma_parse_bytes(m: LaserFeedListView, rest: Seq<u8>) {
        <(u32, List8<Ucs2>)>::lemma_parse_bytes(m.fields(), rest);
    }

    fn read_from_bytes(buf: &[u8], pos: usize) -> (r: Result<(LaserFeedList, usize), CodecError>) {
        let (t, end) = <(u32, List8<Ucs2>)>::read_from_bytes(buf, pos)?;
        let (source_key, feed_names) = t;
        Ok((LaserFeedList { source_key, feed_names: feed_names.items }, end))
    }
}

/// CAEX/LaserFeedControl: whether Capture wants a feed transmitted, and at most how often.
#[derive(Clone, Debug, PartialEq, Eq)]
pub struct LaserFeedControl {
    /// The index of the feed, from 0.
    pub feed_index: u8,
    /// The frame rate asked for; 0 stops the feed.
    pub frame_rate: u8,
}

/// The model of a `LaserFeedControl`.
pub ghost struct LaserFeedControlView {
    pub feed_index: u8,
    pub frame_rate: u8,
}

impl LaserFeedControlView {
    /// The fields in the order in which they are written.
    pub open spec fn fields(self) -> (u8, u8) {
        (self.feed_index, self.frame_rate)
    }

    /// The model whose fields, in the order in which they are written, are `t`.
    pub open spec fn from_fields(t: (u8, u8)) -> LaserFeedControlView {
        LaserFeedControlView {
            feed_index: t.0,
            frame_rate: t.1,
        }
    }
}

impl View for LaserFeedControl {
    type V = LaserFeedControlView;

    open spec fn view(&self) -> LaserFeedControlView {
        LaserFeedControlView {
            feed_index: self.feed_index,
            frame_rate: self.frame_rate,
        }
    }
}

impl LaserFeedControl {
    /// The tag of LaserFeedControl.
    pub const CONTENT_TYPE: u32 = 0x00030102;
}

impl SizeBytes for LaserFeedControl {
    open spec fn spec_fits(m: LaserFeedControlView) -> bool {
        <(u8, u8)>::spec_fits(m.fields())
    }

    open spec fn spec_bytes(m: LaserFeedControlView) -> Seq<u8> {
        <(u8, u8)>::spec_bytes(m.fields())
    }

    fn fits(&self) -> (r: bool) {
        true
    }

    fn size_bytes(&self) -> (r: usize) {
        1 + 1
    }
}

impl WriteToBytes for LaserFeedControl {
    fn write_to_bytes(&self, out: &mut Vec<u8>) -> (r: Result<(), CodecError>) {
        if !self.fits() {
            return Err(CodecError::Oversize);
        }
        let ghost start = out@;
        let _ = self.feed_index.write_to_bytes(out);
        let _ = self.frame_rate.write_to_bytes(out);
        proof {
            assert(out@ =~= start + Self::spec_bytes(self@));
        }
        Ok(())
    }
}

impl ReadFromBytes for LaserFeedControl {
    open spec fn spec_parse(s: Seq<u8>) -> Option<(LaserFeedControlView, nat)> {
        match <(u8, u8)>::spec_parse(s) {
            Some((t, n)) => Some((LaserFeedControlView::from_fields(t), n)),
            None => None,
        }
    }

    proof fn lemma_parse_bytes(m: LaserFeedControlView, rest: Seq<u8>) {
        <(u8, u8)>::lemma_parse_bytes(m.fields(), rest);
    }

    fn read_from_bytes(buf: &[u8], pos: usize) -> (r: Result<(LaserFeedControl, usize), CodecError>) {
        let (t, end) = <(u8, u8)>::read_from_bytes(buf, pos)?;
        let (feed_index, frame_rate) = t;
        Ok((LaserFeedControl { feed_index, frame_rate }, end))
    }
}

/// CAEX/LaserFeedFrame: one frame of a laser feed, multicast to Capture.
#[derive(Clone, Debug, PartialEq, Eq)]
pub struct LaserFeedFrame {
    /// The source key of the LaserFeedList message.
    pub source_key: u32,
    /// The index of the feed, from 0.
    pub feed_index: u8,
    /// A sequence number from 0, to detect frames out of order.
    pub frame_sequence: u32,
    /// The points of the frame.
    pub points: Vec<LaserPoint>,
}

/// The model of a `LaserFeedFrame`.
pub ghost struct LaserFeedFrameView {
    pub source_key: u32,
    pub feed_index: u8,
    pub frame_sequence: u32,
    pub points: Seq<LaserPoint>,
}

impl LaserFeedFrameView {
    /// The fields in the order in which they are written.
    pub open spec fn fields(self) -> (u32, (u8, (u32, Seq<LaserPoint>))) {
        (self.source_key, (self.feed_index, (self.frame_sequence, self.points)))
    }

    /// The model whose fields, in the order in which they are written, are `t`.
    pub open spec fn from_fields(t: (u32, (u8, (u32, Seq<LaserPoint>)))) -> LaserFeedFrameView {
        LaserFeedFrameView {
            source_key: t.0,
            feed_index: t.1.0,
            frame_sequence: t.1.1.0,
            points: t.1.1.1,
        }
    }
}

impl View for LaserFeedFrame {
    type V = LaserFeedFrameView;

    open spec fn view(&self) -> LaserFeedFrameView {
        LaserFeedFrameView {
            source_key: self.source_key,
            feed_index: self.feed_index,
            frame_sequence: self.frame_sequence,
            points: views(self.points@),
        }
    }
}

impl LaserFeedFrame {
    /// The tag of LaserFeedFrame.
    pub const CONTENT_TYPE: u32 = 0x00030200;
}

impl SizeBytes for LaserFeedFrame {
    open spec fn spec_fits(m: LaserFeedFrameView) -> bool {
        <(u32, (u8, (u32, List16<LaserPoint>)))>::spec_fits(m.fields())
    }

    open spec fn spec_bytes(m: LaserFeedFrameView) -> Seq<u8> {
        <(u32, (u8, (u32, List16<LaserPoint>)))>::spec_bytes(m.fields())
    }

    fn fits(&self) -> (r: bool) {
        self.points.len() <= 0xffff && fits_vec(&self.points)
    }

    fn size_bytes(&self) -> (r: usize) {
        4 + 1 + 4 + size_list16(&self.points)
    }
}

impl WriteToBytes for LaserFeedFrame {
    fn write_to_bytes(&self, out: &mut Vec<u8>) -> (r: Result<(), CodecError>) {
        if !self.fits() {
            return Err(CodecError::Oversize);
        }
        let ghost start = out@;
        let _ = self.source_key.write_to_bytes(out);
        let _ = self.feed_index.write_to_bytes(out);
        let _ = self.frame_sequence.write_to_bytes(out);
        let _ = write_list16(&self.points, out);
        proof {
            assert(out@ =~= start + Self::spec_bytes(self@));
        }
        Ok(())
    }
}

impl ReadFromBytes for LaserFeedFrame {
    open spec fn spec_parse(s: Seq<u8>) -> Option<(LaserFeedFrameView, nat)> {
        match <(u32, (u8, (u32, List16<LaserPoint>)))>::spec_parse(s) {
            Some((t, n)) => Some((LaserFeedFrameView::from_fields(t), n)),
            None => None,
        }
    }

    proof fn lemma_parse_bytes(m: LaserFeedFrameView, rest: Seq<u8>) {
        <(u32, (u8, (u32, List16<LaserPoint>)))>::lemma_parse_bytes(m.fields(), rest);
    }

    fn read_from_bytes(buf: &[u8], pos: usize) -> (r: Result<(LaserFeedFrame, usize), CodecError>) {
        let (t, end) = <(u32, (u8, (u32, List16<LaserPoint>)))>::read_from_bytes(buf, pos)?;
        let (source_key, (feed_index, (frame_sequence, points))) = t;
        Ok((LaserFeedFrame { source_key, feed_index, frame_sequence, points: points.items }, end))
    }
}

/// A point of a laser frame. Its coordinates, from 0 to 4093, are split into a low byte
/// each and a byte that holds both high nibbles; its colour is packed as 5 bits of red,
/// 6 of green and 5 of blue.
#[derive(Clone, Copy, Debug, PartialEq, Eq, Structural)]
pub struct LaserPoint {
    /// The low byte of the x coordinate.
    pub x_low_byte: u8,
    /// The low byte of the y coordinate.
    pub y_low_byte: u8,
    /// The high nibble of x in the low four bits, that of y in the high four bits.
    pub xy_high_nibbles: u8,
    /// Red in bits 0 to 4, green in bits 5 to 10, blue in bits 11 to 15.
    pub color: u16,
}

impl View for LaserPoint {
    type V = LaserPoint;

    open spec fn view(&self) -> LaserPoint {
        *self
    }
}

/// The point with coordinates `x`, `y` and colour `red`, `green`, `blue`: the low byte of
/// each coordinate, the high nibbles as `y_high * 16 + x_high`, and the colour as red, green
/// shifted by 5 and blue shifted by 11.
pub open spec fn spec_pack(x: u16, y: u16, red: u8, green: u8, blue: u8) -> LaserPoint {
    LaserPoint {
        x_low_byte: (x % 256) as u8,
        y_low_byte: (y % 256) as u8,
        xy_high_nibbles: ((y / 256 % 16) * 16 + (x / 256 % 16)) as u8,
        color: (red as u16) | ((green as u16) << 5u16) | ((blue as u16) << 11u16),
    }
}

impl LaserPoint {
    /// The x coordinate: the low byte plus the low nibble of `xy_high_nibbles`, shifted
    /// by 8.
    pub open spec fn spec_x(self) -> int {
        (self.x_low_byte as u16) + (((self.xy_high_nibbles & 0x0f) as u16) << 8u16)
    }

    /// The y coordinate: the low byte plus the high nibble of `xy_high_nibbles`, shifted
    /// by 4.
    pub open spec fn spec_y(self) -> int {
        (self.y_low_byte as u16) + (((self.xy_high_nibbles & 0xf0) as u16) << 4u16)
    }

    pub open spec fn spec_red(self) -> u8 {
        (self.color & 0x001f) as u8
    }

    pub open spec fn spec_green(self) -> u8 {
        ((self.color & 0x07e0) >> 5u16) as u8
    }

    pub open spec fn spec_blue(self) -> u8 {
        ((self.color & 0xf800) >> 11u16) as u8
    }

    /// The point with the given coordinates and colour.
    pub fn new(x: u16, y: u16, red: u8, green: u8, blue: u8) -> (r: LaserPoint)
        requires
            x <= 4093,
            y <= 4093,
            red < 32,
            green < 64,
            blue < 32,
        ensures
            r == spec_pack(x, y, red, green, blue),
            r.spec_x() == x,
            r.spec_y() == y,
            r.spec_red() == red,
            r.spec_green() == green,
            r.spec_blue() == blue,
    {
        proof {
            lemma_pack_unpack(x, y, red, green, blue);
        }
        let x_nibble = (x / 256 % 16) as u8;
        let y_nibble = (y / 256 % 16) as u8;
        LaserPoint {
            x_low_byte: (x % 256) as u8,
            y_low_byte: (y % 256) as u8,
            xy_high_nibbles: y_nibble * 16 + x_nibble,
            color: (red as u16) | ((green as u16) << 5u16) | ((blue as u16) << 11u16),
        }
    }

    /// The x coordinate.
    pub fn x(&self) -> (r: u16)
        ensures
            r == self.spec_x(),
    {
        let h = self.xy_high_nibbles;
        let low = self.x_low_byte as u16;
        let high = (h & 0x0f) as u16;
        assert(high << 8u16 <= 0x0f00) by (bit_vector)
            requires
                high == (h & 0x0f) as u16,
        ;
        low + (high << 8u16)
    }

    /// The y coordinate.
    pub fn y(&self) -> (r: u16)
        ensures
            r == self.spec_y(),
    {
        let h = self.xy_high_nibbles;
        let low = self.y_low_byte as u16;
        let high = (h & 0xf0) as u16;
        assert(high << 4u16 <= 0x0f00) by (bit_vector)
            requires
                high == (h & 0xf0) as u16,
        ;
        low + (high << 4u16)
    }

    /// The red component, from 0 to 31.
    pub fn red(&self) -> (r: u8)
        ensures
            r == self.spec_red(),
    {
        (self.color & 0x001f) as u8
    }

    /// The green component, from 0 to 63.
    pub fn green(&self) -> (r: u8)
        ensures
            r == self.spec_green(),
    {
        ((self.color & 0x07e0) >> 5u16) as u8
    }

    /// The blue component, from 0 to 31.
    pub fn blue(&self) -> (r: u8)
        ensures
            r == self.spec_blue(),
    {
        ((self.color & 0xf800) >> 11u16) as u8
    }
}

/// Packing coordinates from 0 to 4093 and a 5/6/5-bit colour into a point, then reading
/// them back, gives the same coordinates and colour.
pub proof fn lemma_pack_unpack(x: u16, y: u16, red: u8, green: u8, blue: u8)
    requires
        x <= 4093,
        y <= 4093,
        red < 32,
        green < 64,
        blue < 32,
    ensures
        spec_pack(x, y, red, green, blue).spec_x() == x,
        spec_pack(x, y, red, green, blue).spec_y() == y,
        spec_pack(x, y, red, green, blue).spec_red() == red,
        spec_pack(x, y, red, green, blue).spec_green() == green,
        spec_pack(x, y, red, green, blue).spec_blue() == blue,
{
    let xl = (x % 256) as u8;
    let yl = (y % 256) as u8;
    let xh = (x / 256 % 16) as u8;
    let yh = (y / 256 % 16) as u8;
    assert(x == x % 256 + (x / 256 % 16) * 256);
    assert(y == y % 256 + (y / 256 % 16) * 256);
    assert(((yh * 16 + xh) as u8 & 0x0f) == xh && ((yh * 16 + xh) as u8 & 0xf0) == yh * 16)
        by (bit_vector)
        requires
            xh < 16,
            yh < 16,
    ;
    assert((xl as u16) + ((xh as u16) << 8u16) == (xl as u16) + (xh as u16) * 256) by (bit_vector)
        requires
            xh < 16,
    ;
    assert((yl as u16) + (((yh * 16) as u8 as u16) << 4u16) == (yl as u16) + (yh as u16) * 256)
        by (bit_vector)
        requires
            yh < 16,
    ;
    let c = (red as u16) | ((green as u16) << 5u16) | ((blue as u16) << 11u16);
    assert((c & 0x001f) as u8 == red && ((c & 0x07e0) >> 5u16) as u8 == green && ((c & 0xf800)
        >> 11u16) as u8 == blue) by (bit_vector)
        requires
            c == (red as u16) | ((green as u16) << 5u16) | ((blue as u16) << 11u16),
            red < 32,
            green < 64,
            blue < 32,
    ;
}

impl SizeBytes for LaserPoint {
    open spec fn spec_fits(m: LaserPoint) -> bool {
        true
    }

    open spec fn spec_bytes(m: LaserPoint) -> Seq<u8> {
        <(u8, (u8, (u8, u16)))>::spec_bytes(
            (m.x_low_byte, (m.y_low_byte, (m.xy_high_nibbles, m.color))),
        )
    }

    fn fits(&self) -> (r: bool) {
        true
    }

    fn size_bytes(&self) -> (r: usize) {
        5
    }
}

impl ConstSizeBytes for LaserPoint {
    const SIZE_BYTES: usize = 5;

    proof fn lemma_const_size(m: LaserPoint) {
    }
}

impl WriteToBytes for LaserPoint {
    fn write_to_bytes(&self, out: &mut Vec<u8>) -> (r: Result<(), CodecError>) {
        let ghost start = out@;
        let _ = self.x_low_byte.write_to_bytes(out);
        let _ = self.y_low_byte.write_to_bytes(out);
        let _ = self.xy_high_nibbles.write_to_bytes(out);
        let _ = self.color.write_to_bytes(out);
        proof {
            assert(out@ =~= start + Self::spec_bytes(self@));
        }
        Ok(())
    }
}

impl ReadFromBytes for LaserPoint {
    open spec fn spec_parse(s: Seq<u8>) -> Option<(LaserPoint, nat)> {
        match <(u8, (u8, (u8, u16)))>::spec_parse(s) {
            Some((t, n)) => Some(
                (
                    LaserPoint {
                        x_low_byte: t.0,
                        y_low_byte: t.1.0,
                        xy_high_nibbles: t.1.1.0,
                        color: t.1.1.1,
                    },
                    n,
                ),
            ),
            None => None,
        }
    }

    proof fn lemma_parse_bytes(m: LaserPoint, rest: Seq<u8>) {
        <(u8, (u8, (u8, u16)))>::lemma_parse_bytes(
            (m.x_low_byte, (m.y_low_byte, (m.xy_high_nibbles, m.color))),
            rest,
        );
    }

    fn read_from_bytes(buf: &[u8], pos: usize) -> (r: Result<(LaserPoint, usize), CodecError>) {
        let (t, end) = <(u8, (u8, (u8, u16)))>::read_from_bytes(buf, pos)?;
        let (x_low_byte, (y_low_byte, (xy_high_nibbles, color))) = t;
        Ok((LaserPoint { x_low_byte, y_low_byte, xy_high_nibbles, color }, end))
    }
}

} // verus!
