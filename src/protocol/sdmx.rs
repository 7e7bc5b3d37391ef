//! SDMX, the DMX transport layer: a single wide universe of at most 65536 channels, or
//! the designation of another DMX source (Art-Net, sACN, ETC Net2, MA-Net) by a connection
//! string.

use crate::protocol::{LayerHeader, Message as LayerMessage};
use crate::text::CString;
use crate::wire::{fits_vec, size_list16, views, write_list16, List16};
use crate::wire::{CodecError, ReadFromBytes, SizeBytes, WriteToBytes};
use vstd::prelude::*;

verus! {

/// "SDMX", the tag of this layer in the base header.
pub const LAYER_TAG: u32 = 0x584d4453;

/// The secondary header of SDMX messages.
pub type Header = LayerHeader;

/// A SDMX message: the headers and the payload.
pub type Message<T> = LayerMessage<LayerHeader, T>;

/// SDMX/Capa, the capabilities message: sent on connection to tell the remote peer what
/// this one supports.
#[derive(Clone, Debug, PartialEq, Eq)]
pub struct Capa {
    /// The capabilities, among the `Capa` constants.
    pub capabilities: Vec<u16>,
}

/// The model of a `Capa`.
pub ghost struct CapaView {
    pub capabilities: Seq<u16>,
}

impl CapaView {
    /// The fields in the order in which they are written.
    pub open spec fn fields(self) -> Seq<u16> {
        self.capabilities
    }

    /// The model whose fields, in the order in which they are written, are `t`.
    pub open spec fn from_fields(t: Seq<u16>) -> CapaView {
        CapaView {
            capabilities: t,
        }
    }
}

impl View for Capa {
    type V = CapaView;

    open spec fn view(&self) -> CapaView {
        CapaView {
            capabilities: views(self.capabilities@),
        }
    }
}

impl Capa {
    /// "Capa".
    pub const CONTENT_TYPE: u32 = 0x61706143;

    /// ChLs channel lists.
    pub const CHANNEL_LIST: u16 = 1;

    /// SXSr external source.
    pub const EXTERNAL_SOURCE: u16 = 2;

    /// SXUS per-universe external sources.
    pub const PER_UNIVERSE_EXTERNAL_SOURCES: u16 = 3;

    /// Art-Net external sources.
    pub const ART_NET_EXTERNAL_SOURCES: u16 = 101;

    /// BSR E1.31 external sources.
    pub const BSR_E131_EXTERNAL_SOURCES: u16 = 102;

    /// ETC Net2 external sources.
    pub const ETC_NET2_EXTERNAL_SOURCES: u16 = 103;

    /// MA-Net external sources.
    pub const MA_NET_EXTERNAL_SOURCES: u16 = 104;
}

impl SizeBytes for Capa {
    open spec fn spec_fits(m: CapaView) -> bool {
        <List16<u16>>::spec_fits(m.fields())
    }

    open spec fn spec_bytes(m: CapaView) -> Seq<u8> {
        <List16<u16>>::spec_bytes(m.fields())
    }

    fn fits(&self) -> (r: bool) {
        self.capabilities.len() <= 0xffff && fits_vec(&self.capabilities)
    }

    fn size_bytes(&self) -> (r: usize) {
        size_list16(&self.capabilities)
    }
}

impl WriteToBytes for Capa {
    fn write_to_bytes(&self, out: &mut Vec<u8>) -> (r: Result<(), CodecError>) {
        if !self.fits() {
            return Err(CodecError::Oversize);
        }
        let ghost start = out@;
        let _ = write_list16(&self.capabilities, out);
        proof {
            assert(out@ =~= start + Self::spec_bytes(self@));
        }
        Ok(())
    }
}

impl ReadFromBytes for Capa {
    open spec fn spec_parse(s: Seq<u8>) -> Option<(CapaView, nat)> {
        match <List16<u16>>::spec_parse(s) {
            Some((t, n)) => Some((CapaView::from_fields(t), n)),
            None => None,
        }
    }

    proof fn lemma_parse_bytes(m: CapaView, rest: Seq<u8>) {
        <List16<u16>>::lemma_parse_bytes(m.fields(), rest);
    }

    fn read_from_bytes(buf: &[u8], pos: usize) -> (r: Result<(Capa, usize), CodecError>) {
        let (t, end) = <List16<u16>>::read_from_bytes(buf, pos)?;
        let capabilities = t;
        Ok((Capa { capabilities: capabilities.items }, end))
    }
}

/// SDMX/UNam, the universe name message: a displayable name for a universe.
#[derive(Clone, Debug, PartialEq, Eq)]
pub struct UNam {
    /// The index of the universe, from 0.
    pub universe_index: u8,
    /// The name of the universe.
    pub universe_name: CString,
}

/// The model of a `UNam`.
pub ghost struct UNamView {
    pub universe_index: u8,
    pub universe_name: Seq<u8>,
}

impl UNamView {
    /// The fields in the order in which they are written.
    pub open spec fn fields(self) -> (u8, Seq<u8>) {
        (self.universe_index, self.universe_name)
    }

    /// The model whose fields, in the order in which they are written, are `t`.
    pub open spec fn from_fields(t: (u8, Seq<u8>)) -> UNamView {
        UNamView {
            universe_index: t.0,
            universe_name: t.1,
        }
    }
}

impl View for UNam {
    type V = UNamView;

    open spec fn view(&self) -> UNamView {
        UNamView {
            universe_index: self.universe_index,
            universe_name: self.universe_name@,
        }
    }
}

impl UNam {
    /// "UNam".
    pub const CONTENT_TYPE: u32 = 0x6d614e55;
}

impl SizeBytes for UNam {
    open spec fn spec_fits(m: UNamView) -> bool {
        <(u8, CString)>::spec_fits(m.fields())
    }

    open spec fn spec_bytes(m: UNamView) -> Seq<u8> {
        <(u8, CString)>::spec_bytes(m.fields())
    }

    fn fits(&self) -> (r: bool) {
        self.universe_name.fits()
    }

    fn size_bytes(&self) -> (r: usize) {
        1 + self.universe_name.size_bytes()
    }
}

impl WriteToBytes for UNam {
    fn write_to_bytes(&self, out: &mut Vec<u8>) -> (r: Result<(), CodecError>) {
        if !self.fits() {
            return Err(CodecError::Oversize);
        }
        let ghost start = out@;
        let _ = self.universe_index.write_to_bytes(out);
        let _ = self.universe_name.write_to_bytes(out);
        proof {
            assert(out@ =~= start + Self::spec_bytes(self@));
        }
        Ok(())
    }
}

impl ReadFromBytes for UNam {
    open spec fn spec_parse(s: Seq<u8>) -> Option<(UNamView, nat)> {
        match <(u8, CString)>::spec_parse(s) {
            Some((t, n)) => Some((UNamView::from_fields(t), n)),
            None => None,
        }
    }

    proof fn lemma_parse_bytes(m: UNamView, rest: Seq<u8>) {
        <(u8, CString)>::lemma_parse_bytes(m.fields(), rest);
    }

    fn read_from_bytes(buf: &[u8], pos: usize) -> (r: Result<(UNam, usize), CodecError>) {
        let (t, end) = <(u8, CString)>::read_from_bytes(buf, pos)?;
        let (universe_index, universe_name) = t;
        Ok((UNam { universe_index, universe_name }, end))
    }
}

/// SDMX/EnId, the encryption identifier message: names the scheme with which DMX channels
/// are encrypted, as agreed between the peers beforehand.
#[derive(Clone, Debug, PartialEq, Eq)]
pub struct EnId {
    /// The identifier of the encryption scheme.
    pub identifier: CString,
}

/// The model of a `EnId`.
pub ghost struct EnIdView {
    pub identifier: Seq<u8>,
}

impl EnIdView {
    /// The fields in the order in which they are written.
    pub open spec fn fields(self) -> Seq<u8> {
        self.identifier
    }

    /// The model whose fields, in the order in which they are written, are `t`.
    pub open spec fn from_fields(t: Seq<u8>) -> EnIdView {
        EnIdView {
            identifier: t,
        }
    }
}

impl View for EnId {
    type V = EnIdView;

    open spec fn view(&self) -> EnIdView {
        EnIdView {
            identifier: self.identifier@,
        }
    }
}

impl EnId {
    /// "EnId".
    pub const CONTENT_TYPE: u32 = 0x64496e45;
}

impl SizeBytes for EnId {
    open spec fn spec_fits(m: EnIdView) -> bool {
        <CString>::spec_fits(m.fields())
    }

    open spec fn spec_bytes(m: EnIdView) -> Seq<u8> {
        <CString>::spec_bytes(m.fields())
    }

    fn fits(&self) -> (r: bool) {
        self.identifier.fits()
    }

    fn size_bytes(&self) -> (r: usize) {
        self.identifier.size_bytes()
    }
}

impl WriteToBytes for EnId {
    fn write_to_bytes(&self, out: &mut Vec<u8>) -> (r: Result<(), CodecError>) {
        if !self.fits() {
            return Err(CodecError::Oversize);
        }
        let ghost start = out@;
        let _ = self.identifier.write_to_bytes(out);
        proof {
            assert(out@ =~= start + Self::spec_bytes(self@));
        }
        Ok(())
    }
}

impl ReadFromBytes for EnId {
    open spec fn spec_parse(s: Seq<u8>) -> Option<(EnIdView, nat)> {
        match <CString>::spec_parse(s) {
            Some((t, n)) => Some((EnIdView::from_fields(t), n)),
            None => None,
        }
    }

    proof fn lemma_parse_bytes(m: EnIdView, rest: Seq<u8>) {
        <CString>::lemma_parse_bytes(m.fields(), rest);
    }

    fn read_from_bytes(buf: &[u8], pos: usize) -> (r: Result<(EnId, usize), CodecError>) {
        let (t, end) = <CString>::read_from_bytes(buf, pos)?;
        let identifier = t;
        Ok((EnId { identifier }, end))
    }
}

/// SDMX/ChBk, the channel block message: raw DMX levels of consecutive channels.
#[derive(Clone, Debug, PartialEq, Eq)]
pub struct ChBk {
    /// 1 for blind preview DMX, 0 otherwise.
    pub blind: u8,
    /// The index of the universe, from 0.
    pub universe_index: u8,
    /// The index of the first channel in the universe, from 0.
    pub first_channel: u16,
    /// The raw channel levels.
    pub channel_levels: Vec<u8>,
}

/// The model of a `ChBk`.
pub ghost struct ChBkView {
    pub blind: u8,
    pub universe_index: u8,
    pub first_channel: u16,
    pub channel_levels: Seq<u8>,
}

impl ChBkView {
    /// The fields in the order in which they are written.
    pub open spec fn fields(self) -> (u8, (u8, (u16, Seq<u8>))) {
        (self.blind, (self.universe_index, (self.first_channel, self.channel_levels)))
    }

    /// The model whose fields, in the order in which they are written, are `t`.
    pub open spec fn from_fields(t: (u8, (u8, (u16, Seq<u8>)))) -> ChBkView {
        ChBkView {
            blind: t.0,
            universe_index: t.1.0,
            first_channel: t.1.1.0,
            channel_levels: t.1.1.1,
        }
    }
}

impl View for ChBk {
    type V = ChBkView;

    open spec fn view(&self) -> ChBkView {
        ChBkView {
            blind: self.blind,
            universe_index: self.universe_index,
            first_channel: self.first_channel,
            channel_levels: views(self.channel_levels@),
        }
    }
}

impl ChBk {
    /// "ChBk".
    pub const CONTENT_TYPE: u32 = 0x6b426843;
}

impl SizeBytes for ChBk {
    open spec fn spec_fits(m: ChBkView) -> bool {
        <(u8, (u8, (u16, List16<u8>)))>::spec_fits(m.fields())
    }

    open spec fn spec_bytes(m: ChBkView) -> Seq<u8> {
        <(u8, (u8, (u16, List16<u8>)))>::spec_bytes(m.fields())
    }

    fn fits(&self) -> (r: bool) {
        self.channel_levels.len() <= 0xffff && fits_vec(&self.channel_levels)
    }

    fn size_bytes(&self) -> (r: usize) {
        1 + 1 + 2 + size_list16(&self.channel_levels)
    }
}

impl WriteToBytes for ChBk {
    fn write_to_bytes(&self, out: &mut Vec<u8>) -> (r: Result<(), CodecError>) {
        if !self.fits() {
            return Err(CodecError::Oversize);
        }
        let ghost start = out@;
        let _ = self.blind.write_to_bytes(out);
        let _ = self.universe_index.write_to_bytes(out);
        let _ = self.first_channel.write_to_bytes(out);
        let _ = write_list16(&self.channel_levels, out);
        proof {
            assert(out@ =~= start + Self::spec_bytes(self@));
        }
        Ok(())
    }
}

impl ReadFromBytes for ChBk {
    open spec fn spec_parse(s: Seq<u8>) -> Option<(ChBkView, nat)> {
        match <(u8, (u8, (u16, List16<u8>)))>::spec_parse(s) {
            Some((t, n)) => Some((ChBkView::from_fields(t), n)),
            None => None,
        }
    }

    proof fn lemma_parse_bytes(m: ChBkView, rest: Seq<u8>) {
        <(u8, (u8, (u16, List16<u8>)))>::lemma_parse_bytes(m.fields(), rest);
    }

    fn read_from_bytes(buf: &[u8], pos: usize) -> (r: Result<(ChBk, usize), CodecError>) {
        let (t, end) = <(u8, (u8, (u16, List16<u8>)))>::read_from_bytes(buf, pos)?;
        let (blind, (universe_index, (first_channel, channel_levels))) = t;
        Ok((ChBk { blind, universe_index, first_channel, channel_levels: channel_levels.items }, end))
    }
}

/// One channel level of a ChLs message.
#[derive(Clone, Copy, Debug, PartialEq, Eq)]
pub struct ChannelLevel {
    /// The index of the universe, from 0.
    pub universe_index: u8,
    /// The index of the channel in the universe, from 0.
    pub channel: u16,
    /// The DMX level.
    pub channel_level: u8,
}

/// The model of a `ChannelLevel`.
pub ghost struct ChannelLevelView {
    pub universe_index: u8,
    pub channel: u16,
    pub channel_level: u8,
}

impl ChannelLevelView {
    /// The fields in the order in which they are written.
    pub open spec fn fields(self) -> (u8, (u16, u8)) {
        (self.universe_index, (self.channel, self.channel_level))
    }

    /// The model whose fields, in the order in which they are written, are `t`.
    pub open spec fn from_fields(t: (u8, (u16, u8))) -> ChannelLevelView {
        ChannelLevelView {
            universe_index: t.0,
            channel: t.1.0,
            channel_level: t.1.1,
        }
    }
}

impl View for ChannelLevel {
    type V = ChannelLevelView;

    open spec fn view(&self) -> ChannelLevelView {
        ChannelLevelView {
            universe_index: self.universe_index,
            channel: self.channel,
            channel_level: self.channel_level,
        }
    }
}

impl SizeBytes for ChannelLevel {
    open spec fn spec_fits(m: ChannelLevelView) -> bool {
        <(u8, (u16, u8))>::spec_fits(m.fields())
    }

    open spec fn spec_bytes(m: ChannelLevelView) -> Seq<u8> {
        <(u8, (u16, u8))>::spec_bytes(m.fields())
    }

    fn fits(&self) -> (r: bool) {
        true
    }

    fn size_bytes(&self) -> (r: usize) {
        1 + 2 + 1
    }
}

impl WriteToBytes for ChannelLevel {
    fn write_to_bytes(&self, out: &mut Vec<u8>) -> (r: Result<(), CodecError>) {
        if !self.fits() {
            return Err(CodecError::Oversize);
        }
        let ghost start = out@;
        let _ = self.universe_index.write_to_bytes(out);
        let _ = self.channel.write_to_bytes(out);
        let _ = self.channel_level.write_to_bytes(out);
        proof {
            assert(out@ =~= start + Self::spec_bytes(self@));
        }
        Ok(())
    }
}

impl ReadFromBytes for ChannelLevel {
    open spec fn spec_parse(s: Seq<u8>) -> Option<(ChannelLevelView, nat)> {
        match <(u8, (u16, u8))>::spec_parse(s) {
            Some((t, n)) => Some((ChannelLevelView::from_fields(t), n)),
            None => None,
        }
    }

    proof fn lemma_parse_bytes(m: ChannelLevelView, rest: Seq<u8>) {
        <(u8, (u16, u8))>::lemma_parse_bytes(m.fields(), rest);
    }

    fn read_from_bytes(buf: &[u8], pos: usize) -> (r: Result<(ChannelLevel, usize), CodecError>) {
        let (t, end) = <(u8, (u16, u8))>::read_from_bytes(buf, pos)?;
        let (universe_index, (channel, channel_level)) = t;
        Ok((ChannelLevel { universe_index, channel, channel_level }, end))
    }
}

/// SDMX/ChLs, the channel list message: levels of channels that need not be consecutive.
/// Sent only to a peer that announced the capability.
#[derive(Clone, Debug, PartialEq, Eq)]
pub struct ChLs {
    /// The channel levels.
    pub channel_levels: Vec<ChannelLevel>,
}

/// The model of a `ChLs`.
pub ghost struct ChLsView {
    pub channel_levels: Seq<ChannelLevelView>,
}

impl ChLsView {
    /// The fields in the order in which they are written.
    pub open spec fn fields(self) -> Seq<ChannelLevelView> {
        self.channel_levels
    }

    /// The model whose fields, in the order in which they are written, are `t`.
    pub open spec fn from_fields(t: Seq<ChannelLevelView>) -> ChLsView {
        ChLsView {
            channel_levels: t,
        }
    }
}

impl View for ChLs {
    type V = ChLsView;

    open spec fn view(&self) -> ChLsView {
        ChLsView {
            channel_levels: views(self.channel_levels@),
        }
    }
}

impl ChLs {
    /// "ChLs".
    pub const CONTENT_TYPE: u32 = 0x734c6843;
}

impl SizeBytes for ChLs {
    open spec fn spec_fits(m: ChLsView) -> bool {
        <List16<ChannelLevel>>::spec_fits(m.fields())
    }

    open spec fn spec_bytes(m: ChLsView) -> Seq<u8> {
        <List16<ChannelLevel>>::spec_bytes(m.fields())
    }

    fn fits(&self) -> (r: bool) {
        self.channel_levels.len() <= 0xffff && fits_vec(&self.channel_levels)
    }

    fn size_bytes(&self) -> (r: usize) {
        size_list16(&self.channel_levels)
    }
}

impl WriteToBytes for ChLs {
    fn write_to_bytes(&self, out: &mut Vec<u8>) -> (r: Result<(), CodecError>) {
        if !self.fits() {
            return Err(CodecError::Oversize);
        }
        let ghost start = out@;
        let _ = write_list16(&self.channel_levels, out);
        proof {
            assert(out@ =~= start + Self::spec_bytes(self@));
        }
        Ok(())
    }
}

impl ReadFromBytes for ChLs {
    open spec fn spec_parse(s: Seq<u8>) -> Option<(ChLsView, nat)> {
        match <List16<ChannelLevel>>::spec_parse(s) {
            Some((t, n)) => Some((ChLsView::from_fields(t), n)),
            None => None,
        }
    }

    proof fn lemma_parse_bytes(m: ChLsView, rest: Seq<u8>) {
        <List16<ChannelLevel>>::lemma_parse_bytes(m.fields(), rest);
    }

    fn read_from_bytes(buf: &[u8], pos: usize) -> (r: Result<(ChLs, usize), CodecError>) {
        let (t, end) = <List16<ChannelLevel>>::read_from_bytes(buf, pos)?;
        let channel_levels = t;
        Ok((ChLs { channel_levels: channel_levels.items }, end))
    }
}

/// SDMX/SXSr, the set external source message: DMX is to be taken from another protocol,
/// starting at the given source for a run of consecutive universes.
#[derive(Clone, Debug, PartialEq, Eq)]
pub struct SXSr {
    /// The DMX source, such as "ArtNet/0/0/1", "BSRE1.31/1/1", "EtcNet2/1" or
    /// "MANet/2/0/1".
    pub connection_string: CString,
}

/// The model of a `SXSr`.
pub ghost struct SXSrView {
    pub connection_string: Seq<u8>,
}

impl SXSrView {
    /// The fields in the order in which they are written.
    pub open spec fn fields(self) -> Seq<u8> {
        self.connection_string
    }

    /// The model whose fields, in the order in which they are written, are `t`.
    pub open spec fn from_fields(t: Seq<u8>) -> SXSrView {
        SXSrView {
            connection_string: t,
        }
    }
}

impl View for SXSr {
    type V = SXSrView;

    open spec fn view(&self) -> SXSrView {
        SXSrView {
            connection_string: self.connection_string@,
        }
    }
}

impl SXSr {
    /// "SXSr".
    pub const CONTENT_TYPE: u32 = 0x72535853;
}

impl SizeBytes for SXSr {
    open spec fn spec_fits(m: SXSrView) -> bool {
        <CString>::spec_fits(m.fields())
    }

    open spec fn spec_bytes(m: SXSrView) -> Seq<u8> {
        <CString>::spec_bytes(m.fields())
    }

    fn fits(&self) -> (r: bool) {
        self.connection_string.fits()
    }

    fn size_bytes(&self) -> (r: usize) {
        self.connection_string.size_bytes()
    }
}

impl WriteToBytes for SXSr {
    fn write_to_bytes(&self, out: &mut Vec<u8>) -> (r: Result<(), CodecError>) {
        if !self.fits() {
            return Err(CodecError::Oversize);
        }
        let ghost start = out@;
        let _ = self.connection_string.write_to_bytes(out);
        proof {
            assert(out@ =~= start + Self::spec_bytes(self@));
        }
        Ok(())
    }
}

impl ReadFromBytes for SXSr {
    open spec fn spec_parse(s: Seq<u8>) -> Option<(SXSrView, nat)> {
        match <CString>::spec_parse(s) {
            Some((t, n)) => Some((SXSrView::from_fields(t), n)),
            None => None,
        }
    }

    proof fn lemma_parse_bytes(m: SXSrView, rest: Seq<u8>) {
        <CString>::lemma_parse_bytes(m.fields(), rest);
    }

    fn read_from_bytes(buf: &[u8], pos: usize) -> (r: Result<(SXSr, usize), CodecError>) {
        let (t, end) = <CString>::read_from_bytes(buf, pos)?;
        let connection_string = t;
        Ok((SXSr { connection_string }, end))
    }
}

/// SDMX/SXUS, the set external universe source message: SXSr for one universe.
#[derive(Clone, Debug, PartialEq, Eq)]
pub struct Sxus {
    /// The index of the universe, from 0.
    pub universe_index: u8,
    /// The DMX source, as in SXSr.
    pub connection_string: CString,
}

/// The model of a `Sxus`.
pub ghost struct SxusView {
    pub universe_index: u8,
    pub connection_string: Seq<u8>,
}

impl SxusView {
    /// The fields in the order in which they are written.
    pub open spec fn fields(self) -> (u8, Seq<u8>) {
        (self.universe_index, self.connection_string)
    }

    /// The model whose fields, in the order in which they are written, are `t`.
    pub open spec fn from_fields(t: (u8, Seq<u8>)) -> SxusView {
        SxusView {
            universe_index: t.0,
            connection_string: t.1,
        }
    }
}

impl View for Sxus {
    type V = SxusView;

    open spec fn view(&self) -> SxusView {
        SxusView {
            universe_index: self.universe_index,
            connection_string: self.connection_string@,
        }
    }
}

impl Sxus {
    /// "SXUS".
    pub const CONTENT_TYPE: u32 = 0x53555853;
}

impl SizeBytes for Sxus {
    open spec fn spec_fits(m: SxusView) -> bool {
        <(u8, CString)>::spec_fits(m.fields())
    }

    open spec fn spec_bytes(m: SxusView) -> Seq<u8> {
        <(u8, CString)>::spec_bytes(m.fields())
    }

    fn fits(&self) -> (r: bool) {
        self.connection_string.fits()
    }

    fn size_bytes(&self) -> (r: usize) {
        1 + self.connection_string.size_bytes()
    }
}

impl WriteToBytes for Sxus {
    fn write_to_bytes(&self, out: &mut Vec<u8>) -> (r: Result<(), CodecError>) {
        if !self.fits() {
            return Err(CodecError::Oversize);
        }
        let ghost start = out@;
        let _ = self.universe_index.write_to_bytes(out);
        let _ = self.connection_string.write_to_bytes(out);
        proof {
            assert(out@ =~= start + Self::spec_bytes(self@));
        }
        Ok(())
    }
}

impl ReadFromBytes for Sxus {
    open spec fn spec_parse(s: Seq<u8>) -> Option<(SxusView, nat)> {
        match <(u8, CString)>::spec_parse(s) {
            Some((t, n)) => Some((SxusView::from_fields(t), n)),
            None => None,
        }
    }

    proof fn lemma_parse_bytes(m: SxusView, rest: Seq<u8>) {
        <(u8, CString)>::lemma_parse_bytes(m.fields(), rest);
    }

    fn read_from_bytes(buf: &[u8], pos: usize) -> (r: Result<(Sxus, usize), CodecError>) {
        let (t, end) = <(u8, CString)>::read_from_bytes(buf, pos)?;
        let (universe_index, connection_string) = t;
        Ok((Sxus { universe_index, connection_string }, end))
    }
}

} // verus!
