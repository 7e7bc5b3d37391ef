//! The content-type dispatcher: from the bytes of one message to its headers and its
//! decoded payload, chosen by the layer tag of the base header and the message tag of the
//! secondary header. Unknown tags are not an error: they give `Payload::Unknown`, and the
//! message can be skipped by its declared size.

use crate::protocol::{caex, finf, fptc, fsel, msex, pinf, sdmx, Header, HEADER_LEN};
use crate::wire::{read_le32, u32_at, CodecError, ReadFromBytes};
use vstd::prelude::*;

verus! {

/// The payload of a message, by layer and message tag.
#[derive(Debug)]
pub enum Payload {
    PNam(pinf::PNam),
    PLoc(pinf::PLoc),
    Capa(sdmx::Capa),
    UNam(sdmx::UNam),
    EnId(sdmx::EnId),
    ChBk(sdmx::ChBk),
    ChLs(sdmx::ChLs),
    SXSr(sdmx::SXSr),
    Sxus(sdmx::Sxus),
    Ptch(fptc::Ptch),
    UPtc(fptc::UPtc),
    SPtc(fptc::SPtc),
    Sele(fsel::Sele),
    DeSe(fsel::DeSe),
    SFra(finf::SFra),
    Fram(finf::Fram),
    Nack(caex::Nack),
    EnterShow(caex::EnterShow),
    LeaveShow(caex::LeaveShow),
    FixtureListRequest(caex::FixtureListRequest),
    FixtureList(caex::FixtureList),
    FixtureRemove(caex::FixtureRemove),
    FixtureConsoleStatus(caex::FixtureConsoleStatus),
    GetLaserFeedList(caex::GetLaserFeedList),
    LaserFeedList(caex::LaserFeedList),
    LaserFeedControl(caex::LaserFeedControl),
    LaserFeedFrame(caex::LaserFeedFrame),
    /// A layer or message tag that this library does not decode.
    Unknown,
}

/// A decoded message.
#[derive(Debug)]
pub struct Frame {
    /// The base header.
    pub header: Header,
    /// The message tag of the secondary header.
    pub content_type: u32,
    /// The content hint of an FPTC message; 0 in other layers.
    pub content_hint: u32,
    /// The payload.
    pub payload: Payload,
}

/// The number of bytes of the secondary header of a layer, after the base header.
pub open spec fn secondary_len(layer: u32) -> int {
    if layer == fptc::LAYER_TAG {
        8
    } else if layer == msex::LAYER_TAG {
        6
    } else {
        4
    }
}

/// Where the message tag stands in a message of layer `layer`.
pub open spec fn tag_offset(layer: u32) -> int {
    if layer == msex::LAYER_TAG {
        22
    } else {
        20
    }
}

/// Whether `T` reads the model `m` at the front of `body`.
pub open spec fn parses_as<T: ReadFromBytes>(body: Seq<u8>, m: T::V) -> bool {
    T::spec_parse(body) is Some && T::spec_parse(body).unwrap().0 == m
}

/// Whether this library decodes messages with these tags.
pub open spec fn known(layer: u32, tag: u32) -> bool {
    (layer == pinf::LAYER_TAG && (tag == pinf::PNam::CONTENT_TYPE
        || tag == pinf::PLoc::CONTENT_TYPE))
    || (layer == sdmx::LAYER_TAG && (tag == sdmx::Capa::CONTENT_TYPE
        || tag == sdmx::UNam::CONTENT_TYPE
        || tag == sdmx::EnId::CONTENT_TYPE
        || tag == sdmx::ChBk::CONTENT_TYPE
        || tag == sdmx::ChLs::CONTENT_TYPE
        || tag == sdmx::SXSr::CONTENT_TYPE
        || tag == sdmx::Sxus::CONTENT_TYPE))
    || (layer == fptc::LAYER_TAG && (tag == fptc::Ptch::CONTENT_TYPE
        || tag == fptc::UPtc::CONTENT_TYPE
        || tag == fptc::SPtc::CONTENT_TYPE))
    || (layer == fsel::LAYER_TAG && (tag == fsel::Sele::CONTENT_TYPE
        || tag == fsel::DeSe::CONTENT_TYPE))
    || (layer == finf::LAYER_TAG && (tag == finf::SFra::CONTENT_TYPE
        || tag == finf::Fram::CONTENT_TYPE))
    || (layer == caex::LAYER_TAG && (tag == caex::Nack::CONTENT_TYPE
        || tag == caex::EnterShow::CONTENT_TYPE
        || tag == caex::LeaveShow::CONTENT_TYPE
        || tag == caex::FixtureListRequest::CONTENT_TYPE
        || tag == caex::FixtureList::CONTENT_TYPE
        || tag == caex::FixtureRemove::CONTENT_TYPE
        || tag == caex::FixtureConsoleStatus::CONTENT_TYPE
        || tag == caex::GetLaserFeedList::CONTENT_TYPE
        || tag == caex::LaserFeedList::CONTENT_TYPE
        || tag == caex::LaserFeedControl::CONTENT_TYPE
        || tag == caex::LaserFeedFrame::CONTENT_TYPE))
}

/// Whether the payload of a message with these tags can be read from `body`; true for tags
/// that this library does not decode.
pub open spec fn body_parses(layer: u32, tag: u32, body: Seq<u8>) -> bool {
    if layer == pinf::LAYER_TAG {
        if tag == pinf::PNam::CONTENT_TYPE {
            pinf::PNam::spec_parse(body) is Some
        } else if tag == pinf::PLoc::CONTENT_TYPE {
            pinf::PLoc::spec_parse(body) is Some
        } else {
            true
        }
    } else if layer == sdmx::LAYER_TAG {
        if tag == sdmx::Capa::CONTENT_TYPE {
            sdmx::Capa::spec_parse(body) is Some
        } else if tag == sdmx::UNam::CONTENT_TYPE {
            sdmx::UNam::spec_parse(body) is Some
        } else if tag == sdmx::EnId::CONTENT_TYPE {
            sdmx::EnId::spec_parse(body) is Some
        } else if tag == sdmx::ChBk::CONTENT_TYPE {
            sdmx::ChBk::spec_parse(body) is Some
        } else if tag == sdmx::ChLs::CONTENT_TYPE {
            sdmx::ChLs::spec_parse(body) is Some
        } else if tag == sdmx::SXSr::CONTENT_TYPE {
            sdmx::SXSr::spec_parse(body) is Some
        } else if tag == sdmx::Sxus::CONTENT_TYPE {
            sdmx::Sxus::spec_parse(body) is Some
        } else {
            true
        }
    } else if layer == fptc::LAYER_TAG {
        if tag == fptc::Ptch::CONTENT_TYPE {
            fptc::Ptch::spec_parse(body) is Some
        } else if tag == fptc::UPtc::CONTENT_TYPE {
            fptc::UPtc::spec_parse(body) is Some
        } else if tag == fptc::SPtc::CONTENT_TYPE {
            fptc::SPtc::spec_parse(body) is Some
        } else {
            true
        }
    } else if layer == fsel::LAYER_TAG {
        if tag == fsel::Sele::CONTENT_TYPE {
            fsel::Sele::spec_parse(body) is Some
        } else if tag == fsel::DeSe::CONTENT_TYPE {
            fsel::DeSe::spec_parse(body) is Some
        } else {
            true
        }
    } else if layer == finf::LAYER_TAG {
        if tag == finf::SFra::CONTENT_TYPE {
            finf::SFra::spec_parse(body) is Some
        } else if tag == finf::Fram::CONTENT_TYPE {
            finf::Fram::spec_parse(body) is Some
        } else {
            true
        }
    } else if layer == caex::LAYER_TAG {
        if tag == caex::Nack::CONTENT_TYPE {
            caex::Nack::spec_parse(body) is Some
        } else if tag == caex::EnterShow::CONTENT_TYPE {
            caex::EnterShow::spec_parse(body) is Some
        } else if tag == caex::LeaveShow::CONTENT_TYPE {
            caex::LeaveShow::spec_parse(body) is Some
        } else if tag == caex::FixtureListRequest::CONTENT_TYPE {
            caex::FixtureListRequest::spec_parse(body) is Some
        } else if tag == caex::FixtureList::CONTENT_TYPE {
            caex::FixtureList::spec_parse(body) is Some
        } else if tag == caex::FixtureRemove::CONTENT_TYPE {
            caex::FixtureRemove::spec_parse(body) is Some
        } else if tag == caex::FixtureConsoleStatus::CONTENT_TYPE {
            caex::FixtureConsoleStatus::spec_parse(body) is Some
        } else if tag == caex::GetLaserFeedList::CONTENT_TYPE {
            caex::GetLaserFeedList::spec_parse(body) is Some
        } else if tag == caex::LaserFeedList::CONTENT_TYPE {
            caex::LaserFeedList::spec_parse(body) is Some
        } else if tag == caex::LaserFeedControl::CONTENT_TYPE {
            caex::LaserFeedControl::spec_parse(body) is Some
        } else if tag == caex::LaserFeedFrame::CONTENT_TYPE {
            caex::LaserFeedFrame::spec_parse(body) is Some
        } else {
            true
        }
    } else {
        true
    }
}

/// Whether `p` is the payload read from `body` for a message with these tags.
pub open spec fn payload_matches(layer: u32, tag: u32, body: Seq<u8>, p: Payload) -> bool {
    match p {
        Payload::PNam(v) => layer == pinf::LAYER_TAG && tag == pinf::PNam::CONTENT_TYPE
            && parses_as::<pinf::PNam>(body, v@),
        Payload::PLoc(v) => layer == pinf::LAYER_TAG && tag == pinf::PLoc::CONTENT_TYPE
            && parses_as::<pinf::PLoc>(body, v@),
        Payload::Capa(v) => layer == sdmx::LAYER_TAG && tag == sdmx::Capa::CONTENT_TYPE
            && parses_as::<sdmx::Capa>(body, v@),
        Payload::UNam(v) => layer == sdmx::LAYER_TAG && tag == sdmx::UNam::CONTENT_TYPE
            && parses_as::<sdmx::UNam>(body, v@),
        Payload::EnId(v) => layer == sdmx::LAYER_TAG && tag == sdmx::EnId::CONTENT_TYPE
            && parses_as::<sdmx::EnId>(body, v@),
        Payload::ChBk(v) => layer == sdmx::LAYER_TAG && tag == sdmx::ChBk::CONTENT_TYPE
            && parses_as::<sdmx::ChBk>(body, v@),
        Payload::ChLs(v) => layer == sdmx::LAYER_TAG && tag == sdmx::ChLs::CONTENT_TYPE
            && parses_as::<sdmx::ChLs>(body, v@),
        Payload::SXSr(v) => layer == sdmx::LAYER_TAG && tag == sdmx::SXSr::CONTENT_TYPE
            && parses_as::<sdmx::SXSr>(body, v@),
        Payload::Sxus(v) => layer == sdmx::LAYER_TAG && tag == sdmx::Sxus::CONTENT_TYPE
            && parses_as::<sdmx::Sxus>(body, v@),
        Payload::Ptch(v) => layer == fptc::LAYER_TAG && tag == fptc::Ptch::CONTENT_TYPE
            && parses_as::<fptc::Ptch>(body, v@),
        Payload::UPtc(v) => layer == fptc::LAYER_TAG && tag == fptc::UPtc::CONTENT_TYPE
            && parses_as::<fptc::UPtc>(body, v@),
        Payload::SPtc(v) => layer == fptc::LAYER_TAG && tag == fptc::SPtc::CONTENT_TYPE
            && parses_as::<fptc::SPtc>(body, v@),
        Payload::Sele(v) => layer == fsel::LAYER_TAG && tag == fsel::Sele::CONTENT_TYPE
            && parses_as::<fsel::Sele>(body, v@),
        Payload::DeSe(v) => layer == fsel::LAYER_TAG && tag == fsel::DeSe::CONTENT_TYPE
            && parses_as::<fsel::DeSe>(body, v@),
        Payload::SFra(v) => layer == finf::LAYER_TAG && tag == finf::SFra::CONTENT_TYPE
            && parses_as::<finf::SFra>(body, v@),
        Payload::Fram(v) => layer == finf::LAYER_TAG && tag == finf::Fram::CONTENT_TYPE
            && parses_as::<finf::Fram>(body, v@),
        Payload::Nack(v) => layer == caex::LAYER_TAG && tag == caex::Nack::CONTENT_TYPE
            && parses_as::<caex::Nack>(body, v@),
        Payload::EnterShow(v) => layer == caex::LAYER_TAG && tag == caex::EnterShow::CONTENT_TYPE
            && parses_as::<caex::EnterShow>(body, v@),
        Payload::LeaveShow(v) => layer == caex::LAYER_TAG && tag == caex::LeaveShow::CONTENT_TYPE
            && parses_as::<caex::LeaveShow>(body, v@),
        Payload::FixtureListRequest(v) => layer == caex::LAYER_TAG && tag == caex::FixtureListRequest::CONTENT_TYPE
            && parses_as::<caex::FixtureListRequest>(body, v@),
        Payload::FixtureList(v) => layer == caex::LAYER_TAG && tag == caex::FixtureList::CONTENT_TYPE
            && parses_as::<caex::FixtureList>(body, v@),
        Payload::FixtureRemove(v) => layer == caex::LAYER_TAG && tag == caex::FixtureRemove::CONTENT_TYPE
            && parses_as::<caex::FixtureRemove>(body, v@),
        Payload::FixtureConsoleStatus(v) => layer == caex::LAYER_TAG && tag == caex::FixtureConsoleStatus::CONTENT_TYPE
            && parses_as::<caex::FixtureConsoleStatus>(body, v@),
        Payload::GetLaserFeedList(v) => layer == caex::LAYER_TAG && tag == caex::GetLaserFeedList::CONTENT_TYPE
            && parses_as::<caex::GetLaserFeedList>(body, v@),
        Payload::LaserFeedList(v) => layer == caex::LAYER_TAG && tag == caex::LaserFeedList::CONTENT_TYPE
            && parses_as::<caex::LaserFeedList>(body, v@),
        Payload::LaserFeedControl(v) => layer == caex::LAYER_TAG && tag == caex::LaserFeedControl::CONTENT_TYPE
            && parses_as::<caex::LaserFeedControl>(body, v@),
        Payload::LaserFeedFrame(v) => layer == caex::LAYER_TAG && tag == caex::LaserFeedFrame::CONTENT_TYPE
            && parses_as::<caex::LaserFeedFrame>(body, v@),
        Payload::Unknown => !known(layer, tag),
    }
}

/// Decodes the payload of a PINF message with tag `tag` at `off` in `frame`.
fn decode_pinf(frame: &[u8], off: usize, tag: u32) -> (r: Result<Payload, CodecError>)
    requires
        off <= frame@.len(),
    ensures
        r is Err <==> !body_parses(pinf::LAYER_TAG, tag, frame@.skip(off as int)),
        r is Err ==> r == Err::<Payload, CodecError>(CodecError::Malformed),
        r matches Ok(p) ==> payload_matches(pinf::LAYER_TAG, tag, frame@.skip(off as int), p),
{
    if tag == pinf::PNam::CONTENT_TYPE {
        match pinf::PNam::read_from_bytes(frame, off) {
            Ok((v, _)) => Ok(Payload::PNam(v)),
            Err(_) => Err(CodecError::Malformed),
        }
    } else if tag == pinf::PLoc::CONTENT_TYPE {
        match pinf::PLoc::read_from_bytes(frame, off) {
            Ok((v, _)) => Ok(Payload::PLoc(v)),
            Err(_) => Err(CodecError::Malformed),
        }
    } else {
        Ok(Payload::Unknown)
    }
}

/// Decodes the payload of an SDMX message with tag `tag` at `off` in `frame`.
fn decode_sdmx(frame: &[u8], off: usize, tag: u32) -> (r: Result<Payload, CodecError>)
    requires
        off <= frame@.len(),
    ensures
        r is Err <==> !body_parses(sdmx::LAYER_TAG, tag, frame@.skip(off as int)),
        r is Err ==> r == Err::<Payload, CodecError>(CodecError::Malformed),
        r matches Ok(p) ==> payload_matches(sdmx::LAYER_TAG, tag, frame@.skip(off as int), p),
{
    if tag == sdmx::Capa::CONTENT_TYPE {
        match sdmx::Capa::read_from_bytes(frame, off) {
            Ok((v, _)) => Ok(Payload::Capa(v)),
            Err(_) => Err(CodecError::Malformed),
        }
    } else if tag == sdmx::UNam::CONTENT_TYPE {
        match sdmx::UNam::read_from_bytes(frame, off) {
            Ok((v, _)) => Ok(Payload::UNam(v)),
            Err(_) => Err(CodecError::Malformed),
        }
    } else if tag == sdmx::EnId::CONTENT_TYPE {
        match sdmx::EnId::read_from_bytes(frame, off) {
            Ok((v, _)) => Ok(Payload::EnId(v)),
            Err(_) => Err(CodecError::Malformed),
        }
    } else if tag == sdmx::ChBk::CONTENT_TYPE {
        match sdmx::ChBk::read_from_bytes(frame, off) {
            Ok((v, _)) => Ok(Payload::ChBk(v)),
            Err(_) => Err(CodecError::Malformed),
        }
    } else if tag == sdmx::ChLs::CONTENT_TYPE {
        match sdmx::ChLs::read_from_bytes(frame, off) {
            Ok((v, _)) => Ok(Payload::ChLs(v)),
            Err(_) => Err(CodecError::Malformed),
        }
    } else if tag == sdmx::SXSr::CONTENT_TYPE {
        match sdmx::SXSr::read_from_bytes(frame, off) {
            Ok((v, _)) => Ok(Payload::SXSr(v)),
            Err(_) => Err(CodecError::Malformed),
        }
    } else if tag == sdmx::Sxus::CONTENT_TYPE {
        match sdmx::Sxus::read_from_bytes(frame, off) {
            Ok((v, _)) => Ok(Payload::Sxus(v)),
            Err(_) => Err(CodecError::Malformed),
        }
    } else {
        Ok(Payload::Unknown)
    }
}

/// Decodes the payload of an FPTC message with tag `tag` at `off` in `frame`.
fn decode_fptc(frame: &[u8], off: usize, tag: u32) -> (r: Result<Payload, CodecError>)
    requires
        off <= frame@.len(),
    ensures
        r is Err <==> !body_parses(fptc::LAYER_TAG, tag, frame@.skip(off as int)),
        r is Err ==> r == Err::<Payload, CodecError>(CodecError::Malformed),
        r matches Ok(p) ==> payload_matches(fptc::LAYER_TAG, tag, frame@.skip(off as int), p),
{
    if tag == fptc::Ptch::CONTENT_TYPE {
        match fptc::Ptch::read_from_bytes(frame, off) {
            Ok((v, _)) => Ok(Payload::Ptch(v)),
            Err(_) => Err(CodecError::Malformed),
        }
    } else if tag == fptc::UPtc::CONTENT_TYPE {
        match fptc::UPtc::read_from_bytes(frame, off) {
            Ok((v, _)) => Ok(Payload::UPtc(v)),
            Err(_) => Err(CodecError::Malformed),
        }
    } else if tag == fptc::SPtc::CONTENT_TYPE {
        match fptc::SPtc::read_from_bytes(frame, off) {
            Ok((v, _)) => Ok(Payload::SPtc(v)),
            Err(_) => Err(CodecError::Malformed),
        }
    } else {
        Ok(Payload::Unknown)
    }
}

/// Decodes the payload of an FSEL message with tag `tag` at `off` in `frame`.
fn decode_fsel(frame: &[u8], off: usize, tag: u32) -> (r: Result<Payload, CodecError>)
    requires
        off <= frame@.len(),
    ensures
        r is Err <==> !body_parses(fsel::LAYER_TAG, tag, frame@.skip(off as int)),
        r is Err ==> r == Err::<Payload, CodecError>(CodecError::Malformed),
        r matches Ok(p) ==> payload_matches(fsel::LAYER_TAG, tag, frame@.skip(off as int), p),
{
    if tag == fsel::Sele::CONTENT_TYPE {
        match fsel::Sele::read_from_bytes(frame, off) {
            Ok((v, _)) => Ok(Payload::Sele(v)),
            Err(_) => Err(CodecError::Malformed),
        }
    } else if tag == fsel::DeSe::CONTENT_TYPE {
        match fsel::DeSe::read_from_bytes(frame, off) {
            Ok((v, _)) => Ok(Payload::DeSe(v)),
            Err(_) => Err(CodecError::Malformed),
        }
    } else {
        Ok(Payload::Unknown)
    }
}

/// Decodes the payload of an FINF message with tag `tag` at `off` in `frame`.
fn decode_finf(frame: &[u8], off: usize, tag: u32) -> (r: Result<Payload, CodecError>)
    requires
        off <= frame@.len(),
    ensures
        r is Err <==> !body_parses(finf::LAYER_TAG, tag, frame@.skip(off as int)),
        r is Err ==> r == Err::<Payload, CodecError>(CodecError::Malformed),
        r matches Ok(p) ==> payload_matches(finf::LAYER_TAG, tag, frame@.skip(off as int), p),
{
    if tag == finf::SFra::CONTENT_TYPE {
        match finf::SFra::read_from_bytes(frame, off) {
            Ok((v, _)) => Ok(Payload::SFra(v)),
            Err(_) => Err(CodecError::Malformed),
        }
    } else if tag == finf::Fram::CONTENT_TYPE {
        match finf::Fram::read_from_bytes(frame, off) {
            Ok((v, _)) => Ok(Payload::Fram(v)),
            Err(_) => Err(CodecError::Malformed),
        }
    } else {
        Ok(Payload::Unknown)
    }
}

/// Decodes the payload of a CAEX message with tag `tag` at `off` in `frame`.
fn decode_caex(frame: &[u8], off: usize, tag: u32) -> (r: Result<Payload, CodecError>)
    requires
        off <= frame@.len(),
    ensures
        r is Err <==> !body_parses(caex::LAYER_TAG, tag, frame@.skip(off as int)),
        r is Err ==> r == Err::<Payload, CodecError>(CodecError::Malformed),
        r matches Ok(p) ==> payload_matches(caex::LAYER_TAG, tag, frame@.skip(off as int), p),
{
    if tag == caex::Nack::CONTENT_TYPE {
        match caex::Nack::read_from_bytes(frame, off) {
            Ok((v, _)) => Ok(Payload::Nack(v)),
            Err(_) => Err(CodecError::Malformed),
        }
    } else if tag == caex::EnterShow::CONTENT_TYPE {
        match caex::EnterShow::read_from_bytes(frame, off) {
            Ok((v, _)) => Ok(Payload::EnterShow(v)),
            Err(_) => Err(CodecError::Malformed),
        }
    } else if tag == caex::LeaveShow::CONTENT_TYPE {
        match caex::LeaveShow::read_from_bytes(frame, off) {
            Ok((v, _)) => Ok(Payload::LeaveShow(v)),
            Err(_) => Err(CodecError::Malformed),
        }
    } else if tag == caex::FixtureListRequest::CONTENT_TYPE {
        match caex::FixtureListRequest::read_from_bytes(frame, off) {
            Ok((v, _)) => Ok(Payload::FixtureListRequest(v)),
            Err(_) => Err(CodecError::Malformed),
        }
    } else if tag == caex::FixtureList::CONTENT_TYPE {
        match caex::FixtureList::read_from_bytes(frame, off) {
            Ok((v, _)) => Ok(Payload::FixtureList(v)),
            Err(_) => Err(CodecError::Malformed),
        }
    } else if tag == caex::FixtureRemove::CONTENT_TYPE {
        match caex::FixtureRemove::read_from_bytes(frame, off) {
            Ok((v, _)) => Ok(Payload::FixtureRemove(v)),
            Err(_) => Err(CodecError::Malformed),
        }
    } else if tag == caex::FixtureConsoleStatus::CONTENT_TYPE {
        match caex::FixtureConsoleStatus::read_from_bytes(frame, off) {
            Ok((v, _)) => Ok(Payload::FixtureConsoleStatus(v)),
            Err(_) => Err(CodecError::Malformed),
        }
    } else if tag == caex::GetLaserFeedList::CONTENT_TYPE {
        match caex::GetLaserFeedList::read_from_bytes(frame, off) {
            Ok((v, _)) => Ok(Payload::GetLaserFeedList(v)),
            Err(_) => Err(CodecError::Malformed),
        }
    } else if tag == caex::LaserFeedList::CONTENT_TYPE {
        match caex::LaserFeedList::read_from_bytes(frame, off) {
            Ok((v, _)) => Ok(Payload::LaserFeedList(v)),
            Err(_) => Err(CodecError::Malformed),
        }
    } else if tag == caex::LaserFeedControl::CONTENT_TYPE {
        match caex::LaserFeedControl::read_from_bytes(frame, off) {
            Ok((v, _)) => Ok(Payload::LaserFeedControl(v)),
            Err(_) => Err(CodecError::Malformed),
        }
    } else if tag == caex::LaserFeedFrame::CONTENT_TYPE {
        match caex::LaserFeedFrame::read_from_bytes(frame, off) {
            Ok((v, _)) => Ok(Payload::LaserFeedFrame(v)),
            Err(_) => Err(CodecError::Malformed),
        }
    } else {
        Ok(Payload::Unknown)
    }
}
/// The message size declared by the base header at the front of `s`.
pub open spec fn declared_size(s: Seq<u8>) -> int {
    u32_at(s, 8) as int
}

/// The layer tag of the base header at the front of `s`.
pub open spec fn layer_of(s: Seq<u8>) -> u32 {
    u32_at(s, 16)
}

/// The message tag of the secondary header of the message `s`.
pub open spec fn tag_of(s: Seq<u8>) -> u32 {
    u32_at(s, tag_offset(layer_of(s)))
}

/// The payload bytes of the message `s`: after both headers, up to its declared size.
pub open spec fn body_of(s: Seq<u8>) -> Seq<u8> {
    s.subrange(HEADER_LEN + secondary_len(layer_of(s)), declared_size(s))
}

/// Why `s` does not hold one decodable message at its front, if it does not: `Truncated`
/// when it is shorter than the base header or than the declared size, `Malformed` when
/// the declared size cannot hold the secondary header or a known payload cannot be read
/// within it.
pub open spec fn frame_error(s: Seq<u8>) -> Option<CodecError> {
    if s.len() < HEADER_LEN || declared_size(s) > s.len() {
        Some(CodecError::Truncated)
    } else if declared_size(s) < HEADER_LEN + secondary_len(layer_of(s)) {
        Some(CodecError::Malformed)
    } else if !body_parses(layer_of(s), tag_of(s), body_of(s)) {
        Some(CodecError::Malformed)
    } else {
        None
    }
}

/// Decodes the message at the front of `buf`: its base header, its secondary header and,
/// for known tags, its payload. Bytes after the declared size are not read.
pub fn decode_frame(buf: &[u8]) -> (r: Result<Frame, CodecError>)
    ensures
        r is Err <==> frame_error(buf@) is Some,
        r matches Err(e) ==> frame_error(buf@) == Some(e),
        r matches Ok(f) ==> Header::spec_parse(buf@) == Some((f.header, 20nat)) && f.content_type
            == tag_of(buf@) && f.content_hint == (if layer_of(buf@) == fptc::LAYER_TAG {
            u32_at(buf@, 24)
        } else {
            0
        }) && payload_matches(layer_of(buf@), tag_of(buf@), body_of(buf@), f.payload),
{
    proof {
        assert(buf@.skip(0) =~= buf@);
    }
    let (header, _) = Header::read_from_bytes(buf, 0)?;
    let size = header.message_size as usize;
    if size > buf.len() {
        return Err(CodecError::Truncated);
    }
    let layer = header.content_type;
    let sec: usize = if layer == fptc::LAYER_TAG {
        8
    } else if layer == msex::LAYER_TAG {
        6
    } else {
        4
    };
    let off = HEADER_LEN + sec;
    if size < off {
        return Err(CodecError::Malformed);
    }
    let frame = &buf[0..size];
    let tag = if layer == msex::LAYER_TAG {
        read_le32(frame, 22)
    } else {
        read_le32(frame, 20)
    };
    let content_hint = if layer == fptc::LAYER_TAG {
        read_le32(frame, 24)
    } else {
        0
    };
    proof {
        assert(frame@.skip(off as int) =~= body_of(buf@));
    }
    let payload = if layer == pinf::LAYER_TAG {
        decode_pinf(frame, off, tag)?
    } else if layer == sdmx::LAYER_TAG {
        decode_sdmx(frame, off, tag)?
    } else if layer == fptc::LAYER_TAG {
        decode_fptc(frame, off, tag)?
    } else if layer == fsel::LAYER_TAG {
        decode_fsel(frame, off, tag)?
    } else if layer == finf::LAYER_TAG {
        decode_finf(frame, off, tag)?
    } else if layer == caex::LAYER_TAG {
        decode_caex(frame, off, tag)?
    } else {
        Payload::Unknown
    };
    Ok(Frame { header, content_type: tag, content_hint, payload })
}

} // verus!
