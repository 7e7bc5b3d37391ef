use citp::dispatch::{decode_frame, Payload};
use citp::protocol::caex::{
    Fixture, FixtureData, FixtureList, Identifier, LaserFeedFrame, LaserFeedList, LaserPoint,
};
use citp::protocol::pinf::{PLoc, PNam};
use citp::protocol::sdmx::{Capa, ChBk, ChLs, ChannelLevel};
use citp::protocol::{fptc, fsel, Header, Kind, LayerHeader, Message, COOKIE};
use citp::session::host_in_name;
use citp::text::{CString, Ucs2};
use citp::wire::{CodecError, ReadFromBytes, SizeBytes, WriteToBytes};

fn cstr(s: &str) -> CString {
    CString::new(s.as_bytes().to_vec()).unwrap()
}

fn ucs2(s: &str) -> Ucs2 {
    Ucs2 { units: s.encode_utf16().collect() }
}

fn encode<T: WriteToBytes>(v: &T) -> Vec<u8> {
    let mut out = Vec::new();
    v.write_to_bytes(&mut out).unwrap();
    out
}

fn round_trip<T: WriteToBytes + ReadFromBytes + PartialEq + std::fmt::Debug>(v: &T) {
    let bytes = encode(v);
    assert_eq!(v.size_bytes(), bytes.len());
    let (back, end) = T::read_from_bytes(&bytes, 0).unwrap();
    assert_eq!(&back, v);
    assert_eq!(end, bytes.len());
}

#[test]
fn u16_and_u32_are_little_endian() {
    assert_eq!(encode(&0x1234u16), vec![0x34, 0x12]);
    assert_eq!(encode(&0x12345678u32), vec![0x78, 0x56, 0x34, 0x12]);
    assert_eq!(u16::read_from_bytes(&[0xcd, 0xab], 0).unwrap(), (0xabcd, 2));
    assert_eq!(u32::read_from_bytes(&[9, 0x78, 0x56, 0x34, 0x12], 1).unwrap(), (0x12345678, 5));
}

#[test]
fn base_header_layout() {
    let h = Header {
        cookie: COOKIE,
        version_major: 1,
        version_minor: 0,
        kind: Kind::request_index(7),
        message_size: 0x01020304,
        message_part_count: 1,
        message_part: 0,
        content_type: citp::protocol::pinf::LAYER_TAG,
    };
    let bytes = encode(&h);
    assert_eq!(bytes.len(), 20);
    assert_eq!(&bytes[0..4], b"CITP");
    assert_eq!(&bytes[4..8], &[1, 0, 7, 0]);
    assert_eq!(&bytes[8..12], &[4, 3, 2, 1]);
    assert_eq!(&bytes[12..16], &[1, 0, 0, 0]);
    assert_eq!(&bytes[16..20], b"PINF");
    round_trip(&h);
}

#[test]
fn truncated_header_is_an_error() {
    let bytes = [0u8; 19];
    assert_eq!(Header::read_from_bytes(&bytes, 0).unwrap_err(), CodecError::Truncated);
}

#[test]
fn cstring_rejects_nul_and_round_trips() {
    assert!(CString::new(vec![b'a', 0, b'b']).is_none());
    let c = cstr("Idle");
    assert_eq!(encode(&c), b"Idle\0".to_vec());
    round_trip(&c);
    round_trip(&cstr(""));
    assert_eq!(CString::read_from_bytes(b"abc", 0).unwrap_err(), CodecError::Truncated);
}

#[test]
fn ucs2_is_counted() {
    let u = ucs2("Hi");
    assert_eq!(encode(&u), vec![2, 0, b'H', 0, b'i', 0]);
    round_trip(&u);
    round_trip(&ucs2(""));
    let long = Ucs2 { units: vec![0x263a; 65535] };
    round_trip(&long);
}

#[test]
fn ucs2_too_long_is_oversize() {
    let u = Ucs2 { units: vec![1; 65536] };
    assert!(!u.fits());
    let mut out = vec![7];
    assert_eq!(u.write_to_bytes(&mut out).unwrap_err(), CodecError::Oversize);
    assert_eq!(out, vec![7]);
}

#[test]
fn ploc_round_trip() {
    let p = PLoc {
        listening_tcp_port: 6436,
        kind: cstr("LightingConsole"),
        name: cstr("Desk (10.0.0.2)"),
        state: cstr("Running"),
    };
    let bytes = encode(&p);
    assert_eq!(&bytes[0..2], &[0x24, 0x19]);
    assert_eq!(bytes.len(), 2 + 16 + 16 + 8);
    round_trip(&p);
    round_trip(&PNam { name: cstr("") });
}

#[test]
fn sdmx_round_trips() {
    round_trip(&Capa { capabilities: vec![Capa::CHANNEL_LIST, Capa::ART_NET_EXTERNAL_SOURCES] });
    round_trip(&Capa { capabilities: vec![] });
    let chbk = ChBk { blind: 1, universe_index: 2, first_channel: 10, channel_levels: vec![0, 128, 255] };
    assert_eq!(encode(&chbk), vec![1, 2, 10, 0, 3, 0, 0, 128, 255]);
    round_trip(&chbk);
    let chls = ChLs {
        channel_levels: vec![ChannelLevel { universe_index: 1, channel: 300, channel_level: 42 }],
    };
    assert_eq!(chls.size_bytes(), 6);
    round_trip(&chls);
}

#[test]
fn capa_too_many_is_oversize() {
    let c = Capa { capabilities: vec![1; 65536] };
    let mut out = Vec::new();
    assert_eq!(c.write_to_bytes(&mut out).unwrap_err(), CodecError::Oversize);
    assert!(out.is_empty());
    assert!(Capa { capabilities: vec![1; 65535] }.fits());
}

#[test]
fn fptc_and_fsel_round_trips() {
    let p = fptc::Ptch {
        fixture_identifier: 12,
        universe: 1,
        reserved: 0,
        channel: 100,
        channel_count: 16,
        fixture_make: cstr("Acme"),
        fixture_name: cstr("Spot"),
    };
    round_trip(&p);
    let u = fptc::UPtc { fixture_identifiers: vec![1, 2, 3] };
    assert_eq!(u.size_bytes(), 8);
    assert_eq!(encode(&u).len(), 8);
    round_trip(&u);
    round_trip(&fptc::SPtc { fixture_identifiers: vec![] });
    round_trip(&fsel::Sele { complete: 1, reserved: 0, fixture_identifiers: vec![5, 6] });
    round_trip(&fsel::DeSe { fixture_identifiers: vec![9] });
}

fn sample_fixture() -> Fixture {
    Fixture {
        fixture_identifier: 0xffff_ffff,
        manufacturer_name: ucs2("Acme"),
        fixture_name: ucs2("Beam"),
        mode_name: ucs2("16ch"),
        channel_count: 16,
        is_dimmer: 0,
        identifiers: vec![Identifier { identifier_type: 1, data: vec![7, 0, 0, 0, 0, 0, 0, 0] }],
        data: FixtureData {
            patched: 1,
            universe: 0,
            universe_channel: 10,
            unit: ucs2("1"),
            channel: 101,
            circuit: ucs2(""),
            note: ucs2("front"),
            position: [1.5f32.to_bits(), 0, (-2.0f32).to_bits()],
            angles: [0, 90.0f32.to_bits(), 0],
        },
    }
}

#[test]
fn fixture_list_round_trip() {
    let list = FixtureList { message_type: 0, fixtures: vec![sample_fixture(), sample_fixture()] };
    round_trip(&list);
    let empty = FixtureList { message_type: 0, fixtures: vec![] };
    assert_eq!(encode(&empty), vec![0, 0, 0]);
    round_trip(&empty);
}

#[test]
fn nested_oversize_writes_nothing() {
    let mut fixture = sample_fixture();
    fixture.data.note = Ucs2 { units: vec![b'x' as u16; 70000] };
    let list = FixtureList { message_type: 1, fixtures: vec![sample_fixture(), fixture] };
    assert!(!list.fits());
    let mut out = vec![1, 2, 3];
    assert_eq!(list.write_to_bytes(&mut out).unwrap_err(), CodecError::Oversize);
    assert_eq!(out, vec![1, 2, 3]);
    let names = LaserFeedList { source_key: 1, feed_names: (0..256).map(|_| ucs2("f")).collect() };
    let mut out = Vec::new();
    assert_eq!(names.write_to_bytes(&mut out).unwrap_err(), CodecError::Oversize);
    assert!(out.is_empty());
}

#[test]
fn laser_messages_round_trip() {
    let list = LaserFeedList { source_key: 77, feed_names: vec![ucs2("a"), ucs2("bb")] };
    round_trip(&list);
    let frame = LaserFeedFrame {
        source_key: 77,
        feed_index: 0,
        frame_sequence: 3,
        points: vec![LaserPoint::new(0, 4093, 31, 63, 31), LaserPoint::new(2000, 17, 1, 2, 3)],
    };
    assert_eq!(frame.size_bytes(), 4 + 1 + 4 + 2 + 10);
    round_trip(&frame);
}

#[test]
fn point_packing_is_exact() {
    for x in (0..=4093u16).step_by(7).chain([4093]) {
        for y in [0u16, 1, 255, 256, 2047, 4093] {
            let p = LaserPoint::new(x, y, 5, 40, 17);
            assert_eq!((p.x(), p.y()), (x, y));
        }
    }
    for r in 0..32u8 {
        for g in 0..64u8 {
            for b in 0..32u8 {
                let p = LaserPoint::new(1, 2, r, g, b);
                assert_eq!((p.red(), p.green(), p.blue()), (r, g, b));
            }
        }
    }
    let p = LaserPoint::new(0x0abc, 0x0def, 0, 0, 0);
    assert_eq!((p.x_low_byte, p.y_low_byte, p.xy_high_nibbles), (0xbc, 0xef, 0xda));
    assert_eq!(LaserPoint::new(0, 0, 1, 1, 1).color, 1 | (1 << 5) | (1 << 11));
}

#[test]
fn message_new_declares_its_size() {
    let m = Message::<LayerHeader, PNam>::new(
        citp::protocol::pinf::LAYER_TAG,
        PNam::CONTENT_TYPE,
        Kind::request_index(0),
        PNam { name: cstr("Rusty") },
    )
    .unwrap();
    let bytes = encode(&m);
    assert_eq!(m.header.citp_header.message_size as usize, bytes.len());
    assert_eq!(bytes.len(), 24 + 6);
    assert_eq!(&bytes[20..24], b"PNam");
    let frame = decode_frame(&bytes).unwrap();
    match frame.payload {
        Payload::PNam(p) => assert_eq!(p.name.as_bytes(), b"Rusty"),
        other => panic!("unexpected payload {:?}", other),
    }
}

#[test]
fn decode_frame_errors() {
    let m = Message::<LayerHeader, Capa>::new(
        citp::protocol::sdmx::LAYER_TAG,
        Capa::CONTENT_TYPE,
        Kind::request_index(0),
        Capa { capabilities: vec![1, 2] },
    )
    .unwrap();
    let bytes = encode(&m);
    assert_eq!(decode_frame(&bytes[..10]).unwrap_err(), CodecError::Truncated);
    assert_eq!(decode_frame(&bytes[..bytes.len() - 1]).unwrap_err(), CodecError::Truncated);
    let mut short = bytes.clone();
    short[8] = 22;
    assert_eq!(decode_frame(&short).unwrap_err(), CodecError::Malformed);
    let mut bad_count = bytes.clone();
    bad_count[24] = 9;
    assert_eq!(decode_frame(&bad_count).unwrap_err(), CodecError::Malformed);
    assert!(matches!(decode_frame(&bytes).unwrap().payload, Payload::Capa(_)));
}

#[test]
fn fptc_frame_carries_content_hint() {
    let ptch = fptc::UPtc { fixture_identifiers: vec![4] };
    let header = fptc::Header {
        citp_header: Header {
            cookie: COOKIE,
            version_major: 1,
            version_minor: 0,
            kind: Kind::request_index(0),
            message_size: 28 + 4,
            message_part_count: 1,
            message_part: 0,
            content_type: fptc::LAYER_TAG,
        },
        content_type: fptc::UPtc::CONTENT_TYPE,
        content_hint: 2,
    };
    let bytes = encode(&fptc::Message { header, message: ptch });
    assert_eq!(bytes.len(), 32);
    let frame = decode_frame(&bytes).unwrap();
    assert_eq!(frame.content_hint, 2);
    match frame.payload {
        Payload::UPtc(u) => assert_eq!(u.fixture_identifiers, vec![4]),
        other => panic!("unexpected payload {:?}", other),
    }
}

#[test]
fn correlation_zero_never_matches() {
    let zero = Kind::request_index(0);
    assert!(!zero.answers(&zero));
    assert!(!Kind::request_index(5).answers(&zero));
    let req = Kind::request_index(5);
    assert!(Kind::in_response_to(req).answers(&req));
    assert!(!Kind::request_index(6).answers(&req));
    assert_eq!(Kind::next_request_index(0), 1);
    assert_eq!(Kind::next_request_index(1), 2);
    assert_eq!(Kind::next_request_index(65535), 1);
}

#[test]
fn read_vec_appends_and_reports_the_end() {
    let bytes = [0xff, 1, 0, 2, 0, 3, 0];
    let mut v: Vec<u16> = vec![9];
    let end = citp::wire::read_vec::<u16>(&bytes, 1, 3, &mut v).unwrap();
    assert_eq!(v, vec![9, 1, 2, 3]);
    assert_eq!(end, 7);
    let (fresh, end) = citp::wire::read_new_vec::<u16>(&bytes, 1, 2).unwrap();
    assert_eq!(fresh, vec![1, 2]);
    assert_eq!(end, 5);
    assert_eq!(
        citp::wire::read_new_vec::<u16>(&bytes, 1, 4).unwrap_err(),
        CodecError::Truncated
    );
}

#[test]
fn host_is_found_between_parentheses() {
    let name = b"Capture (192.168.1.20)";
    let (a, b) = host_in_name(name).unwrap();
    assert_eq!(&name[a..b], b"192.168.1.20");
    assert_eq!(host_in_name(b"no host"), None);
    assert_eq!(host_in_name(b"open ( only"), None);
    assert_eq!(host_in_name(b"()"), Some((1, 1)));
}
