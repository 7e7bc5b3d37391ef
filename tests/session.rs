use citp::dispatch::{decode_frame, Payload};
use citp::protocol::caex::{
    EnterShow, FixtureList, FixtureListRequest, GetLaserFeedList, LaserFeedList,
};
use citp::protocol::pinf::{PLoc, PNam};
use citp::protocol::{Kind, LayerHeader, Message};
use citp::session::{Action, Event, Session, State};
use citp::text::{CString, Ucs2};
use citp::wire::{SizeBytes, WriteToBytes};

fn cstr(s: &str) -> CString {
    CString::new(s.as_bytes().to_vec()).unwrap()
}

fn ucs2(s: &str) -> Ucs2 {
    Ucs2 { units: s.encode_utf16().collect() }
}

fn message<T: SizeBytes + WriteToBytes>(layer: u32, tag: u32, index: u16, payload: T) -> Vec<u8> {
    let m = Message::<LayerHeader, T>::new(layer, tag, Kind::request_index(index), payload).unwrap();
    let mut out = Vec::new();
    m.write_to_bytes(&mut out).unwrap();
    out
}

fn location(port: u16) -> Vec<u8> {
    message(
        citp::protocol::pinf::LAYER_TAG,
        PLoc::CONTENT_TYPE,
        0,
        PLoc {
            listening_tcp_port: port,
            kind: cstr("Visualiser"),
            name: cstr("Capture (127.0.0.1)"),
            state: cstr("Idle"),
        },
    )
}

fn new_session() -> Session {
    Session::new(
        &PNam { name: cstr("Rusty Laser Software") },
        &PLoc {
            listening_tcp_port: 0,
            kind: cstr("LightingConsole"),
            name: cstr("Rusty Previz Tool"),
            state: cstr("Firing ze lasers"),
        },
        &EnterShow { name: ucs2("test-suite") },
        &LaserFeedList { source_key: 9, feed_names: vec![ucs2("laser 0"), ucs2("laser 1")] },
    )
    .unwrap()
}

fn discovering() -> Session {
    let mut s = new_session();
    assert_eq!(s.step(&Event::Tick), vec![Action::JoinGroup]);
    assert!(s.step(&Event::Joined(false)).is_empty());
    assert_eq!(s.state(), State::Init);
    assert!(s.step(&Event::Joined(true)).is_empty());
    assert_eq!(s.state(), State::Discover);
    s
}

fn requesting() -> Session {
    let mut s = discovering();
    let actions = s.step(&Event::Datagram(location(4811)));
    assert_eq!(s.state(), State::Request);
    assert_eq!(actions.len(), 2);
    s
}

#[test]
fn discovery_ignores_port_zero() {
    let mut s = discovering();
    let actions = s.step(&Event::Datagram(location(0)));
    assert!(actions.is_empty());
    assert_eq!(s.state(), State::Discover);
}

#[test]
fn discovery_connects_and_introduces_itself() {
    let mut s = discovering();
    let actions = s.step(&Event::Datagram(location(4811)));
    assert_eq!(s.state(), State::Request);
    assert_eq!(
        actions[0],
        Action::Connect { port: 4811, name: b"Capture (127.0.0.1)".to_vec() }
    );
    match &actions[1] {
        Action::SendTcp(bytes) => match decode_frame(bytes).unwrap().payload {
            Payload::PNam(p) => assert_eq!(p.name.as_bytes(), b"Rusty Laser Software"),
            other => panic!("unexpected payload {:?}", other),
        },
        other => panic!("unexpected action {:?}", other),
    }
}

#[test]
fn fixture_list_request_answers_once_and_streams() {
    let mut s = requesting();
    let req = message(citp::protocol::caex::LAYER_TAG, FixtureListRequest::CONTENT_TYPE, 41, FixtureListRequest {});
    let actions = s.step(&Event::TcpMessage(req));
    assert_eq!(s.state(), State::Stream);
    assert_eq!(actions.len(), 1);
    match &actions[0] {
        Action::SendTcp(bytes) => {
            let frame = decode_frame(bytes).unwrap();
            assert_eq!(frame.header.kind.value, 41);
            assert_eq!(frame.content_type, FixtureList::CONTENT_TYPE);
            match frame.payload {
                Payload::FixtureList(l) => {
                    assert_eq!(l.message_type, 0);
                    assert!(l.fixtures.is_empty());
                }
                other => panic!("unexpected payload {:?}", other),
            }
        }
        other => panic!("unexpected action {:?}", other),
    }
}

#[test]
fn requests_are_answered_in_request_state() {
    let mut s = requesting();
    let get = message(citp::protocol::caex::LAYER_TAG, GetLaserFeedList::CONTENT_TYPE, 2, GetLaserFeedList {});
    let actions = s.step(&Event::TcpMessage(get));
    assert_eq!(s.state(), State::Request);
    match &actions[..] {
        [Action::SendTcp(bytes)] => match decode_frame(bytes).unwrap().payload {
            Payload::LaserFeedList(l) => {
                assert_eq!(l.source_key, 9);
                assert_eq!(l.feed_names.len(), 2);
            }
            other => panic!("unexpected payload {:?}", other),
        },
        other => panic!("unexpected actions {:?}", other),
    }
    let show = message(
        citp::protocol::caex::LAYER_TAG,
        EnterShow::CONTENT_TYPE,
        3,
        EnterShow { name: ucs2("their show") },
    );
    let actions = s.step(&Event::TcpMessage(show));
    match &actions[..] {
        [Action::SendTcp(bytes)] => match decode_frame(bytes).unwrap().payload {
            Payload::EnterShow(e) => assert_eq!(e.name, ucs2("test-suite")),
            other => panic!("unexpected payload {:?}", other),
        },
        other => panic!("unexpected actions {:?}", other),
    }
    let unknown = message(citp::protocol::caex::LAYER_TAG, 0x0007_0007, 4, GetLaserFeedList {});
    assert!(s.step(&Event::TcpMessage(unknown)).is_empty());
    assert_eq!(s.state(), State::Request);
    let tick = s.step(&Event::Tick);
    assert!(matches!(&tick[..], [Action::Multicast(_)]));
}

#[test]
fn streaming_sends_one_frame_per_feed() {
    let mut s = requesting();
    let req = message(citp::protocol::caex::LAYER_TAG, FixtureListRequest::CONTENT_TYPE, 1, FixtureListRequest {});
    s.step(&Event::TcpMessage(req));
    let first = s.step(&Event::Tick);
    assert_eq!(first.len(), 3);
    assert!(matches!(first[0], Action::Multicast(_)));
    assert_eq!(first[1], Action::SendFeedFrame { feed_index: 0, sequence: 0 });
    assert_eq!(first[2], Action::SendFeedFrame { feed_index: 1, sequence: 0 });
    let second = s.step(&Event::Tick);
    assert_eq!(
        second,
        vec![
            Action::SendFeedFrame { feed_index: 0, sequence: 1 },
            Action::SendFeedFrame { feed_index: 1, sequence: 1 }
        ]
    );
    assert_eq!(s.frame_num(), 2);
    for _ in 2..100 {
        s.step(&Event::Tick);
    }
    assert!(matches!(s.step(&Event::Tick)[0], Action::Multicast(_)));
}
