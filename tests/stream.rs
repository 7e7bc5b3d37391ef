use citp::dispatch::{decode_frame, Payload};
use citp::framing::FrameReader;
use citp::protocol::caex::{EnterShow, FixtureListRequest, GetLaserFeedList, LaserFeedControl};
use citp::protocol::pinf::PNam;
use citp::protocol::sdmx::Capa;
use citp::protocol::{Kind, LayerHeader, Message};
use citp::text::{CString, Ucs2};
use citp::wire::{CodecError, SizeBytes, WriteToBytes};

fn message<T: SizeBytes + WriteToBytes>(layer: u32, tag: u32, payload: T) -> Vec<u8> {
    let m = Message::<LayerHeader, T>::new(layer, tag, Kind::request_index(3), payload).unwrap();
    let mut out = Vec::new();
    m.write_to_bytes(&mut out).unwrap();
    out
}

fn three_messages() -> Vec<Vec<u8>> {
    vec![
        message(
            citp::protocol::pinf::LAYER_TAG,
            PNam::CONTENT_TYPE,
            PNam { name: CString::new(b"peer".to_vec()).unwrap() },
        ),
        message(citp::protocol::caex::LAYER_TAG, FixtureListRequest::CONTENT_TYPE, FixtureListRequest {}),
        message(
            citp::protocol::caex::LAYER_TAG,
            EnterShow::CONTENT_TYPE,
            EnterShow { name: Ucs2 { units: "show".encode_utf16().collect() } },
        ),
    ]
}

fn feed_in_chunks(stream: &[u8], chunk: usize) -> Vec<Vec<u8>> {
    let mut reader = FrameReader::new();
    let mut out = Vec::new();
    for piece in stream.chunks(chunk) {
        out.extend(reader.receive(piece).unwrap());
    }
    assert_eq!(reader.pending_len(), 0);
    out
}

#[test]
fn burst_of_three_messages_gives_three() {
    let msgs = three_messages();
    let stream: Vec<u8> = msgs.concat();
    let mut reader = FrameReader::new();
    let frames = reader.receive(&stream).unwrap();
    assert_eq!(frames, msgs);
    assert_eq!(reader.pending_len(), 0);
}

#[test]
fn fragmented_stream_gives_the_same_messages() {
    let msgs = three_messages();
    let stream: Vec<u8> = msgs.concat();
    for chunk in [1, 2, 3, 7, 19, 20, 21, 25, 1000] {
        assert_eq!(feed_in_chunks(&stream, chunk), msgs);
    }
}

#[test]
fn partial_message_is_kept() {
    let msgs = three_messages();
    let mut reader = FrameReader::new();
    let first = &msgs[0];
    assert_eq!(reader.receive(&first[..first.len() - 1]).unwrap().len(), 0);
    assert_eq!(reader.pending_len(), first.len() - 1);
    let frames = reader.receive(&first[first.len() - 1..]).unwrap();
    assert_eq!(frames, vec![first.clone()]);
}

#[test]
fn size_below_header_is_fatal() {
    let mut bad = three_messages()[0].clone();
    bad[8] = 10;
    bad[9] = 0;
    let mut reader = FrameReader::new();
    assert_eq!(reader.receive(&bad).unwrap_err(), CodecError::Malformed);
    assert_eq!(reader.pending_len(), bad.len());
}

#[test]
fn unknown_message_tag_is_skipped() {
    let unknown = message(citp::protocol::caex::LAYER_TAG, 0x0009_0009, Capa { capabilities: vec![1] });
    let unknown_layer = message(0x5858_5858, 1, Capa { capabilities: vec![] });
    let control = message(
        citp::protocol::caex::LAYER_TAG,
        LaserFeedControl::CONTENT_TYPE,
        LaserFeedControl { feed_index: 0, frame_rate: 30 },
    );
    let stream = [unknown.clone(), unknown_layer.clone(), control.clone()].concat();
    let frames = feed_in_chunks(&stream, 5);
    assert_eq!(frames.len(), 3);
    assert!(matches!(decode_frame(&frames[0]).unwrap().payload, Payload::Unknown));
    assert!(matches!(decode_frame(&frames[1]).unwrap().payload, Payload::Unknown));
    match decode_frame(&frames[2]).unwrap().payload {
        Payload::LaserFeedControl(c) => assert_eq!(c.frame_rate, 30),
        other => panic!("unexpected payload {:?}", other),
    }
}

#[test]
fn get_laser_feed_list_decodes() {
    let m = message(citp::protocol::caex::LAYER_TAG, GetLaserFeedList::CONTENT_TYPE, GetLaserFeedList {});
    assert_eq!(m.len(), 24);
    assert!(matches!(decode_frame(&m).unwrap().payload, Payload::GetLaserFeedList(_)));
}
