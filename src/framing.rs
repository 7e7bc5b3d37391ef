//! The TCP frame reader: bytes arrive in chunks of any size, and each message is handed out
//! whole, once its declared size has arrived, in the order in which it came.

use crate::dispatch::{
    body_of, declared_size, frame_error, known, layer_of, payload_matches, secondary_len, tag_of,
    Payload,
};
use crate::protocol::{
    fptc, framed, msex, spec_base_header, spec_layer_header, Header, Kind, LayerHeader, HEADER_LEN,
};
use crate::wire::{le32, read_le32, views, CodecError, ReadFromBytes, SizeBytes};
use vstd::prelude::*;

verus! {

/// The whole messages at the front of `s`, in order, and the bytes that follow them. A
/// message is taken once its base header and all of its declared size are there.
pub open spec fn split_frames(s: Seq<u8>) -> (Seq<Seq<u8>>, Seq<u8>)
    decreases s.len(),
{
    if s.len() >= HEADER_LEN && declared_size(s) >= HEADER_LEN && declared_size(s) <= s.len() {
        let rest = split_frames(s.skip(declared_size(s)));
        (seq![s.take(declared_size(s))] + rest.0, rest.1)
    } else {
        (Seq::empty(), s)
    }
}

/// Whether `s` starts with a base header that declares a size smaller than the base header
/// itself: a violation of the protocol after which the stream cannot be followed.
pub open spec fn stalled(s: Seq<u8>) -> bool {
    s.len() >= HEADER_LEN && declared_size(s) < HEADER_LEN
}

/// Whether `m` is one whole message: a base header whose declared size is its length.
pub open spec fn is_frame(m: Seq<u8>) -> bool {
    m.len() >= HEADER_LEN && declared_size(m) == m.len()
}

/// What a reader that holds `pending` hands out when fed `chunks` one after the other, and
/// what it holds afterwards.
pub open spec fn feed(pending: Seq<u8>, chunks: Seq<Seq<u8>>) -> (Seq<Seq<u8>>, Seq<u8>)
    decreases chunks.len(),
{
    if chunks.len() == 0 {
        (Seq::empty(), pending)
    } else {
        let (first, rest) = split_frames(pending + chunks[0]);
        let (later, left) = feed(rest, chunks.drop_first());
        (first + later, left)
    }
}

/// Splitting a stream in two places gives the same messages as splitting it once: what the
/// first part leaves over is completed by the second.
pub proof fn lemma_split_concat(x: Seq<u8>, y: Seq<u8>)
    ensures
        split_frames(x + y).0 == split_frames(x).0 + split_frames(split_frames(x).1 + y).0,
        split_frames(x + y).1 == split_frames(split_frames(x).1 + y).1,
    decreases x.len(),
{
    let s = x + y;
    if x.len() >= HEADER_LEN && declared_size(x) >= HEADER_LEN && declared_size(x) <= x.len() {
        let n = declared_size(x);
        assert(s.subrange(8, 12) =~= x.subrange(8, 12));
        assert(declared_size(s) == n);
        assert(s.take(n) =~= x.take(n));
        assert(s.skip(n) =~= x.skip(n) + y);
        lemma_split_concat(x.skip(n), y);
        assert(split_frames(x + y).0 =~= split_frames(x).0 + split_frames(split_frames(x).1 + y).0);
    } else {
        assert(split_frames(x).0 + split_frames(split_frames(x).1 + y).0 =~= split_frames(x + y).0);
    }
}

/// What splitting leaves over holds no whole message.
pub proof fn lemma_split_rest(s: Seq<u8>)
    ensures
        split_frames(split_frames(s).1) == (Seq::<Seq<u8>>::empty(), split_frames(s).1),
    decreases s.len(),
{
    if s.len() >= HEADER_LEN && declared_size(s) >= HEADER_LEN && declared_size(s) <= s.len() {
        lemma_split_rest(s.skip(declared_size(s)));
    }
}

/// Feeding chunks one after the other to a reader that holds no whole message gives what
/// feeding their concatenation at once gives.
pub proof fn lemma_feed_flatten(pending: Seq<u8>, chunks: Seq<Seq<u8>>)
    requires
        split_frames(pending) == (Seq::<Seq<u8>>::empty(), pending),
    ensures
        feed(pending, chunks) == split_frames(pending + chunks.flatten()),
    decreases chunks.len(),
{
    if chunks.len() == 0 {
        assert(pending + chunks.flatten() =~= pending);
    } else {
        let c0 = chunks[0];
        let tail = chunks.drop_first();
        lemma_split_rest(pending + c0);
        lemma_feed_flatten(split_frames(pending + c0).1, tail);
        assert(chunks.flatten() == c0 + tail.flatten());
        assert(pending + chunks.flatten() =~= (pending + c0) + tail.flatten());
        lemma_split_concat(pending + c0, tail.flatten());
    }
}

/// A stream made of whole messages splits into exactly those messages, with nothing left.
pub proof fn lemma_split_messages(messages: Seq<Seq<u8>>)
    requires
        forall|i: int| 0 <= i < messages.len() ==> is_frame(#[trigger] messages[i]),
    ensures
        split_frames(messages.flatten()) == (messages, Seq::<u8>::empty()),
    decreases messages.len(),
{
    if messages.len() == 0 {
        assert(split_frames(messages.flatten()).0 =~= messages);
    } else {
        let m = messages[0];
        let tail = messages.drop_first();
        assert(is_frame(m));
        assert forall|i: int| 0 <= i < tail.len() implies is_frame(#[trigger] tail[i]) by {
            assert(tail[i] == messages[i + 1]);
        }
        lemma_split_messages(tail);
        let s = messages.flatten();
        assert(s == m + tail.flatten());
        assert(s.subrange(8, 12) =~= m.subrange(8, 12));
        assert(declared_size(s) == m.len());
        assert(s.take(m.len() as int) =~= m);
        assert(s.skip(m.len() as int) =~= tail.flatten());
        assert(split_frames(s).0 =~= messages);
    }
}

/// However a stream of whole messages is cut into chunks, one byte at a time included, a
/// reader that starts empty hands out exactly those messages, in order, and holds nothing
/// afterwards.
pub proof fn lemma_fragmentation(messages: Seq<Seq<u8>>, chunks: Seq<Seq<u8>>)
    requires
        forall|i: int| 0 <= i < messages.len() ==> is_frame(#[trigger] messages[i]),
        chunks.flatten() == messages.flatten(),
    ensures
        feed(Seq::empty(), chunks) == (messages, Seq::<u8>::empty()),
{
    assert(split_frames(Seq::<u8>::empty()) == (Seq::<Seq<u8>>::empty(), Seq::<u8>::empty()));
    lemma_feed_flatten(Seq::empty(), chunks);
    assert(Seq::<u8>::empty() + chunks.flatten() =~= messages.flatten());
    lemma_split_messages(messages);
}

/// A whole message whose tags this library does not know is no error: it decodes to
/// `Payload::Unknown`, and the reader hands it out by its declared size alone, so that the
/// messages after it are read as if it were not there.
pub proof fn lemma_unknown_skipped(m: Seq<u8>, rest: Seq<u8>)
    requires
        is_frame(m),
        m.len() >= HEADER_LEN + secondary_len(layer_of(m)),
        !known(layer_of(m), tag_of(m)),
    ensures
        frame_error(m) is None,
        forall|p: Payload| #[trigger]
            payload_matches(layer_of(m), tag_of(m), body_of(m), p) ==> p is Unknown,
        split_frames(m + rest).0 == seq![m] + split_frames(rest).0,
        split_frames(m + rest).1 == split_frames(rest).1,
{
    let s = m + rest;
    assert(s.subrange(8, 12) =~= m.subrange(8, 12));
    assert(declared_size(s) == m.len());
    assert(s.take(m.len() as int) =~= m);
    assert(s.skip(m.len() as int) =~= rest);
}

/// A message framed with `framed` is one whole message whose tags, correlation field and
/// payload bytes are those given, and its payload reads back as the value that was written;
/// so a message written with `Message::new` decodes back, through `decode_frame`, to the
/// same payload.
pub proof fn lemma_framed_round_trip<T: ReadFromBytes>(layer: u32, tag: u32, kind: Kind, m: T::V)
    requires
        T::spec_fits(m),
        T::spec_bytes(m).len() + 24 <= u32::MAX,
        layer != fptc::LAYER_TAG,
        layer != msex::LAYER_TAG,
    ensures
        is_frame(framed(layer, tag, kind, T::spec_bytes(m))),
        layer_of(framed(layer, tag, kind, T::spec_bytes(m))) == layer,
        tag_of(framed(layer, tag, kind, T::spec_bytes(m))) == tag,
        Header::spec_parse(framed(layer, tag, kind, T::spec_bytes(m))) == Some(
            (spec_base_header(layer, kind, (T::spec_bytes(m).len() + 24) as u32), 20nat),
        ),
        body_of(framed(layer, tag, kind, T::spec_bytes(m))) == T::spec_bytes(m),
        T::spec_parse(body_of(framed(layer, tag, kind, T::spec_bytes(m)))) == Some(
            (m, T::spec_bytes(m).len()),
        ),
{
    let b = T::spec_bytes(m);
    let size = (b.len() + 24) as u32;
    let h = spec_layer_header(layer, tag, kind, size);
    let s = framed(layer, tag, kind, b);
    LayerHeader::lemma_parse_bytes(h, b);
    Header::lemma_parse_bytes(h.citp_header, le32(tag) + b);
    assert(s =~= Header::spec_bytes(h.citp_header) + (le32(tag) + b));
    assert(s.skip(20) =~= le32(tag) + b);
    u32::lemma_parse_bytes(tag, b);
    assert(s.skip(20)[0] == s[20] && s.skip(20)[1] == s[21] && s.skip(20)[2] == s[22] && s.skip(20)[3]
        == s[23]);
    assert(body_of(s) =~= b);
    T::lemma_parse_bytes(m, Seq::empty());
    assert(b + Seq::<u8>::empty() =~= b);
}

/// Appends `src[from..to]` to `out`.
fn append_range(out: &mut Vec<u8>, src: &[u8], from: usize, to: usize)
    requires
        from <= to <= src@.len(),
    ensures
        final(out)@ == old(out)@ + src@.subrange(from as int, to as int),
{
    let ghost start = out@;
    let mut i = from;
    while i < to
        invariant
            from <= i <= to,
            to <= src@.len(),
            out@ == start + src@.subrange(from as int, i as int),
        decreases to - i,
    {
        out.push(src[i]);
        proof {
            assert(out@ =~= start + src@.subrange(from as int, i + 1));
        }
        i = i + 1;
    }
}

/// Accumulates the bytes of a connection and hands out its messages whole.
pub struct FrameReader {
    pending: Vec<u8>,
}

impl View for FrameReader {
    type V = Seq<u8>;

    /// The bytes received and not yet handed out.
    closed spec fn view(&self) -> Seq<u8> {
        self.pending@
    }
}

impl FrameReader {
    /// A reader that holds nothing.
    pub fn new() -> (r: FrameReader)
        ensures
            r@ == Seq::<u8>::empty(),
    {
        FrameReader { pending: Vec::new() }
    }

    /// The number of bytes held, received and not yet handed out.
    pub fn pending_len(&self) -> (r: usize)
        ensures
            r == self@.len(),
    {
        self.pending.len()
    }

    /// Takes in the bytes `data` and hands out every message that is now whole, in order,
    /// keeping the bytes that follow them. Fails with `Malformed`, a fatal error, when the
    /// bytes held then start with a header that declares less than a header's size.
    pub fn receive(&mut self, data: &[u8]) -> (r: Result<Vec<Vec<u8>>, CodecError>)
        ensures
            final(self)@ == split_frames(old(self)@ + data@).1,
            r is Err <==> stalled(final(self)@),
            r is Err ==> r == Err::<Vec<Vec<u8>>, CodecError>(CodecError::Malformed),
            r matches Ok(frames) ==> views(frames@) == split_frames(old(self)@ + data@).0,
    {
        let mut all: Vec<u8> = Vec::new();
        let held = self.pending.as_slice();
        append_range(&mut all, held, 0, held.len());
        append_range(&mut all, data, 0, data.len());
        proof {
            assert(all@ =~= old(self)@ + data@);
        }
        let ghost whole = all@;
        let mut frames: Vec<Vec<u8>> = Vec::new();
        let mut cur: usize = 0;
        proof {
            assert(whole.skip(0) =~= whole);
            assert(views(frames@) + split_frames(whole).0 =~= split_frames(whole).0);
        }
        while all.len() - cur >= HEADER_LEN
            invariant
                cur <= all@.len(),
                all@ == whole,
                split_frames(whole).0 == views(frames@) + split_frames(whole.skip(cur as int)).0,
                split_frames(whole).1 == split_frames(whole.skip(cur as int)).1,
                whole == old(self)@ + data@,
            ensures
                cur <= all@.len(),
                all@ == whole,
                split_frames(whole).0 == views(frames@),
                split_frames(whole).1 == whole.skip(cur as int),
                !stalled(whole.skip(cur as int)),
            decreases all@.len() - cur,
        {
            let ghost tail = whole.skip(cur as int);
            let size = read_le32(all.as_slice(), cur + 8) as usize;
            proof {
                assert(declared_size(tail) == size);
            }
            if size < HEADER_LEN {
                let mut left: Vec<u8> = Vec::new();
                append_range(&mut left, all.as_slice(), cur, all.len());
                proof {
                    assert(left@ =~= tail);
                    assert(split_frames(tail).1 == tail);
                }
                self.pending = left;
                return Err(CodecError::Malformed);
            }
            if size > all.len() - cur {
                proof {
                    assert(views(frames@) + Seq::<Seq<u8>>::empty() =~= views(frames@));
                }
                break;
            }
            let mut frame: Vec<u8> = Vec::new();
            append_range(&mut frame, all.as_slice(), cur, cur + size);
            proof {
                assert(frame@ =~= tail.take(size as int));
                assert(tail.skip(size as int) =~= whole.skip(cur + size));
                assert(views(frames@.push(frame)) =~= views(frames@).push(frame@));
            }
            frames.push(frame);
            cur = cur + size;
        }
        let mut left: Vec<u8> = Vec::new();
        append_range(&mut left, all.as_slice(), cur, all.len());
        proof {
            assert(left@ =~= whole.skip(cur as int));
        }
        self.pending = left;
        Ok(frames)
    }
}

} // verus!
