//! The decisions of a peer session, as a function from the current state and an event to
//! the next state and the actions to perform. The caller owns the sockets and the clock: it
//! performs the actions and reports what happened as events.
//!
//! A session joins the multicast discovery group, waits for a peer that announces a TCP
//! port, connects to it and introduces itself, answers the peer's requests until the peer
//! asks for the fixture list, and then streams one laser frame per feed on every tick,
//! announcing itself on the multicast group every hundred ticks.

use crate::dispatch::{body_of, decode_frame, frame_error, layer_of, tag_of, Payload};
use crate::protocol::caex::{
    EnterShow, FixtureList, FixtureListRequest, GetLaserFeedList, LaserFeedList,
    LAYER_TAG as CAEX,
};
use crate::protocol::pinf::{PLoc, PNam, LAYER_TAG as PINF};
use crate::protocol::{frame_message, framed, Kind};
use crate::wire::{u16_at, views, CodecError, ReadFromBytes, SizeBytes, WriteToBytes};
use vstd::prelude::*;

verus! {

/// How often, in ticks, a streaming session announces itself on the multicast group.
pub const ANNOUNCE_INTERVAL: u32 = 100;

/// The phase of a session.
#[derive(Clone, Copy, Debug, PartialEq, Eq, Structural)]
pub enum State {
    /// Joining the multicast discovery group.
    Init,
    /// Waiting for a peer that announces a TCP port.
    Discover,
    /// Connected: answering the peer's requests.
    Request,
    /// Streaming laser frames.
    Stream,
}

/// What happened, as the caller reports it.
#[derive(Clone, Debug)]
pub enum Event {
    /// The attempt to join the multicast group ended; `true` when it succeeded.
    Joined(bool),
    /// A datagram arrived on the discovery socket.
    Datagram(Vec<u8>),
    /// A whole message arrived on the TCP connection.
    TcpMessage(Vec<u8>),
    /// The frame timer fired.
    Tick,
}

/// The model of an `Event`.
pub ghost enum EventView {
    Joined(bool),
    Datagram(Seq<u8>),
    TcpMessage(Seq<u8>),
    Tick,
}

impl View for Event {
    type V = EventView;

    open spec fn view(&self) -> EventView {
        match self {
            Event::Joined(ok) => EventView::Joined(*ok),
            Event::Datagram(d) => EventView::Datagram(d@),
            Event::TcpMessage(m) => EventView::TcpMessage(m@),
            Event::Tick => EventView::Tick,
        }
    }
}

/// What the caller is to do.
#[derive(Clone, Debug, PartialEq, Eq)]
pub enum Action {
    /// Try to join the multicast discovery group.
    JoinGroup,
    /// Open a TCP connection on `port` to the peer that announced itself as `name`.
    Connect { port: u16, name: Vec<u8> },
    /// Send these bytes on the TCP connection.
    SendTcp(Vec<u8>),
    /// Send these bytes to the multicast group.
    Multicast(Vec<u8>),
    /// Multicast frame `sequence` of feed `feed_index`.
    SendFeedFrame { feed_index: u8, sequence: u32 },
}

/// The model of an `Action`.
pub ghost enum ActionView {
    JoinGroup,
    Connect { port: u16, name: Seq<u8> },
    SendTcp(Seq<u8>),
    Multicast(Seq<u8>),
    SendFeedFrame { feed_index: u8, sequence: u32 },
}

impl View for Action {
    type V = ActionView;

    open spec fn view(&self) -> ActionView {
        match self {
            Action::JoinGroup => ActionView::JoinGroup,
            Action::Connect { port, name } => ActionView::Connect { port: *port, name: name@ },
            Action::SendTcp(b) => ActionView::SendTcp(b@),
            Action::Multicast(b) => ActionView::Multicast(b@),
            Action::SendFeedFrame { feed_index, sequence } => ActionView::SendFeedFrame {
                feed_index: *feed_index,
                sequence: *sequence,
            },
        }
    }
}

/// The port and name of the peer that the datagram `d` announces, when it is a whole PLoc
/// message that names a TCP port other than 0.
pub open spec fn announced_peer(d: Seq<u8>) -> Option<(u16, Seq<u8>)> {
    if frame_error(d) is None && layer_of(d) == PINF && tag_of(d) == PLoc::CONTENT_TYPE {
        let m = PLoc::spec_parse(body_of(d)).unwrap().0;
        if m.listening_tcp_port != 0 {
            Some((m.listening_tcp_port, m.name))
        } else {
            None
        }
    } else {
        None
    }
}

/// The message tag of the CAEX request `m`, with its correlation field, when `m` is a whole
/// CAEX message.
pub open spec fn caex_request(m: Seq<u8>) -> Option<(u32, u16)> {
    if frame_error(m) is None && layer_of(m) == CAEX {
        Some((tag_of(m), u16_at(m, 6)))
    } else {
        None
    }
}

/// The index of the first `b` in `s` at or after `i`, if there is one.
pub open spec fn find_from(s: Seq<u8>, b: u8, i: int) -> Option<int>
    decreases s.len() - i,
{
    if i < 0 || i >= s.len() {
        None
    } else if s[i] == b {
        Some(i)
    } else {
        find_from(s, b, i + 1)
    }
}

/// Where the host stands in a peer name of the form "Name (host)": the bounds of the text
/// between the first '(' and the first ')' after it.
pub open spec fn spec_host_in_name(name: Seq<u8>) -> Option<(int, int)> {
    match find_from(name, 0x28, 0) {
        Some(open) => match find_from(name, 0x29, open + 1) {
            Some(close) => Some((open + 1, close)),
            None => None,
        },
        None => None,
    }
}

fn find_byte(s: &[u8], b: u8, from: usize) -> (r: Option<usize>)
    requires
        from <= s@.len(),
    ensures
        r matches Some(i) ==> find_from(s@, b, from as int) == Some(i as int),
        r is None ==> find_from(s@, b, from as int) is None,
{
    let mut i = from;
    while i < s.len()
        invariant
            from <= i <= s@.len(),
            find_from(s@, b, from as int) == find_from(s@, b, i as int),
        decreases s@.len() - i,
    {
        if s[i] == b {
            return Some(i);
        }
        i = i + 1;
    }
    None
}

/// The bounds of the host in a peer name of the form "Name (host)", as the peer location
/// messages of Capture write it; `None` when the name holds no such part.
pub fn host_in_name(name: &[u8]) -> (r: Option<(usize, usize)>)
    ensures
        r matches Some((a, b)) ==> spec_host_in_name(name@) == Some((a as int, b as int)) && a
            <= b <= name@.len(),
        r is None ==> spec_host_in_name(name@) is None,
{
    let len = name.len();
    match find_byte(name, 0x28, 0) {
        Some(open) => {
            proof {
                lemma_find_from_bound(name@, 0x28, 0);
            }
            assert(open < len);
            match find_byte(name, 0x29, open + 1) {
                Some(close) => {
                    proof {
                        lemma_find_from_bound(name@, 0x29, open + 1);
                    }
                    Some((open + 1, close))
                },
                None => None,
            }
        },
        None => None,
    }
}

proof fn lemma_find_from_bound(s: Seq<u8>, b: u8, i: int)
    ensures
        find_from(s, b, i) is Some ==> i <= find_from(s, b, i).unwrap() < s.len() && s[find_from(
            s,
            b,
            i,
        ).unwrap()] == b,
    decreases s.len() - i,
{
    if 0 <= i < s.len() && s[i] != b {
        lemma_find_from_bound(s, b, i + 1);
    }
}

/// The model of a `Session`.
pub ghost struct SessionView {
    pub state: State,
    /// The sequence number of the next laser frame.
    pub frame_num: u32,
    /// The number of laser feeds.
    pub feed_count: u8,
    /// The payload of the PNam message sent on connection.
    pub name: Seq<u8>,
    /// The payload of the PLoc message that announces this peer.
    pub location: Seq<u8>,
    /// The payload of the EnterShow message that acknowledges the peer's.
    pub show: Seq<u8>,
    /// The payload of the LaserFeedList message.
    pub feed_list: Seq<u8>,
    /// The payload of the FixtureList message: an existing patch list with no fixtures.
    pub fixture_list: Seq<u8>,
}

impl SessionView {
    /// Every payload can be framed: its size with both headers fits in 32 bits.
    pub open spec fn wf(self) -> bool {
        &&& self.name.len() + 24 <= u32::MAX
        &&& self.location.len() + 24 <= u32::MAX
        &&& self.show.len() + 24 <= u32::MAX
        &&& self.feed_list.len() + 24 <= u32::MAX
        &&& self.fixture_list.len() + 24 <= u32::MAX
    }

    pub open spec fn with_state(self, state: State) -> SessionView {
        SessionView { state, ..self }
    }

    /// The announcement of this peer on the multicast group.
    pub open spec fn announcement(self) -> Seq<u8> {
        framed(PINF, PLoc::CONTENT_TYPE, Kind { value: 0 }, self.location)
    }

    /// The frames of one tick of streaming, one per feed.
    pub open spec fn feed_frames(self) -> Seq<ActionView> {
        Seq::new(
            self.feed_count as nat,
            |i: int| ActionView::SendFeedFrame { feed_index: i as u8, sequence: self.frame_num },
        )
    }
}

/// The next state of a session and the actions to perform, when `e` happens in `s`.
pub open spec fn spec_step(s: SessionView, e: EventView) -> (SessionView, Seq<ActionView>) {
    match s.state {
        State::Init => match e {
            EventView::Joined(true) => (s.with_state(State::Discover), Seq::empty()),
            EventView::Tick => (s, seq![ActionView::JoinGroup]),
            _ => (s, Seq::empty()),
        },
        State::Discover => match e {
            EventView::Datagram(d) => match announced_peer(d) {
                Some((port, name)) => (
                    s.with_state(State::Request),
                    seq![
                        ActionView::Connect { port, name },
                        ActionView::SendTcp(
                            framed(PINF, PNam::CONTENT_TYPE, Kind { value: 0 }, s.name),
                        ),
                    ],
                ),
                None => (s, Seq::empty()),
            },
            _ => (s, Seq::empty()),
        },
        State::Request => match e {
            EventView::TcpMessage(m) => match caex_request(m) {
                Some((tag, index)) => if tag == EnterShow::CONTENT_TYPE {
                    (
                        s,
                        seq![
                            ActionView::SendTcp(
                                framed(CAEX, EnterShow::CONTENT_TYPE, Kind { value: index }, s.show),
                            ),
                        ],
                    )
                } else if tag == GetLaserFeedList::CONTENT_TYPE {
                    (
                        s,
                        seq![
                            ActionView::SendTcp(
                                framed(
                                    CAEX,
                                    LaserFeedList::CONTENT_TYPE,
                                    Kind { value: index },
                                    s.feed_list,
                                ),
                            ),
                        ],
                    )
                } else if tag == FixtureListRequest::CONTENT_TYPE {
                    (
                        s.with_state(State::Stream),
                        seq![
                            ActionView::SendTcp(
                                framed(
                                    CAEX,
                                    FixtureList::CONTENT_TYPE,
                                    Kind { value: index },
                                    s.fixture_list,
                                ),
                            ),
                        ],
                    )
                } else {
                    (s, Seq::empty())
                },
                None => (s, Seq::empty()),
            },
            EventView::Tick => (s, seq![ActionView::Multicast(s.announcement())]),
            _ => (s, Seq::empty()),
        },
        State::Stream => match e {
            EventView::Tick => {
                let next = SessionView {
                    frame_num: if s.frame_num == u32::MAX {
                        0
                    } else {
                        (s.frame_num + 1) as u32
                    },
                    ..s
                };
                if s.frame_num % ANNOUNCE_INTERVAL == 0 {
                    (next, seq![ActionView::Multicast(s.announcement())] + s.feed_frames())
                } else {
                    (next, s.feed_frames())
                }
            },
            _ => (s, Seq::empty()),
        },
    }
}

/// A datagram that announces a peer with TCP port 0 never makes a session connect: in every
/// state the session stays as it is and asks for no action.
pub proof fn lemma_port_zero_never_connects(s: SessionView, d: Seq<u8>)
    requires
        frame_error(d) is None,
        layer_of(d) == PINF,
        tag_of(d) == PLoc::CONTENT_TYPE,
        PLoc::spec_parse(body_of(d)).unwrap().0.listening_tcp_port == 0,
    ensures
        spec_step(s, EventView::Datagram(d)) == (s, Seq::<ActionView>::empty()),
{
}

/// In the request phase, a whole FixtureListRequest message gets exactly one answer, a
/// FixtureList message that repeats its correlation field, and moves the session to
/// streaming.
pub proof fn lemma_fixture_list_request(s: SessionView, m: Seq<u8>)
    requires
        s.state == State::Request,
        caex_request(m) is Some,
        caex_request(m).unwrap().0 == FixtureListRequest::CONTENT_TYPE,
    ensures
        spec_step(s, EventView::TcpMessage(m)) == (
            s.with_state(State::Stream),
            seq![
                ActionView::SendTcp(
                    framed(
                        CAEX,
                        FixtureList::CONTENT_TYPE,
                        Kind { value: caex_request(m).unwrap().1 },
                        s.fixture_list,
                    ),
                ),
            ],
        ),
{
}

/// A peer session.
pub struct Session {
    state: State,
    frame_num: u32,
    feed_count: u8,
    name: Vec<u8>,
    location: Vec<u8>,
    show: Vec<u8>,
    feed_list: Vec<u8>,
    fixture_list: Vec<u8>,
}

impl View for Session {
    type V = SessionView;

    closed spec fn view(&self) -> SessionView {
        SessionView {
            state: self.state,
            frame_num: self.frame_num,
            feed_count: self.feed_count,
            name: self.name@,
            location: self.location@,
            show: self.show@,
            feed_list: self.feed_list@,
            fixture_list: self.fixture_list@,
        }
    }
}

/// Encodes a payload on its own, failing with `Oversize` when it cannot be written or when
/// it leaves no room for the headers in a 32-bit message size.
fn encode_payload<T: WriteToBytes>(payload: &T) -> (r: Result<Vec<u8>, CodecError>)
    ensures
        r is Ok <==> T::spec_fits(payload@) && T::spec_bytes(payload@).len() + 24 <= u32::MAX,
        r matches Ok(v) ==> v@ == T::spec_bytes(payload@),
        r is Err ==> r == Err::<Vec<u8>, CodecError>(CodecError::Oversize),
{
    let mut v: Vec<u8> = Vec::new();
    payload.write_to_bytes(&mut v)?;
    proof {
        assert(v@ =~= T::spec_bytes(payload@));
    }
    if v.len() > 0xffff_ffff - 24 {
        return Err(CodecError::Oversize);
    }
    Ok(v)
}

/// The bytes of the FixtureList that answers a request: an existing patch list with no
/// fixtures.
pub open spec fn empty_fixture_list() -> Seq<u8> {
    seq![0u8, 0u8, 0u8]
}

impl Session {
    /// A session in `State::Init` that will introduce itself with `name`, announce itself
    /// with `location`, acknowledge the peer's show with `show` and offer the feeds of
    /// `feeds`. Fails with `Oversize` when one of them cannot be written in one message.
    pub fn new(name: &PNam, location: &PLoc, show: &EnterShow, feeds: &LaserFeedList) -> (r: Result<Session, CodecError>)
        ensures
            r is Ok <==> {
                &&& PNam::spec_fits(name@) && PNam::spec_bytes(name@).len() + 24 <= u32::MAX
                &&& PLoc::spec_fits(location@) && PLoc::spec_bytes(location@).len() + 24 <= u32::MAX
                &&& EnterShow::spec_fits(show@) && EnterShow::spec_bytes(show@).len() + 24 <= u32::MAX
                &&& LaserFeedList::spec_fits(feeds@) && LaserFeedList::spec_bytes(feeds@).len() + 24
                    <= u32::MAX
            },
            r matches Ok(s) ==> {
                &&& s@.state == State::Init
                &&& s@.frame_num == 0
                &&& s@.feed_count == feeds@.feed_names.len()
                &&& s@.name == PNam::spec_bytes(name@)
                &&& s@.location == PLoc::spec_bytes(location@)
                &&& s@.show == EnterShow::spec_bytes(show@)
                &&& s@.feed_list == LaserFeedList::spec_bytes(feeds@)
                &&& s@.fixture_list == empty_fixture_list()
                &&& s@.wf()
            },
            r is Err ==> r == Err::<Session, CodecError>(CodecError::Oversize),
    {
        let name = encode_payload(name)?;
        let location = encode_payload(location)?;
        let show = encode_payload(show)?;
        let feed_list = encode_payload(feeds)?;
        let fixture_list: Vec<u8> = vec![0u8, 0u8, 0u8];
        proof {
            assert(fixture_list@ =~= empty_fixture_list());
        }
        Ok(
            Session {
                state: State::Init,
                frame_num: 0,
                feed_count: feeds.feed_names.len() as u8,
                name,
                location,
                show,
                feed_list,
                fixture_list,
            },
        )
    }

    /// The phase of the session.
    pub fn state(&self) -> (r: State)
        ensures
            r == self@.state,
    {
        self.state
    }

    /// The sequence number of the next laser frame.
    pub fn frame_num(&self) -> (r: u32)
        ensures
            r == self@.frame_num,
    {
        self.frame_num
    }

    fn announcement(&self) -> (r: Vec<u8>)
        requires
            self@.wf(),
        ensures
            r@ == self@.announcement(),
    {
        frame_message(PINF, PLoc::CONTENT_TYPE, Kind { value: 0 }, self.location.as_slice())
    }

    #[verifier::rlimit(30)]
    fn step_discover(&mut self, d: &Vec<u8>) -> (r: Vec<Action>)
        requires
            old(self)@.wf(),
            old(self)@.state == State::Discover,
        ensures
            (final(self)@, views(r@)) == spec_step(old(self)@, EventView::Datagram(d@)),
    {
        let mut actions: Vec<Action> = Vec::new();
        if let Ok(frame) = decode_frame(d.as_slice()) {
            if frame.header.content_type == PINF && frame.content_type == PLoc::CONTENT_TYPE {
                if let Payload::PLoc(p) = frame.payload {
                    if p.listening_tcp_port != 0 {
                        let name = p.name.into_bytes();
                        let pnam = frame_message(
                            PINF,
                            PNam::CONTENT_TYPE,
                            Kind { value: 0 },
                            self.name.as_slice(),
                        );
                        actions.push(Action::Connect { port: p.listening_tcp_port, name });
                        actions.push(Action::SendTcp(pnam));
                        self.state = State::Request;
                    }
                }
            }
        }
        proof {
            assert(views(actions@) =~= spec_step(old(self)@, EventView::Datagram(d@)).1);
        }
        actions
    }

    fn step_request(&mut self, m: &Vec<u8>) -> (r: Vec<Action>)
        requires
            old(self)@.wf(),
            old(self)@.state == State::Request,
        ensures
            (final(self)@, views(r@)) == spec_step(old(self)@, EventView::TcpMessage(m@)),
    {
        let mut actions: Vec<Action> = Vec::new();
        if let Ok(frame) = decode_frame(m.as_slice()) {
            if frame.header.content_type == CAEX {
                let kind = Kind::in_response_to(frame.header.kind);
                let tag = frame.content_type;
                if tag == EnterShow::CONTENT_TYPE {
                    actions.push(
                        Action::SendTcp(
                            frame_message(CAEX, EnterShow::CONTENT_TYPE, kind, self.show.as_slice()),
                        ),
                    );
                } else if tag == GetLaserFeedList::CONTENT_TYPE {
                    actions.push(
                        Action::SendTcp(
                            frame_message(
                                CAEX,
                                LaserFeedList::CONTENT_TYPE,
                                kind,
                                self.feed_list.as_slice(),
                            ),
                        ),
                    );
                } else if tag == FixtureListRequest::CONTENT_TYPE {
                    actions.push(
                        Action::SendTcp(
                            frame_message(
                                CAEX,
                                FixtureList::CONTENT_TYPE,
                                kind,
                                self.fixture_list.as_slice(),
                            ),
                        ),
                    );
                    self.state = State::Stream;
                }
            }
        }
        proof {
            assert(views(actions@) =~= spec_step(old(self)@, EventView::TcpMessage(m@)).1);
        }
        actions
    }

    fn step_stream_tick(&mut self) -> (r: Vec<Action>)
        requires
            old(self)@.wf(),
            old(self)@.state == State::Stream,
        ensures
            (final(self)@, views(r@)) == spec_step(old(self)@, EventView::Tick),
    {
        let mut actions: Vec<Action> = Vec::new();
        let ghost prefix: Seq<ActionView> = if self.frame_num % ANNOUNCE_INTERVAL == 0 {
            seq![ActionView::Multicast(self@.announcement())]
        } else {
            Seq::empty()
        };
        if self.frame_num % ANNOUNCE_INTERVAL == 0 {
            actions.push(Action::Multicast(self.announcement()));
        }
        proof {
            assert(views(actions@) =~= prefix);
        }
        let ghost frames = self@.feed_frames();
        let count = self.feed_count;
        let sequence = self.frame_num;
        let mut i: u8 = 0;
        while i < count
            invariant
                i <= count,
                count == frames.len(),
                frames == old(self)@.feed_frames(),
                sequence == old(self)@.frame_num,
                views(actions@) == prefix + frames.take(i as int),
            decreases count - i,
        {
            let ghost before = actions@;
            actions.push(Action::SendFeedFrame { feed_index: i, sequence });
            proof {
                assert(views(actions@) =~= views(before).push(
                    ActionView::SendFeedFrame { feed_index: i, sequence },
                ));
                assert(frames[i as int] == ActionView::SendFeedFrame { feed_index: i, sequence });
                assert(views(actions@) =~= prefix + frames.take(i + 1));
            }
            i = i + 1;
        }
        proof {
            assert(frames.take(i as int) =~= frames);
        }
        self.frame_num = if self.frame_num == 0xffff_ffff {
            0
        } else {
            self.frame_num + 1
        };
        proof {
            assert(views(actions@) =~= spec_step(old(self)@, EventView::Tick).1);
        }
        actions
    }

    /// Takes the event `e` into account: moves to the next state and returns the actions to
    /// perform, in order.
    pub fn step(&mut self, e: &Event) -> (r: Vec<Action>)
        requires
            old(self)@.wf(),
        ensures
            (final(self)@, views(r@)) == spec_step(old(self)@, e@),
            final(self)@.wf(),
    {
        match self.state {
            State::Init => {
                let mut actions: Vec<Action> = Vec::new();
                match e {
                    Event::Joined(true) => {
                        self.state = State::Discover;
                    },
                    Event::Tick => {
                        actions.push(Action::JoinGroup);
                    },
                    _ => {},
                }
                proof {
                    assert(views(actions@) =~= spec_step(old(self)@, e@).1);
                }
                actions
            },
            State::Discover => match e {
                Event::Datagram(d) => self.step_discover(d),
                _ => {
                    let actions: Vec<Action> = Vec::new();
                    proof {
                        assert(views(actions@) =~= spec_step(old(self)@, e@).1);
                    }
                    actions
                },
            },
            State::Request => match e {
                Event::TcpMessage(m) => self.step_request(m),
                Event::Tick => {
                    let mut actions: Vec<Action> = Vec::new();
                    actions.push(Action::Multicast(self.announcement()));
                    proof {
                        assert(views(actions@) =~= spec_step(old(self)@, e@).1);
                    }
                    actions
                },
                _ => {
                    let actions: Vec<Action> = Vec::new();
                    proof {
                        assert(views(actions@) =~= spec_step(old(self)@, e@).1);
                    }
                    actions
                },
            },
            State::Stream => match e {
                Event::Tick => self.step_stream_tick(),
                _ => {
                    let actions: Vec<Action> = Vec::new();
                    proof {
                        assert(views(actions@) =~= spec_step(old(self)@, e@).1);
                    }
                    actions
                },
            },
        }
    }
}

} // verus!
