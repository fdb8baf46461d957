//! The message-channel state machine: every decision the duplex adapter
//! makes, frame by frame. The raw transport stays with the caller, which
//! feeds in what it read and carries away what is to be written; the channel
//! decides what the consumer sees, which pongs go out, and when the message
//! sequence ends.
use vstd::prelude::*;
use crate::message::{Message, MessageInner};

verus! {

/// A protocol frame, as the framing layer decodes and encodes it.
#[derive(Debug, PartialEq, Eq)]
pub enum Frame {
    Text(String),
    Binary(Vec<u8>),
    Ping(Vec<u8>),
    Pong(Vec<u8>),
    Close,
}

/// What the transport reports when asked for the next frame: a decoded
/// frame, a clean end of file, or a decode/IO failure.
#[derive(Debug, PartialEq, Eq)]
pub enum Inbound {
    Frame(Frame),
    Eof,
    Fault,
}

/// The lifecycle of one connection: open; closing, once this side has sent a
/// Close frame; closed, once a Close frame or end-of-file arrived or the
/// transport failed.
#[derive(Debug, PartialEq, Eq)]
pub enum ChannelState {
    Open,
    Closing,
    Closed,
}

/// What one poll of the producing side decides: yield a content message to
/// the consumer, write a pong back, swallow the frame silently, end the
/// sequence normally, or end it with the terminal error.
#[derive(Debug, PartialEq, Eq)]
pub enum Step {
    Yield(Message),
    Pong(Vec<u8>),
    Silent,
    Done,
    Failed,
}

/// How a run of the producing side left the message sequence: still open
/// (the transport simply has nothing more yet), ended normally, or ended in
/// error.
#[derive(Debug, PartialEq, Eq)]
pub enum Terminal {
    Pending,
    Closed,
    Failed,
}

/// The frame a message goes out as: text to a text frame, binary to a binary
/// frame, the payload unchanged.
pub open spec fn frame_of(m: Message) -> Frame {
    match m.inner {
        MessageInner::Text(s) => Frame::Text(s),
        MessageInner::Binary(v) => Frame::Binary(v),
    }
}

/// The producing side's transition for one transport report. A closed
/// channel reports a normal end forever; otherwise text and binary frames
/// are yielded, a ping is answered with a pong of the same payload exactly
/// when the outbound path is ready (and dropped silently when it is not), a
/// pong is discarded, a Close frame or end-of-file closes the channel
/// normally, and a transport failure closes it with the terminal error.
pub open spec fn spec_poll(st: ChannelState, ev: Inbound, pong_ready: bool) -> (
    ChannelState,
    Step,
) {
    if st is Closed {
        (st, Step::Done)
    } else {
        match ev {
            Inbound::Frame(Frame::Text(s)) => (
                st,
                Step::Yield(Message { inner: MessageInner::Text(s) }),
            ),
            Inbound::Frame(Frame::Binary(v)) => (
                st,
                Step::Yield(Message { inner: MessageInner::Binary(v) }),
            ),
            Inbound::Frame(Frame::Ping(p)) => (
                st,
                if pong_ready {
                    Step::Pong(p)
                } else {
                    Step::Silent
                },
            ),
            Inbound::Frame(Frame::Pong(_)) => (st, Step::Silent),
            Inbound::Frame(Frame::Close) => (ChannelState::Closed, Step::Done),
            Inbound::Eof => (ChannelState::Closed, Step::Done),
            Inbound::Fault => (ChannelState::Closed, Step::Failed),
        }
    }
}

/// What submitting a message came to: it went out as its frame, or the
/// transport was not ready and the caller gets the message back to retry.
#[derive(Debug, PartialEq, Eq)]
pub enum SendOutcome {
    Sent(Frame),
    NotReady(Message),
}

/// A WebSocket message channel: the exclusive owner of one upgraded
/// connection's protocol state. It presents only content frames to the
/// consumer and handles ping, pong and close internally.
pub struct WebSocket {
    pub state: ChannelState,
}

impl WebSocket {
    /// A channel for a freshly upgraded connection.
    pub fn new() -> (w: WebSocket)
        ensures
            w.state is Open,
    {
        WebSocket { state: ChannelState::Open }
    }

    /// One poll of the producing side: `ev` is what the transport reported,
    /// `pong_ready` whether the outbound path can take an immediate pong.
    /// On a `Pong` or `Silent` step the caller keeps pulling frames without
    /// returning to the consumer.
    pub fn poll(&mut self, ev: Inbound, pong_ready: bool) -> (r: Step)
        ensures
            (final(self).state, r) == spec_poll(old(self).state, ev, pong_ready),
    {
        match self.state {
            ChannelState::Closed => Step::Done,
            _ => match ev {
                Inbound::Frame(f) => match f {
                    Frame::Text(s) => Step::Yield(Message { inner: MessageInner::Text(s) }),
                    Frame::Binary(v) => Step::Yield(Message { inner: MessageInner::Binary(v) }),
                    Frame::Ping(p) => {
                        if pong_ready {
                            Step::Pong(p)
                        } else {
                            Step::Silent
                        }
                    },
                    Frame::Pong(_) => Step::Silent,
                    Frame::Close => {
                        self.state = ChannelState::Closed;
                        Step::Done
                    },
                },
                Inbound::Eof => {
                    self.state = ChannelState::Closed;
                    Step::Done
                },
                Inbound::Fault => {
                    self.state = ChannelState::Closed;
                    Step::Failed
                },
            },
        }
    }

    /// Submit a message on the consuming side. With the transport ready it
    /// goes out as its frame, payload unchanged; otherwise the caller gets
    /// it back to retry later — nothing is buffered on its behalf.
    pub fn start_send(&mut self, item: Message, transport_ready: bool) -> (r: SendOutcome)
        ensures
            *final(self) == *old(self),
            r == (if transport_ready {
                SendOutcome::Sent(frame_of(item))
            } else {
                SendOutcome::NotReady(item)
            }),
    {
        if transport_ready {
            match item.inner {
                MessageInner::Text(s) => SendOutcome::Sent(Frame::Text(s)),
                MessageInner::Binary(v) => SendOutcome::Sent(Frame::Binary(v)),
            }
        } else {
            SendOutcome::NotReady(item)
        }
    }

    /// Begin a graceful shutdown: emit a Close frame if none has been sent
    /// yet; a no-op once closing has already commenced.
    pub fn close(&mut self) -> (r: Option<Frame>)
        ensures
            old(self).state is Open ==> (final(self).state is Closing && r == Some(Frame::Close)),
            !(old(self).state is Open) ==> (*final(self) == *old(self) && r is None),
    {
        match self.state {
            ChannelState::Open => {
                self.state = ChannelState::Closing;
                Some(Frame::Close)
            },
            _ => None,
        }
    }
}

/// The producing side's transcript for a whole sequence of transport
/// reports: the messages yielded in order, the pong payloads written in
/// order, how the sequence ended, and the channel state it left behind.
/// Nothing past a normal or failing end is ever observed.
pub open spec fn spec_run(st: ChannelState, evs: Seq<Inbound>, pong_ready: bool) -> (
    Seq<Message>,
    Seq<Vec<u8>>,
    Terminal,
    ChannelState,
)
    decreases evs.len(),
{
    if evs.len() == 0 {
        (
            Seq::<Message>::empty(),
            Seq::<Vec<u8>>::empty(),
            if st is Closed {
                Terminal::Closed
            } else {
                Terminal::Pending
            },
            st,
        )
    } else {
        let stepped = spec_poll(st, evs[0], pong_ready);
        let rest = spec_run(stepped.0, evs.drop_first(), pong_ready);
        match stepped.1 {
            Step::Yield(m) => (seq![m] + rest.0, rest.1, rest.2, rest.3),
            Step::Pong(p) => (rest.0, seq![p] + rest.1, rest.2, rest.3),
            Step::Silent => rest,
            Step::Done => (
                Seq::<Message>::empty(),
                Seq::<Vec<u8>>::empty(),
                Terminal::Closed,
                stepped.0,
            ),
            Step::Failed => (
                Seq::<Message>::empty(),
                Seq::<Vec<u8>>::empty(),
                Terminal::Failed,
                stepped.0,
            ),
        }
    }
}

/// What a consumer and the peer observed over one run of the producing side.
#[derive(Debug)]
pub struct Transcript {
    pub messages: Vec<Message>,
    pub pongs: Vec<Vec<u8>>,
    pub terminal: Terminal,
}

/// Drive a fresh channel over a whole sequence of transport reports, in
/// arrival order. Content frames are yielded in order; each ping is answered
/// with a pong of its own payload exactly when the outbound path is ready;
/// a Close frame or end-of-file ends the sequence normally; a transport
/// failure ends it with the terminal error; whatever follows the end is
/// never observed.
pub fn run_inbound(events: Vec<Inbound>, pong_ready: bool) -> (t: Transcript)
    ensures
        ({
            let r = spec_run(ChannelState::Open, events@, pong_ready);
            t.messages@ == r.0 && t.pongs@ == r.1 && t.terminal == r.2
        }),
{
    let ghost goal = spec_run(ChannelState::Open, events@, pong_ready);
    let mut evs = events;
    let mut ws = WebSocket::new();
    let mut messages: Vec<Message> = Vec::new();
    let mut pongs: Vec<Vec<u8>> = Vec::new();
    let mut terminal = Terminal::Pending;
    while evs.len() > 0
        invariant
            goal == spec_run(ChannelState::Open, events@, pong_ready),
            goal.0 == messages@ + spec_run(ws.state, evs@, pong_ready).0,
            goal.1 == pongs@ + spec_run(ws.state, evs@, pong_ready).1,
            (terminal is Pending) ==> goal.2 == spec_run(ws.state, evs@, pong_ready).2,
            !(terminal is Pending) ==> goal.2 == terminal,
            (terminal is Pending) <==> !(ws.state is Closed),
        decreases evs.len(),
    {
        let ghost prev = evs@;
        let ev = evs.remove(0);
        proof {
            assert(evs@ =~= prev.drop_first());
        }
        let step = ws.poll(ev, pong_ready);
        match step {
            Step::Yield(m) => {
                let ghost ms = messages@;
                messages.push(m);
                proof {
                    assert(ms + (seq![m] + spec_run(ws.state, evs@, pong_ready).0) =~= messages@
                        + spec_run(ws.state, evs@, pong_ready).0);
                }
            },
            Step::Pong(p) => {
                let ghost ps = pongs@;
                pongs.push(p);
                proof {
                    assert(ps + (seq![p] + spec_run(ws.state, evs@, pong_ready).1) =~= pongs@
                        + spec_run(ws.state, evs@, pong_ready).1);
                }
            },
            Step::Silent => {},
            Step::Done => {
                if matches!(terminal, Terminal::Pending) {
                    terminal = Terminal::Closed;
                }
            },
            Step::Failed => {
                if matches!(terminal, Terminal::Pending) {
                    terminal = Terminal::Failed;
                }
            },
        }
        proof {
            lemma_run_closed_is_empty(ws.state, evs@, pong_ready);
        }
    }
    proof {
        assert(goal.0 =~= messages@);
        assert(goal.1 =~= pongs@);
    }
    Transcript { messages, pongs, terminal }
}

/// A closed channel observes nothing more: the rest of any run yields no
/// message, writes no pong, and ends as a normal close.
proof fn lemma_run_closed_is_empty(st: ChannelState, evs: Seq<Inbound>, pong_ready: bool)
    ensures
        st is Closed ==> spec_run(st, evs, pong_ready) == (
            Seq::<Message>::empty(),
            Seq::<Vec<u8>>::empty(),
            Terminal::Closed,
            st,
        ),
{
    if evs.len() == 0 {
    } else {
    }
}

/// Round trip: a message sent out as its frame and pulled back in by a peer
/// is yielded to that peer unchanged — the same kind, the same payload.
pub proof fn lemma_message_round_trip(st: ChannelState, m: Message, pong_ready: bool)
    requires
        !(st is Closed),
    ensures
        spec_poll(st, Inbound::Frame(frame_of(m)), pong_ready).1 == Step::Yield(m),
        spec_poll(st, Inbound::Frame(frame_of(m)), pong_ready).0 == st,
{
    match m.inner {
        MessageInner::Text(s) => {},
        MessageInner::Binary(v) => {},
    }
}

/// A ping is answered in kind: with the outbound path ready the peer gets a
/// pong carrying the ping's own payload; with it saturated the reply is
/// dropped silently — no buffering, no retry, and no error either way.
pub proof fn lemma_ping_answered(st: ChannelState, p: Vec<u8>)
    requires
        !(st is Closed),
    ensures
        spec_poll(st, Inbound::Frame(Frame::Ping(p)), true) == (st, Step::Pong(p)),
        spec_poll(st, Inbound::Frame(Frame::Ping(p)), false) == (st, Step::Silent),
{
}

/// A Close frame or an abrupt transport end-of-file is a normal end of the
/// message sequence: whatever follows, the run yields nothing further and
/// signals no error.
pub proof fn lemma_close_is_normal_end(
    st: ChannelState,
    ev: Inbound,
    rest: Seq<Inbound>,
    pong_ready: bool,
)
    requires
        !(st is Closed),
        ev == Inbound::Frame(Frame::Close) || ev == Inbound::Eof,
    ensures
        spec_run(st, seq![ev] + rest, pong_ready) == (
            Seq::<Message>::empty(),
            Seq::<Vec<u8>>::empty(),
            Terminal::Closed,
            ChannelState::Closed,
        ),
{
    assert((seq![ev] + rest)[0] == ev);
    assert((seq![ev] + rest).len() == 1 + rest.len());
}

/// A transport decode or IO failure ends the sequence with the terminal
/// error, distinguishable from a normal close.
pub proof fn lemma_fault_is_terminal_error(st: ChannelState, rest: Seq<Inbound>, pong_ready: bool)
    requires
        !(st is Closed),
    ensures
        spec_run(st, seq![Inbound::Fault] + rest, pong_ready).2 == Terminal::Failed,
        spec_run(st, seq![Inbound::Fault] + rest, pong_ready).2 != Terminal::Closed,
{
    assert((seq![Inbound::Fault] + rest)[0] == Inbound::Fault);
    assert((seq![Inbound::Fault] + rest).len() == 1 + rest.len());
}

/// Over a whole run: a ping answered while the outbound path is ready puts a
/// pong with the ping's own payload on the wire, ahead of whatever follows;
/// under backpressure the run goes on exactly as if the ping had not come —
/// no pong, no message, no error.
pub proof fn lemma_ping_answered_in_run(
    st: ChannelState,
    p: Vec<u8>,
    rest: Seq<Inbound>,
)
    requires
        !(st is Closed),
    ensures
        spec_run(st, seq![Inbound::Frame(Frame::Ping(p))] + rest, true) == (
            spec_run(st, rest, true).0,
            seq![p] + spec_run(st, rest, true).1,
            spec_run(st, rest, true).2,
            spec_run(st, rest, true).3,
        ),
        spec_run(st, seq![Inbound::Frame(Frame::Ping(p))] + rest, false) == spec_run(
            st,
            rest,
            false,
        ),
{
    let ev = Inbound::Frame(Frame::Ping(p));
    assert((seq![ev] + rest)[0] == ev);
    assert((seq![ev] + rest).len() == 1 + rest.len());
    assert((seq![ev] + rest).drop_first() =~= rest);
}

/// Control frames are protocol-internal: no ping, pong, close or
/// end-of-file is ever yielded to the consumer as a Message.
pub proof fn lemma_control_frames_invisible(st: ChannelState, ev: Inbound, pong_ready: bool)
    requires
        !(ev matches Inbound::Frame(Frame::Text(_))),
        !(ev matches Inbound::Frame(Frame::Binary(_))),
    ensures
        !(spec_poll(st, ev, pong_ready).1 matches Step::Yield(_)),
{
}

} // verus!

