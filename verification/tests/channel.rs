use ws_core::channel::{
    run_inbound, ChannelState, Frame, Inbound, SendOutcome, Step, Terminal, WebSocket,
};
use ws_core::message::Message;

#[test]
fn text_round_trip_on_the_wire() {
    // consuming side: the message goes out as a text frame, payload unchanged
    let mut ws = WebSocket::new();
    let out = ws.start_send(Message::text("hello".to_owned()), true);
    assert_eq!(out, SendOutcome::Sent(Frame::Text("hello".to_owned())));

    // producing side of the peer: the same frame is yielded as the message
    let mut peer = WebSocket::new();
    let step = peer.poll(Inbound::Frame(Frame::Text("hello".to_owned())), true);
    match step {
        Step::Yield(m) => {
            assert!(m.is_text());
            assert_eq!(m.to_str(), Ok("hello"));
            assert_eq!(m.as_bytes(), b"hello");
        },
        other => panic!("expected a yielded message, got {:?}", other),
    }
}

#[test]
fn binary_round_trip_on_the_wire() {
    let mut ws = WebSocket::new();
    let out = ws.start_send(Message::binary(vec![1u8, 2, 3]), true);
    assert_eq!(out, SendOutcome::Sent(Frame::Binary(vec![1u8, 2, 3])));

    let mut peer = WebSocket::new();
    let step = peer.poll(Inbound::Frame(Frame::Binary(vec![1u8, 2, 3])), true);
    match step {
        Step::Yield(m) => {
            assert!(m.is_binary());
            assert!(!m.is_text());
            assert!(m.to_str().is_err());
            assert_eq!(m.as_bytes(), &[1u8, 2, 3]);
        },
        other => panic!("expected a yielded message, got {:?}", other),
    }
}

#[test]
fn send_backpressure_returns_the_message() {
    let mut ws = WebSocket::new();
    let out = ws.start_send(Message::text("hello".to_owned()), false);
    assert_eq!(out, SendOutcome::NotReady(Message::text("hello".to_owned())));
}

#[test]
fn ping_gets_automatic_pong() {
    let t = run_inbound(vec![Inbound::Frame(Frame::Ping(vec![9u8, 9]))], true);
    assert_eq!(t.pongs, vec![vec![9u8, 9]]);
    assert!(t.messages.is_empty());
    assert_eq!(t.terminal, Terminal::Pending);
}

#[test]
fn ping_under_backpressure_drops_pong_without_error() {
    let t = run_inbound(vec![Inbound::Frame(Frame::Ping(vec![9u8, 9]))], false);
    assert!(t.pongs.is_empty());
    assert!(t.messages.is_empty());
    assert_eq!(t.terminal, Terminal::Pending);
}

#[test]
fn pong_frames_are_discarded() {
    let t = run_inbound(vec![Inbound::Frame(Frame::Pong(vec![7u8]))], true);
    assert!(t.pongs.is_empty());
    assert!(t.messages.is_empty());
    assert_eq!(t.terminal, Terminal::Pending);
}

#[test]
fn close_frame_is_a_normal_end() {
    let t = run_inbound(vec![Inbound::Frame(Frame::Close)], true);
    assert!(t.messages.is_empty());
    assert_eq!(t.terminal, Terminal::Closed);
}

#[test]
fn eof_is_a_normal_end() {
    let t = run_inbound(vec![Inbound::Eof], true);
    assert!(t.messages.is_empty());
    assert_eq!(t.terminal, Terminal::Closed);
}

#[test]
fn fault_is_a_distinguishable_error() {
    let t = run_inbound(vec![Inbound::Fault], true);
    assert_eq!(t.terminal, Terminal::Failed);
    assert_ne!(t.terminal, Terminal::Closed);
}

#[test]
fn text_then_close_yields_exactly_one_message() {
    let t = run_inbound(
        vec![
            Inbound::Frame(Frame::Text("hello".to_owned())),
            Inbound::Frame(Frame::Close),
        ],
        true,
    );
    assert_eq!(t.messages, vec![Message::text("hello".to_owned())]);
    assert_eq!(t.terminal, Terminal::Closed);
}

#[test]
fn nothing_is_observed_past_the_end() {
    let t = run_inbound(
        vec![
            Inbound::Frame(Frame::Text("hello".to_owned())),
            Inbound::Frame(Frame::Close),
            Inbound::Frame(Frame::Text("late".to_owned())),
            Inbound::Frame(Frame::Ping(vec![1u8])),
        ],
        true,
    );
    assert_eq!(t.messages, vec![Message::text("hello".to_owned())]);
    assert!(t.pongs.is_empty());
    assert_eq!(t.terminal, Terminal::Closed);
}

#[test]
fn frames_are_yielded_in_arrival_order() {
    let t = run_inbound(
        vec![
            Inbound::Frame(Frame::Text("a".to_owned())),
            Inbound::Frame(Frame::Ping(vec![5u8])),
            Inbound::Frame(Frame::Binary(vec![1u8])),
            Inbound::Frame(Frame::Pong(vec![6u8])),
            Inbound::Frame(Frame::Text("b".to_owned())),
            Inbound::Eof,
        ],
        true,
    );
    assert_eq!(
        t.messages,
        vec![
            Message::text("a".to_owned()),
            Message::binary(vec![1u8]),
            Message::text("b".to_owned()),
        ]
    );
    assert_eq!(t.pongs, vec![vec![5u8]]);
    assert_eq!(t.terminal, Terminal::Closed);
}

#[test]
fn close_emits_one_close_frame_then_noops() {
    let mut ws = WebSocket::new();
    assert_eq!(ws.close(), Some(Frame::Close));
    assert_eq!(ws.state, ChannelState::Closing);
    assert_eq!(ws.close(), None);
    assert_eq!(ws.state, ChannelState::Closing);
}

#[test]
fn closed_channel_polls_nothing_further() {
    let mut ws = WebSocket::new();
    assert_eq!(ws.poll(Inbound::Eof, true), Step::Done);
    assert_eq!(
        ws.poll(Inbound::Frame(Frame::Text("late".to_owned())), true),
        Step::Done
    );
}
