use fedetivity::stream_client::{Command, Event, FedClient, Frame, FrameReaction, Outgoing, Ping};

#[test]
fn event_is_written_as_op_and_topic() {
    let event = Event::new("subscribe".to_string(), "/client_count".to_string());
    assert_eq!(event.op(), "subscribe");
    assert_eq!(event.topic(), "/client_count");
    assert_eq!(event.text(), "op: subscribe, topic: /client_count");
    let sut = FedClient::start(());
    assert_eq!(
        sut.handle(Command::Event(event)),
        Outgoing::Text("op: subscribe, topic: /client_count".to_string())
    );
}

#[test]
fn event_with_empty_fields() {
    let event = Event::new(String::new(), String::new());
    assert_eq!(event.text(), "op: , topic: ");
}

#[test]
fn ping_command_writes_an_empty_ping() {
    let sut = FedClient::start(());
    assert_eq!(sut.handle(Command::Ping(Ping)), Outgoing::Ping(vec![]));
}

#[test]
fn ping_frame_is_answered_with_the_same_payload() {
    let sut = FedClient::start(());
    assert_eq!(
        sut.handle_frame(Frame::Ping(vec![1, 2, 3])),
        FrameReaction::Reply(Outgoing::Pong(vec![1, 2, 3]))
    );
}

#[test]
fn text_frame_is_decoded_as_utf8() {
    let sut = FedClient::start(());
    assert_eq!(
        sut.handle_frame(Frame::Text("héllo wörld".as_bytes().to_vec())),
        FrameReaction::Received("héllo wörld".to_string())
    );
    assert_eq!(
        sut.handle_frame(Frame::Text(vec![0x68, 0x69])),
        FrameReaction::Received("hi".to_string())
    );
}

#[test]
fn other_frames_are_ignored() {
    let mut sut = FedClient::start(5u16);
    for frame in [Frame::Binary, Frame::Continuation, Frame::Pong, Frame::Close] {
        assert_eq!(sut.handle_frame(frame), FrameReaction::Ignore);
    }
    *sut.sink_mut() = 6;
    assert_eq!(*sut.sink(), 6);
}
