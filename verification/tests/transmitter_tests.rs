use fedetivity::messages::{Activity, Close, Connect};
use fedetivity::session::{ClientAction, ClientEvent, Lifecycle, Running, WsRead};
use fedetivity::transmitter::FedClient;

#[test]
fn transmitter_forwards_text_to_the_determinator() {
    let mut sut = FedClient::start("determinator", "ws://localhost:3000/ws".to_string());
    assert_eq!(
        sut.handle(ClientEvent::Connect(Connect)),
        ClientAction::OpenSocket("ws://localhost:3000/ws".to_string())
    );
    assert_eq!(
        sut.handle(ClientEvent::Read(WsRead::Text("New here!".to_string()))),
        ClientAction::Forward(Activity)
    );
    assert_eq!(*sut.determinator(), "determinator");
}

#[test]
fn transmitter_keeps_reading_after_a_close_message() {
    let mut sut = FedClient::start((), "ws://h/ws".to_string());
    assert_eq!(sut.handle(ClientEvent::Read(WsRead::Close)), ClientAction::Nothing);
    assert_eq!(sut.lifecycle(), Lifecycle::Running);
    assert_eq!(
        sut.handle(ClientEvent::Read(WsRead::Text("x".to_string()))),
        ClientAction::Forward(Activity)
    );
}

#[test]
fn transmitter_closes_itself_after_a_failed_read_and_stops_on_close() {
    let mut sut = FedClient::start((), "ws://h/ws".to_string());
    assert_eq!(sut.handle(ClientEvent::Read(WsRead::Failed)), ClientAction::CloseSelf(Close));
    assert_eq!(sut.handle(ClientEvent::Close(Close)), ClientAction::Stop);
    assert_eq!(sut.lifecycle(), Lifecycle::Stopped);
    assert_eq!(
        sut.handle(ClientEvent::Read(WsRead::Text("x".to_string()))),
        ClientAction::Nothing
    );
    assert_eq!(sut.stopping(), Running::Stop);
}
