use fedetivity::fed_client::FedClient;
use fedetivity::messages::{Activity, Close, Connect};
use fedetivity::session::{ClientAction, ClientEvent, Lifecycle, Running, WsRead, POLL_INTERVAL_MS};

fn forwarded(actions: &[ClientAction]) -> Vec<Activity> {
    actions
        .iter()
        .filter_map(|a| match a {
            ClientAction::Forward(activity) => Some(*activity),
            _ => None,
        })
        .collect()
}

#[test]
fn test_message_calls_is_handled() {
    let mut sut = FedClient::start((), "ws://localhost:3000/ws".to_string());
    let mut actions = vec![sut.handle(ClientEvent::Connect(Connect))];
    actions.push(sut.handle(ClientEvent::Read(WsRead::Text("New here!".to_string()))));
    assert_eq!(vec![Activity], forwarded(&actions));
}

#[test]
fn connect_opens_the_configured_uri() {
    let mut sut = FedClient::start(1u8, "ws://example.test/ws".to_string());
    assert_eq!(
        sut.handle(ClientEvent::Connect(Connect)),
        ClientAction::OpenSocket("ws://example.test/ws".to_string())
    );
    assert_eq!(sut.ws_uri(), "ws://example.test/ws");
    assert_eq!(*sut.activity_mapper(), 1u8);
    assert_eq!(POLL_INTERVAL_MS, 200);
}

#[test]
fn pings_and_other_messages_are_ignored() {
    let mut sut = FedClient::start((), "ws://h/ws".to_string());
    assert_eq!(sut.handle(ClientEvent::Read(WsRead::Ping(vec![1, 2]))), ClientAction::Nothing);
    assert_eq!(sut.handle(ClientEvent::Read(WsRead::Other)), ClientAction::Nothing);
    assert_eq!(sut.lifecycle(), Lifecycle::Running);
}

#[test]
fn close_message_from_server_stops_the_client() {
    let mut sut = FedClient::start((), "ws://h/ws".to_string());
    assert_eq!(sut.handle(ClientEvent::Read(WsRead::Close)), ClientAction::Stop);
    assert_eq!(sut.lifecycle(), Lifecycle::Stopped);
    assert_eq!(
        sut.handle(ClientEvent::Read(WsRead::Text("late".to_string()))),
        ClientAction::Nothing
    );
}

#[test]
fn failed_read_asks_the_client_to_close_itself() {
    let mut sut = FedClient::start((), "ws://h/ws".to_string());
    assert_eq!(sut.handle(ClientEvent::Read(WsRead::Failed)), ClientAction::CloseSelf(Close));
    assert_eq!(sut.lifecycle(), Lifecycle::Running);
    assert_eq!(sut.handle(ClientEvent::Close(Close)), ClientAction::Stop);
    assert_eq!(sut.lifecycle(), Lifecycle::Stopped);
}

#[test]
fn stopped_client_does_nothing() {
    let mut sut = FedClient::start((), "ws://h/ws".to_string());
    sut.handle(ClientEvent::Close(Close));
    assert_eq!(sut.handle(ClientEvent::Connect(Connect)), ClientAction::Nothing);
    assert_eq!(sut.handle(ClientEvent::Close(Close)), ClientAction::Nothing);
    assert_eq!(sut.handle(ClientEvent::Read(WsRead::Failed)), ClientAction::Nothing);
    assert_eq!(sut.stopping(), Running::Stop);
}

#[test]
fn one_activity_per_text_before_the_stop() {
    let mut sut = FedClient::start((), "ws://h/ws".to_string());
    let events = vec![
        ClientEvent::Connect(Connect),
        ClientEvent::Read(WsRead::Text("a".to_string())),
        ClientEvent::Read(WsRead::Ping(vec![])),
        ClientEvent::Read(WsRead::Text("b".to_string())),
        ClientEvent::Read(WsRead::Close),
        ClientEvent::Read(WsRead::Text("c".to_string())),
    ];
    let actions: Vec<ClientAction> = events.into_iter().map(|e| sut.handle(e)).collect();
    assert_eq!(actions.len(), 6);
    assert_eq!(forwarded(&actions), vec![Activity, Activity]);
}
