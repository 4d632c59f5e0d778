use fedetivity::settings::{default_ws_uri, ws_uri};

#[test]
fn configured_uri_is_used() {
    assert_eq!(ws_uri(Some("ws://mastodon.test/api".to_string())), "ws://mastodon.test/api");
}

#[test]
fn default_uri_is_local() {
    assert_eq!(ws_uri(None), "ws://localhost:3000/ws");
    assert_eq!(default_ws_uri(), "ws://localhost:3000/ws");
}
