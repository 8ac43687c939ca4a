use gateway_client::workers::client::Client;
use gateway_client::workers::ws::{Discovery, GatewayError, Handshake, Lifecycle, WebSocket};

fn discovered(host: &str) -> Discovery {
    Discovery::Body(format!("{{\"url\":\"{}\"}}", host).into_bytes())
}

#[test]
fn new_client_is_empty() {
    let client = Client::new();
    assert_eq!(client.token(), None);
    assert_eq!(client.token, None);
    assert_eq!(client.state(), Lifecycle::Uninitialized);
}

#[test]
fn login_sets_token_and_connection_together() {
    let mut client = Client::new();
    let previous = client.login(String::from("secret"), &discovered("wss://example")).unwrap();
    assert!(previous.is_none());
    assert_eq!(client.token(), Some(String::from("secret")));
    assert_eq!(client.state(), Lifecycle::Connecting);
    let ws = client.take_connection().unwrap();
    assert_eq!(ws.gateway_url, "wss://example/?v=10&encoding=json");
    assert_eq!(ws.receive_tasks(), 0);
    assert_eq!(client.state(), Lifecycle::Uninitialized);
    assert_eq!(client.token(), Some(String::from("secret")));
}

#[test]
fn failed_login_leaves_the_client_unchanged() {
    let mut client = Client::new();
    let r = client.login(String::from("secret"), &Discovery::Unreachable);
    assert_eq!(r.err(), Some(GatewayError::DiscoveryTransportFailure));
    assert_eq!(client.token(), None);
    assert_eq!(client.state(), Lifecycle::Uninitialized);
    let r = client.login(String::from("secret"), &Discovery::Body(b"oops".to_vec()));
    assert_eq!(r.err(), Some(GatewayError::DiscoveryDecodeFailure));
    assert_eq!(client.token(), None);
    let r = client.login(String::from("secret"), &discovered("no scheme here"));
    assert_eq!(r.err(), Some(GatewayError::InvalidUrl));
    assert_eq!(client.token(), None);
    assert_eq!(client.state(), Lifecycle::Uninitialized);
}

#[test]
fn second_login_tears_the_first_connection_down() {
    let mut client = Client::new();
    client.login(String::from("one"), &discovered("wss://first")).unwrap();
    let mut ws = client.take_connection().unwrap();
    ws.handshake(Handshake::Answered { status: 200 }).unwrap();
    assert!(client.attach(ws).is_none());
    assert_eq!(client.state(), Lifecycle::Connected);

    let previous = client.login(String::from("two"), &discovered("wss://second")).unwrap();
    let mut previous = previous.unwrap();
    assert_eq!(previous.state(), Lifecycle::Closing);
    assert_eq!(previous.receive_tasks(), 1);
    assert_eq!(previous.gateway_url, "wss://first/?v=10&encoding=json");
    previous.joined();
    assert_eq!(previous.state(), Lifecycle::Closed);
    assert_eq!(previous.receive_tasks(), 0);

    assert_eq!(client.token(), Some(String::from("two")));
    assert_eq!(client.state(), Lifecycle::Connecting);
    let fresh = client.take_connection().unwrap();
    assert_eq!(fresh.gateway_url, "wss://second/?v=10&encoding=json");
    assert_eq!(fresh.receive_tasks(), 0);
}

#[test]
fn failed_second_login_keeps_the_first_connection() {
    let mut client = Client::new();
    client.login(String::from("one"), &discovered("wss://first")).unwrap();
    let r = client.login(String::from("two"), &Discovery::Unreachable);
    assert_eq!(r.err(), Some(GatewayError::DiscoveryTransportFailure));
    assert_eq!(client.token(), Some(String::from("one")));
    assert_eq!(client.state(), Lifecycle::Connecting);
}

#[test]
fn attach_keeps_a_held_connection() {
    let mut client = Client::new();
    client.login(String::from("one"), &discovered("wss://first")).unwrap();
    let other = WebSocket::init(String::from("wss://other")).unwrap();
    let refused = client.attach(other).unwrap();
    assert_eq!(refused.gateway_url, "wss://other");
    let held = client.take_connection().unwrap();
    assert_eq!(held.gateway_url, "wss://first/?v=10&encoding=json");
    assert!(client.take_connection().is_none());
}
