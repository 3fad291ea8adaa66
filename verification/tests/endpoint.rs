use ws_transport::endpoint::{
    check_listen, connect_failure, listener_endpoint, make_tls_domain, make_ws_url, on_handshake, on_incoming,
    plan_connect, AcceptStep, ConnectStage, Endpoint, Host, Incoming, TransportError,
};

#[test]
fn plain_url() {
    assert_eq!(make_ws_url("127.0.0.1", 5555, false), "ws://127.0.0.1:5555");
}

#[test]
fn tls_url() {
    assert_eq!(make_ws_url("example.com", 443, true), "wss://example.com:443");
}

#[test]
fn url_port_edges() {
    assert_eq!(make_ws_url("h", 0, false), "ws://h:0");
    assert_eq!(make_ws_url("h", 9, false), "ws://h:9");
    assert_eq!(make_ws_url("h", 10, false), "ws://h:10");
    assert_eq!(make_ws_url("h", 100, true), "wss://h:100");
    assert_eq!(make_ws_url("h", 65535, false), "ws://h:65535");
    assert_eq!(make_ws_url("[::1]", 8080, false), "ws://[::1]:8080");
}

#[test]
fn url_port_matches_std_formatting() {
    for port in [0u16, 1, 7, 42, 99, 1000, 4096, 30000, 65534, 65535] {
        assert_eq!(make_ws_url("x", port, false), format!("ws://x:{}", port));
    }
}

#[test]
fn tls_domain_is_the_domain_or_localhost() {
    assert_eq!(make_tls_domain(&Host::Domain("example.org".to_string())), "example.org");
    assert_eq!(make_tls_domain(&Host::Ipv4([10, 0, 0, 1])), "localhost");
    assert_eq!(make_tls_domain(&Host::Ipv6([0, 0, 0, 0, 0, 0, 0, 1])), "localhost");
}

#[test]
fn plain_connect_plan() {
    let p = plan_connect(Host::Ipv4([127, 0, 0, 1]), "127.0.0.1", 5555, false);
    assert_eq!(p.url, "ws://127.0.0.1:5555");
    assert_eq!(p.tls_domain, None);
    assert_eq!(p.peer, Endpoint::Ws(Host::Ipv4([127, 0, 0, 1]), 5555));
}

#[test]
fn tls_connect_plan() {
    let p = plan_connect(Host::Domain("example.com".to_string()), "example.com", 8443, true);
    assert_eq!(p.url, "wss://example.com:8443");
    assert_eq!(p.tls_domain, Some("example.com".to_string()));
    assert_eq!(p.peer, Endpoint::Wss(Host::Domain("example.com".to_string()), 8443));
    let p = plan_connect(Host::Ipv4([192, 168, 1, 2]), "192.168.1.2", 1, true);
    assert_eq!(p.tls_domain, Some("localhost".to_string()));
    assert_eq!(p.peer, Endpoint::Wss(Host::Ipv4([192, 168, 1, 2]), 1));
}

#[test]
fn url_scheme_agrees_with_endpoint() {
    for tls in [false, true] {
        let p = plan_connect(Host::Domain("d".to_string()), "d", 77, tls);
        assert_eq!(p.url.starts_with("wss"), matches!(p.peer, Endpoint::Wss(..)));
        assert_eq!(p.tls_domain.is_some(), tls);
        assert!(p.url.ends_with(":77"));
    }
}

#[test]
fn connect_failures() {
    assert_eq!(connect_failure(ConnectStage::Tcp), TransportError::Io);
    assert_eq!(connect_failure(ConnectStage::TlsSetup), TransportError::TlsConnectorCreation);
    assert_eq!(connect_failure(ConnectStage::Tls), TransportError::TlsConnection);
    assert_eq!(connect_failure(ConnectStage::Handshake), TransportError::WebSocketConnection);
}

#[test]
fn error_messages() {
    assert_eq!(TransportError::TlsConnectorCreation.message(), "TLS connector creation failed");
    assert_eq!(TransportError::TlsConnection.message(), "TLS connection failed");
    assert_eq!(TransportError::WebSocketConnection.message(), "WebSocket connection failed");
    assert_eq!(TransportError::WebSocketHandshake.message(), "WebSocket handshake failed");
    assert_eq!(
        TransportError::WssServerUnsupported.message(),
        "WSS server support requires certificate configuration (not yet implemented)"
    );
    assert_eq!(TransportError::Io.message(), "I/O error");
}

#[test]
fn tls_listener_is_refused() {
    assert_eq!(check_listen(true), Err(TransportError::WssServerUnsupported));
    assert_eq!(check_listen(false), Ok(()));
}

#[test]
fn listener_endpoint_is_plain_ws() {
    assert_eq!(listener_endpoint(Host::Ipv4([0, 0, 0, 0]), 5555, false), Endpoint::Ws(Host::Ipv4([0, 0, 0, 0]), 5555));
    assert_eq!(listener_endpoint(Host::Ipv4([1, 2, 3, 4]), 9, true), Endpoint::Wss(Host::Ipv4([1, 2, 3, 4]), 9));
}

#[test]
fn accept_loop_decisions() {
    let ip = Host::Ipv6([0xfe80, 0, 0, 0, 0, 0, 0, 1]);
    assert_eq!(
        on_incoming(Incoming::Accepted(ip.clone(), 40000)),
        AcceptStep::Handshake(Endpoint::Ws(ip, 40000))
    );
    assert_eq!(on_incoming(Incoming::Failed), AcceptStep::Report(TransportError::Io));
    assert_eq!(on_incoming(Incoming::Stop), AcceptStep::Exit);
}

#[test]
fn handshake_outcome() {
    let peer = Endpoint::Ws(Host::Ipv4([10, 1, 1, 1]), 1234);
    assert_eq!(on_handshake(peer.clone(), true), Ok(peer.clone()));
    assert_eq!(on_handshake(peer, false), Err(TransportError::WebSocketHandshake));
}
