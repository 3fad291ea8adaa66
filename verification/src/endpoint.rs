//! Where a WebSocket connection goes and how it is named: the URL a client
//! dials, the name a TLS client checks, the endpoint recorded for the peer,
//! and the errors of connecting and accepting.

use vstd::prelude::*;

verus! {

/// A host, as an endpoint names it.
#[derive(Debug, Clone, PartialEq, Eq)]
pub enum Host {
    /// An IPv4 address, by its octets.
    Ipv4([u8; 4]),
    /// An IPv6 address, by its eight 16-bit segments.
    Ipv6([u16; 8]),
    /// A domain name.
    Domain(String),
}

/// The endpoint of a WebSocket peer: its host and port, plain (`ws`) or over
/// TLS (`wss`).
#[derive(Debug, Clone, PartialEq, Eq)]
pub enum Endpoint {
    Ws(Host, u16),
    Wss(Host, u16),
}

/// Why connecting or accepting failed.
#[derive(Debug, Clone, Copy, PartialEq, Eq, Structural)]
pub enum TransportError {
    /// The socket operation failed; its own error says why.
    Io,
    /// The TLS client could not be set up.
    TlsConnectorCreation,
    /// The TLS handshake with the server failed.
    TlsConnection,
    /// The WebSocket handshake with the server failed.
    WebSocketConnection,
    /// The WebSocket handshake with an accepted client failed.
    WebSocketHandshake,
    /// A listener was asked to serve `wss`, which needs a certificate.
    WssServerUnsupported,
}

impl TransportError {
    /// The error's description (for [`TransportError::Io`], a placeholder:
    /// the socket error describes itself).
    pub fn message(&self) -> (r: &'static str)
        ensures
            *self == TransportError::Io ==> r@ == "I/O error"@,
            *self == TransportError::TlsConnectorCreation ==> r@ == "TLS connector creation failed"@,
            *self == TransportError::TlsConnection ==> r@ == "TLS connection failed"@,
            *self == TransportError::WebSocketConnection ==> r@ == "WebSocket connection failed"@,
            *self == TransportError::WebSocketHandshake ==> r@ == "WebSocket handshake failed"@,
            *self == TransportError::WssServerUnsupported
                ==> r@ == "WSS server support requires certificate configuration (not yet implemented)"@,
    {
        match self {
            TransportError::Io => "I/O error",
            TransportError::TlsConnectorCreation => "TLS connector creation failed",
            TransportError::TlsConnection => "TLS connection failed",
            TransportError::WebSocketConnection => "WebSocket connection failed",
            TransportError::WebSocketHandshake => "WebSocket handshake failed",
            TransportError::WssServerUnsupported => "WSS server support requires certificate configuration (not yet implemented)",
        }
    }
}

/// The character of the decimal digit `d`.
pub open spec fn digit_char(d: nat) -> char {
    (48 + d) as char
}

/// The decimal numeral of `n`, without leading zeros.
pub open spec fn decimal(n: nat) -> Seq<char>
    decreases n,
{
    if n < 10 {
        seq![digit_char(n)]
    } else {
        decimal(n / 10) + seq![digit_char(n % 10)]
    }
}

/// The URL scheme: `wss` over TLS, else `ws`.
pub open spec fn scheme(use_tls: bool) -> Seq<char> {
    if use_tls {
        seq!['w', 's', 's']
    } else {
        seq!['w', 's']
    }
}

/// The URL a client dials: `scheme://host:port`, with the host as it displays
/// itself and the port in decimal.
pub open spec fn ws_url(host_text: Seq<char>, port: u16, use_tls: bool) -> Seq<char> {
    scheme(use_tls) + seq![':', '/', '/'] + host_text + seq![':'] + decimal(port as nat)
}

/// The name a TLS client checks the server's certificate against: the
/// domain, or `localhost` for an IP address.
pub open spec fn tls_domain(host: Host) -> Seq<char> {
    match host {
        Host::Domain(d) => d@,
        _ => seq!['l', 'o', 'c', 'a', 'l', 'h', 'o', 's', 't'],
    }
}

/// The endpoint of a peer at `host` and `port`: `wss` over TLS, else `ws`.
pub open spec fn peer_endpoint(host: Host, port: u16, use_tls: bool) -> Endpoint {
    if use_tls {
        Endpoint::Wss(host, port)
    } else {
        Endpoint::Ws(host, port)
    }
}

/// The one-character string of the decimal digit `d`.
fn digit_str(d: u16) -> (r: &'static str)
    requires
        d < 10,
    ensures
        r@ == seq![digit_char(d as nat)],
{
    proof {
        reveal_strlit("0");
        reveal_strlit("1");
        reveal_strlit("2");
        reveal_strlit("3");
        reveal_strlit("4");
        reveal_strlit("5");
        reveal_strlit("6");
        reveal_strlit("7");
        reveal_strlit("8");
        reveal_strlit("9");
    }
    match d {
        0 => "0",
        1 => "1",
        2 => "2",
        3 => "3",
        4 => "4",
        5 => "5",
        6 => "6",
        7 => "7",
        8 => "8",
        _ => "9",
    }
}

/// Appends the decimal numeral of `n` to `s`.
fn append_decimal(s: &mut String, n: u16)
    ensures
        final(s)@ == old(s)@ + decimal(n as nat),
    decreases n,
{
    if n >= 10 {
        append_decimal(s, n / 10);
    }
    s.append(digit_str(n % 10));
    proof {
        if n >= 10 {
            assert(s@ =~= old(s)@ + (decimal((n / 10) as nat) + seq![digit_char((n % 10) as nat)]));
        } else {
            assert(s@ =~= old(s)@ + decimal(n as nat));
        }
    }
}

/// The dial URL of a WebSocket server at `port` on the host that displays
/// itself as `host_text`.
pub fn make_ws_url(host_text: &str, port: u16, use_tls: bool) -> (r: String)
    ensures
        r@ == ws_url(host_text@, port, use_tls),
        r@ == (if use_tls {
            seq!['w', 's', 's']
        } else {
            seq!['w', 's']
        }) + seq![':', '/', '/'] + host_text@ + seq![':'] + decimal(port as nat),
{
    proof {
        reveal_strlit("wss://");
        reveal_strlit("ws://");
        reveal_strlit(":");
    }
    let mut url = if use_tls {
        String::from_str("wss://")
    } else {
        String::from_str("ws://")
    };
    url.append(host_text);
    url.append(":");
    append_decimal(&mut url, port);
    assert(url@ =~= ws_url(host_text@, port, use_tls));
    url
}

/// The name to check the server's certificate against when dialing `host`
/// over TLS.
pub fn make_tls_domain(host: &Host) -> (r: String)
    ensures
        r@ == tls_domain(*host),
        *host is Domain ==> r@ == host->Domain_0@,
        !(*host is Domain) ==> r@ == seq!['l', 'o', 'c', 'a', 'l', 'h', 'o', 's', 't'],
{
    proof {
        reveal_strlit("localhost");
    }
    match host {
        Host::Domain(d) => String::from_str(d.as_str()),
        _ => String::from_str("localhost"),
    }
}

/// What a client needs to open a WebSocket connection, worked out before any
/// socket is touched.
#[derive(Debug, PartialEq, Eq)]
pub struct ConnectPlan {
    /// The URL of the WebSocket handshake.
    pub url: String,
    /// Over TLS, the name to check the server's certificate against;
    /// `None` for a plain connection.
    pub tls_domain: Option<String>,
    /// The endpoint to record for the server once connected.
    pub peer: Endpoint,
}

/// Plans a connection to the server at `host` and `port` (`host_text` being
/// how `host` displays itself), over TLS when `use_tls`.
pub fn plan_connect(host: Host, host_text: &str, port: u16, use_tls: bool) -> (p: ConnectPlan)
    ensures
        p.url@ == ws_url(host_text@, port, use_tls),
        use_tls ==> (p.tls_domain matches Some(d) && d@ == tls_domain(host)),
        !use_tls ==> p.tls_domain is None,
        p.peer == peer_endpoint(host, port, use_tls),
        p.url@ == (if use_tls {
            seq!['w', 's', 's']
        } else {
            seq!['w', 's']
        }) + seq![':', '/', '/'] + host_text@ + seq![':'] + decimal(port as nat),
        use_tls && host is Domain ==> (p.tls_domain matches Some(d) && d@ == host->Domain_0@),
        use_tls && !(host is Domain) ==> (p.tls_domain matches Some(d)
            && d@ == seq!['l', 'o', 'c', 'a', 'l', 'h', 'o', 's', 't']),
        use_tls ==> p.peer == Endpoint::Wss(host, port),
        !use_tls ==> p.peer == Endpoint::Ws(host, port),
{
    let url = make_ws_url(host_text, port, use_tls);
    let tls_domain = if use_tls {
        Some(make_tls_domain(&host))
    } else {
        None
    };
    let peer = if use_tls {
        Endpoint::Wss(host, port)
    } else {
        Endpoint::Ws(host, port)
    };
    ConnectPlan { url, tls_domain, peer }
}

/// The step of connecting that failed.
#[derive(Debug, Clone, Copy, PartialEq, Eq, Structural)]
pub enum ConnectStage {
    /// Opening the TCP connection.
    Tcp,
    /// Setting up the TLS client.
    TlsSetup,
    /// The TLS handshake.
    Tls,
    /// The WebSocket handshake.
    Handshake,
}

/// The error that connecting reports when `stage` fails.
pub fn connect_failure(stage: ConnectStage) -> (r: TransportError)
    ensures
        stage == ConnectStage::Tcp ==> r == TransportError::Io,
        stage == ConnectStage::TlsSetup ==> r == TransportError::TlsConnectorCreation,
        stage == ConnectStage::Tls ==> r == TransportError::TlsConnection,
        stage == ConnectStage::Handshake ==> r == TransportError::WebSocketConnection,
{
    match stage {
        ConnectStage::Tcp => TransportError::Io,
        ConnectStage::TlsSetup => TransportError::TlsConnectorCreation,
        ConnectStage::Tls => TransportError::TlsConnection,
        ConnectStage::Handshake => TransportError::WebSocketConnection,
    }
}

/// Whether a listener may be set up: a `wss` listener is refused, before any
/// socket is bound, since serving TLS needs a certificate.
pub fn check_listen(use_tls: bool) -> (r: Result<(), TransportError>)
    ensures
        r is Ok <==> !use_tls,
        r matches Err(e) ==> e == TransportError::WssServerUnsupported,
{
    if use_tls {
        Err(TransportError::WssServerUnsupported)
    } else {
        Ok(())
    }
}

/// The endpoint a listener reports once bound to `port` on `ip`.
pub fn listener_endpoint(ip: Host, port: u16, use_tls: bool) -> (r: Endpoint)
    ensures
        r == peer_endpoint(ip, port, use_tls),
        use_tls ==> r == Endpoint::Wss(ip, port),
        !use_tls ==> r == Endpoint::Ws(ip, port),
{
    if use_tls {
        Endpoint::Wss(ip, port)
    } else {
        Endpoint::Ws(ip, port)
    }
}

/// What the accept loop of a listener saw next.
#[derive(Debug, PartialEq, Eq)]
pub enum Incoming {
    /// A TCP connection from `port` on `ip`.
    Accepted(Host, u16),
    /// Accepting a connection failed.
    Failed,
    /// The listener was asked to stop.
    Stop,
}

/// What the accept loop does next.
#[derive(Debug, PartialEq, Eq)]
pub enum AcceptStep {
    /// Run the WebSocket handshake on the new connection, whose peer is this.
    Handshake(Endpoint),
    /// Hand this error to the connection callback, then go on accepting.
    Report(TransportError),
    /// Stop accepting.
    Exit,
}

/// The accept loop's decision on what it saw: a new connection is
/// handshaken, its peer recorded as a plain `ws` endpoint; a failed accept is
/// reported and the loop goes on; a stop request ends it.
pub fn on_incoming(event: Incoming) -> (r: AcceptStep)
    ensures
        event matches Incoming::Accepted(ip, port) ==> r == AcceptStep::Handshake(Endpoint::Ws(ip, port)),
        event is Failed ==> r == AcceptStep::Report(TransportError::Io),
        event is Stop ==> r is Exit,
{
    match event {
        Incoming::Accepted(ip, port) => AcceptStep::Handshake(Endpoint::Ws(ip, port)),
        Incoming::Failed => AcceptStep::Report(TransportError::Io),
        Incoming::Stop => AcceptStep::Exit,
    }
}

/// What the connection callback receives once the handshake with `peer`
/// finished: the peer when it succeeded, else a handshake error.
pub fn on_handshake(peer: Endpoint, succeeded: bool) -> (r: Result<Endpoint, TransportError>)
    ensures
        succeeded ==> r == Ok::<Endpoint, TransportError>(peer),
        !succeeded ==> r == Err::<Endpoint, TransportError>(TransportError::WebSocketHandshake),
{
    if succeeded {
        Ok(peer)
    } else {
        Err(TransportError::WebSocketHandshake)
    }
}

/// The number that the decimal digits `s` spell.
pub open spec fn decimal_value(s: Seq<char>) -> nat
    decreases s.len(),
{
    if s.len() == 0 {
        0
    } else {
        decimal_value(s.drop_last()) * 10 + ((s.last() as nat) - 48) as nat
    }
}

/// Whether `c` is a decimal digit.
pub open spec fn is_digit(c: char) -> bool {
    48 <= c as nat <= 57
}

/// The port in a dial URL is written as usual: decimal digits only, no
/// leading zero, spelling the port.
pub proof fn lemma_decimal_spells(n: nat)
    ensures
        decimal_value(decimal(n)) == n,
        decimal(n).len() > 0,
        forall|i: int| 0 <= i < decimal(n).len() ==> is_digit(#[trigger] decimal(n)[i]),
        n > 0 ==> decimal(n)[0] != '0',
    decreases n,
{
    if n >= 10 {
        lemma_decimal_spells(n / 10);
        let s = decimal(n);
        assert(s.drop_last() =~= decimal(n / 10));
        assert(s.last() == digit_char(n % 10));
        assert(digit_char(n % 10) as nat == 48 + n % 10);
        assert(decimal_value(s) == decimal_value(s.drop_last()) * 10 + n % 10);
        assert((n / 10) * 10 + n % 10 == n) by (nonlinear_arith);
        assert forall|i: int| 0 <= i < s.len() implies is_digit(#[trigger] s[i]) by {
            if i < s.len() - 1 {
                assert(s[i] == decimal(n / 10)[i]);
            }
        }
        assert(s[0] == decimal(n / 10)[0]);
    } else {
        let s = decimal(n);
        assert(s.drop_last() =~= Seq::<char>::empty());
        assert(digit_char(n) as nat == 48 + n);
        assert(decimal_value(Seq::<char>::empty()) == 0);
        assert(decimal_value(s) == decimal_value(s.drop_last()) * 10 + n);
    }
}

/// The dial URL and the recorded endpoint agree on TLS: the URL's scheme is
/// `wss` exactly when the endpoint is a `wss` one, which is exactly when a
/// TLS name is checked; and the URL ends with `:` and the port.
pub proof fn lemma_url_matches_endpoint(host: Host, host_text: Seq<char>, port: u16, use_tls: bool)
    ensures
        (ws_url(host_text, port, use_tls).subrange(0, 3) == seq!['w', 's', 's'])
            <==> peer_endpoint(host, port, use_tls) is Wss,
        peer_endpoint(host, port, use_tls) is Wss <==> use_tls,
        ws_url(host_text, port, use_tls).subrange(
            ws_url(host_text, port, use_tls).len() - decimal(port as nat).len() - 1,
            ws_url(host_text, port, use_tls).len() as int,
        ) == seq![':'] + decimal(port as nat),
{
    let u = ws_url(host_text, port, use_tls);
    let d = decimal(port as nat);
    assert(u.subrange(u.len() - d.len() - 1, u.len() as int) =~= seq![':'] + d);
    if use_tls {
        assert(u.subrange(0, 3) =~= seq!['w', 's', 's']);
    } else {
        assert(u.subrange(0, 3) =~= seq!['w', 's', ':']);
        assert(u.subrange(0, 3)[2] != seq!['w', 's', 's'][2]);
    }
}

/// The dial URL is laid out as `scheme://host:port`: the scheme (`wss` over
/// TLS, else `ws`), then `://`, then the host text whole and unchanged, then
/// `:`, then the port's decimal digits, and nothing else.
pub proof fn lemma_url_layout(host_text: Seq<char>, port: u16, use_tls: bool)
    ensures
        ({
            let u = ws_url(host_text, port, use_tls);
            let k: int = if use_tls { 3 } else { 2 };
            let h = host_text.len() as int;
            &&& u.len() == k + 4 + h + decimal(port as nat).len()
            &&& u.subrange(0, k) == (if use_tls { seq!['w', 's', 's'] } else { seq!['w', 's'] })
            &&& u.subrange(k, k + 3) == seq![':', '/', '/']
            &&& u.subrange(k + 3, k + 3 + h) == host_text
            &&& u[k + 3 + h] == ':'
            &&& u.subrange(k + 4 + h, u.len() as int) == decimal(port as nat)
        }),
{
    let u = ws_url(host_text, port, use_tls);
    let k: int = if use_tls { 3 } else { 2 };
    let h = host_text.len() as int;
    let d = decimal(port as nat);
    let sch = if use_tls { seq!['w', 's', 's'] } else { seq!['w', 's'] };
    assert(u =~= sch + seq![':', '/', '/'] + host_text + seq![':'] + d);
    assert(u.subrange(0, k) =~= sch);
    assert(u.subrange(k, k + 3) =~= seq![':', '/', '/']);
    assert(u.subrange(k + 3, k + 3 + h) =~= host_text);
    assert(u.subrange(k + 4 + h, u.len() as int) =~= d);
}

/// The name checked against the server's certificate is the domain dialed,
/// whole; `localhost` is used only for an IP address.
pub proof fn lemma_tls_domain_is_dialed_domain(host: Host)
    ensures
        forall|d: String| host == Host::Domain(d) ==> tls_domain(host) == d@,
        host is Ipv4 || host is Ipv6 ==> tls_domain(host) == seq!['l', 'o', 'c', 'a', 'l', 'h', 'o', 's', 't'],
{
}

/// The recorded endpoint of a peer is that very host (IPv4, IPv6 or domain,
/// unchanged) and that very port, `wss` exactly over TLS.
pub proof fn lemma_peer_endpoint_keeps_host_and_port(host: Host, port: u16, use_tls: bool)
    ensures
        use_tls ==> peer_endpoint(host, port, use_tls) == Endpoint::Wss(host, port),
        !use_tls ==> peer_endpoint(host, port, use_tls) == Endpoint::Ws(host, port),
        forall|h: Host, p: u16|
            (peer_endpoint(host, port, use_tls) == Endpoint::Ws(h, p) || peer_endpoint(host, port, use_tls)
                == Endpoint::Wss(h, p)) ==> h == host && p == port,
{
}

} // verus!
