//! Connection configuration, and what it takes to dial the server.
//!
//! Nothing here opens a socket. A configuration says which address to dial,
//! what to say to a proxy, whether to wrap the stream in TLS and how to ask
//! for the websocket; the driver does as it says.

use super::error::RpcClientError;
use crate::dcrjson::result_types::append_bytes;
use vstd::prelude::*;
use vstd::string::*;
use vstd::utf8::encode_utf8;

verus! {

/// Describes the connection configuration parameters for the client.
#[derive(Debug, Clone)]
pub struct ConnConfig {
    /// Host and port of the RPC server.
    pub host: String,
    /// Username to authenticate to the RPC server.
    pub user: String,
    /// Password to authenticate to the RPC server.
    pub password: String,
    /// Path of the websocket on the server, usually `ws`.
    pub endpoint: String,
    /// PEM-encoded certificate chain that is trusted for the TLS connection.
    /// It has no effect if `disable_tls` is set.
    pub certificates: String,
    /// Host and port of a proxy to tunnel through, if any.
    pub proxy_host: Option<String>,
    /// Username to connect to the proxy.
    pub proxy_username: String,
    /// Password to connect to the proxy.
    pub proxy_password: String,
    /// Whether transport layer security is disabled. Without TLS the username
    /// and the password cross the wire in cleartext.
    pub disable_tls: bool,
    /// Whether a new client stays unconnected until `connect` is called.
    pub disable_connect_on_new: bool,
    /// Whether a failed websocket is left alone instead of being dialled again.
    pub disable_auto_reconnect: bool,
    /// Whether the client issues each request as an HTTP POST of its own
    /// instead of using a websocket. Notifications need the websocket.
    pub http_post_mode: bool,
}

/// How to open the stream to dial on: the address, and the TLS handshake to
/// make on it, if any.
#[derive(Debug, Clone, PartialEq, Eq)]
pub struct StreamSetup {
    /// Host and port to open the TCP connection to.
    pub address: String,
    /// Whether the stream is wrapped in TLS.
    pub tls: bool,
    /// The name the TLS handshake is made for.
    pub domain: String,
    /// The PEM certificate that the handshake trusts as a root.
    pub certificates: String,
}

/// All it takes to dial the websocket, in the order in which it is used: the
/// stream to open, the request that asks a proxy for the tunnel, and the
/// upgrade request.
#[derive(Debug, Clone, PartialEq, Eq)]
pub struct DialPlan {
    pub stream: StreamSetup,
    /// The CONNECT request to write before anything else, if a proxy is set.
    pub proxy_header: Option<Vec<u8>>,
    /// The address of the websocket.
    pub uri: String,
    /// The value of the upgrade request's `Authorization` header.
    pub authorization: Vec<u8>,
}

/// What an HTTP parser makes of the bytes that a proxy has sent so far.
#[derive(Debug, Clone, Copy, PartialEq, Eq)]
pub enum ProxyReply {
    /// The response is not complete yet.
    Partial,
    /// A complete response head, with its status code.
    Complete(Option<u16>),
    /// The bytes are no HTTP response.
    Invalid,
}

/// What to do next while a tunnel is negotiated.
#[derive(Debug, Clone, PartialEq, Eq)]
pub enum ProxyStep {
    /// Read more bytes and ask again.
    ReadMore,
    /// The tunnel stands.
    Established,
    /// The negotiation failed.
    Failed(RpcClientError),
}

/// The standard base64 encoding of `input`, with padding, as ASCII bytes.
pub uninterp spec fn base64_encoding(input: Seq<u8>) -> Seq<u8>;

/// What the HTTP parser makes of `buffer` as the head of a response.
pub uninterp spec fn parsed_proxy_reply(buffer: Seq<u8>) -> ProxyReply;

/// Whether `input` is short enough for its base64 encoding to have a length.
pub open spec fn encodable(input: Seq<u8>) -> bool {
    (input.len() / 3) * 4 + 4 <= usize::MAX
}

/// Calls `base64::encode`, which encodes with the standard alphabet and
/// padding. It panics where the length of the encoding overflows; such input
/// is left out.
#[verifier::external_body]
fn base64_encode(input: &[u8]) -> (encoded: Vec<u8>)
    requires
        encodable(input@),
    ensures
        encoded@ == base64_encoding(input@),
{
    base64::encode(input).into_bytes()
}

/// Calls `httparse::Response::parse` on a fresh response with room for as
/// many headers as a websocket handshake may have, and says how the parse
/// ended: not complete, complete with the status code it read, or failed.
#[verifier::external_body]
fn parse_proxy_reply(buffer: &[u8]) -> (reply: ProxyReply)
    ensures
        reply == parsed_proxy_reply(buffer@),
{
    let mut headers =
        [httparse::EMPTY_HEADER; tokio_tungstenite::tungstenite::handshake::headers::MAX_HEADERS];
    let mut response = httparse::Response::new(&mut headers);
    match response.parse(buffer) {
        Ok(httparse::Status::Partial) => ProxyReply::Partial,
        Ok(httparse::Status::Complete(_)) => ProxyReply::Complete(response.code),
        Err(_) => ProxyReply::Invalid,
    }
}

/// What a reply of the proxy means: only status 200 opens the tunnel.
pub open spec fn proxy_verdict(reply: ProxyReply) -> ProxyStep {
    match reply {
        ProxyReply::Partial => ProxyStep::ReadMore,
        ProxyReply::Complete(code) => if code == Some(200u16) {
            ProxyStep::Established
        } else {
            ProxyStep::Failed(RpcClientError::RpcProxyStatus(code))
        },
        ProxyReply::Invalid => ProxyStep::Failed(RpcClientError::RpcProxyResponseParse),
    }
}

/// Decides what to do after the proxy's reply was parsed.
pub fn proxy_step(reply: ProxyReply) -> (step: ProxyStep)
    ensures
        step == proxy_verdict(reply),
{
    match reply {
        ProxyReply::Partial => ProxyStep::ReadMore,
        ProxyReply::Complete(code) => match code {
            Some(200) => ProxyStep::Established,
            _ => ProxyStep::Failed(RpcClientError::RpcProxyStatus(code)),
        },
        ProxyReply::Invalid => ProxyStep::Failed(RpcClientError::RpcProxyResponseParse),
    }
}

/// The value of an authorization header for credentials that are encoded
/// already.
pub open spec fn basic_authorization_text(encoded: Seq<u8>) -> Seq<u8> {
    "Basic ".spec_bytes() + encoded
}

/// The request that asks a proxy for a tunnel to `host`, with credentials
/// that are encoded already.
pub open spec fn proxy_request_text(host: Seq<char>, encoded: Seq<u8>) -> Seq<u8> {
    "CONNECT ".spec_bytes() + encode_utf8(host) + " HTTP/1.1\r\nHost: ".spec_bytes() + encode_utf8(
        host,
    ) + "\r\nProxy-Connection: Keep-Alive\r\n".spec_bytes() + "Proxy-Authorization: ".spec_bytes()
        + basic_authorization_text(encoded) + "\r\n\r\n".spec_bytes()
}

/// Appends the value of an authorization header for credentials that are
/// encoded already.
pub fn write_basic_authorization(encoded: &[u8], out: &mut Vec<u8>)
    ensures
        final(out)@ == old(out)@ + basic_authorization_text(encoded@),
{
    append_bytes(out, "Basic ".as_bytes());
    append_bytes(out, encoded);
}

/// Appends the CONNECT request for `host`, with credentials that are encoded
/// already.
pub fn write_proxy_request(host: &str, encoded: &[u8], out: &mut Vec<u8>)
    ensures
        final(out)@ == old(out)@ + proxy_request_text(host@, encoded@),
{
    append_bytes(out, "CONNECT ".as_bytes());
    append_bytes(out, host.as_bytes());
    append_bytes(out, " HTTP/1.1\r\nHost: ".as_bytes());
    append_bytes(out, host.as_bytes());
    append_bytes(out, "\r\nProxy-Connection: Keep-Alive\r\n".as_bytes());
    append_bytes(out, "Proxy-Authorization: ".as_bytes());
    write_basic_authorization(encoded, out);
    append_bytes(out, "\r\n\r\n".as_bytes());
}

impl Default for ConnConfig {
    /// A configuration for a server on this machine: TLS on, no proxy, connect
    /// at once, reconnect when the socket fails.
    fn default() -> (config: Self)
        ensures
            config.host@ == "127.0.0.1:19109"@,
            config.endpoint@ == "ws"@,
            config.user@ == Seq::<char>::empty(),
            config.password@ == Seq::<char>::empty(),
            config.certificates@ == Seq::<char>::empty(),
            config.proxy_host is None,
            config.proxy_username@ == Seq::<char>::empty(),
            config.proxy_password@ == Seq::<char>::empty(),
            !config.disable_tls,
            !config.disable_connect_on_new,
            !config.disable_auto_reconnect,
            !config.http_post_mode,
    {
        ConnConfig {
            certificates: String::new(),
            disable_connect_on_new: false,
            disable_tls: false,
            http_post_mode: false,
            disable_auto_reconnect: false,
            endpoint: String::from_str("ws"),
            host: String::from_str("127.0.0.1:19109"),
            password: String::new(),
            proxy_host: None,
            proxy_username: String::new(),
            proxy_password: String::new(),
            user: String::new(),
        }
    }
}

impl ConnConfig {
    /// The credentials as they are encoded for Basic authentication: user,
    /// colon, password.
    pub open spec fn login(self) -> Seq<u8> {
        encode_utf8(self.user@) + ":".spec_bytes() + encode_utf8(self.password@)
    }

    /// Whether the credentials are short enough to be encoded.
    pub open spec fn credentials_fit(self) -> bool {
        encodable(self.login())
    }

    /// The value of an authorization header for the credentials.
    pub open spec fn basic_authorization(self) -> Seq<u8> {
        basic_authorization_text(base64_encoding(self.login()))
    }

    /// The request that asks a proxy for a tunnel to the host. It carries the
    /// credentials of the RPC server, not `proxy_username` and
    /// `proxy_password`.
    pub open spec fn proxy_request(self) -> Seq<u8> {
        proxy_request_text(self.host@, base64_encoding(self.login()))
    }

    /// The scheme of the websocket's address.
    pub open spec fn scheme(self) -> Seq<char> {
        if self.disable_tls {
            "ws"@
        } else {
            "wss"@
        }
    }

    /// The address of the websocket: scheme, host and endpoint.
    pub open spec fn websocket_uri(self) -> Seq<char> {
        self.scheme() + "://"@ + self.host@ + "/"@ + self.endpoint@
    }

    /// The address that is dialled: the proxy if one is set, else the host.
    pub open spec fn dial_address(self) -> Seq<char> {
        match self.proxy_host {
            Some(proxy) => proxy@,
            None => self.host@,
        }
    }

    /// Whether `setup` opens a stream to `addr` as the configuration asks:
    /// wrapped in TLS unless that is disabled, for the name `addr`, trusting
    /// the configured certificates.
    pub open spec fn sets_up(self, addr: Seq<char>, setup: StreamSetup) -> bool {
        &&& setup.address@ == addr
        &&& setup.tls == !self.disable_tls
        &&& setup.domain@ == addr
        &&& setup.certificates@ == self.certificates@
    }

    /// Whether a websocket connection is not to be started when the client is
    /// created.
    pub fn disable_connect_on_new(&self) -> (flag: bool)
        ensures
            flag == self.disable_connect_on_new,
    {
        self.disable_connect_on_new
    }

    /// Whether the client runs in HTTP POST mode.
    pub fn is_http_mode(&self) -> (flag: bool)
        ensures
            flag == self.http_post_mode,
    {
        self.http_post_mode
    }

    /// Whether a failed websocket is left alone.
    pub fn disable_auto_reconnect(&self) -> (flag: bool)
        ensures
            flag == self.disable_auto_reconnect,
    {
        self.disable_auto_reconnect
    }

    /// The credentials, ready to be encoded.
    fn login_bytes(&self) -> (login: Vec<u8>)
        ensures
            login@ == self.login(),
    {
        let mut login: Vec<u8> = Vec::new();
        append_bytes(&mut login, self.user.as_str().as_bytes());
        append_bytes(&mut login, ":".as_bytes());
        append_bytes(&mut login, self.password.as_str().as_bytes());
        login
    }

    /// Appends the value of an authorization header for the credentials.
    fn add_basic_authorization(&self, out: &mut Vec<u8>)
        requires
            self.credentials_fit(),
        ensures
            final(out)@ == old(out)@ + self.basic_authorization(),
    {
        let login = self.login_bytes();
        let encoded = base64_encode(login.as_slice());
        write_basic_authorization(encoded.as_slice(), out);
    }

    /// Appends the CONNECT request for the configured host to
    /// `buffered_header`.
    pub fn add_proxy_header(&self, buffered_header: &mut Vec<u8>)
        requires
            self.credentials_fit(),
        ensures
            final(buffered_header)@ == old(buffered_header)@ + self.proxy_request(),
    {
        let login = self.login_bytes();
        let encoded = base64_encode(login.as_slice());
        write_proxy_request(self.host.as_str(), encoded.as_slice(), buffered_header);
    }

    /// Says how to open the stream to `addr`.
    pub fn connect_stream(&self, addr: &str) -> (setup: StreamSetup)
        ensures
            self.sets_up(addr@, setup),
    {
        StreamSetup {
            address: String::from_str(addr),
            tls: !self.disable_tls,
            domain: String::from_str(addr),
            certificates: self.certificates.clone(),
        }
    }

    /// Says how to dial the websocket: which stream to open (to the proxy if
    /// one is set), what to ask of the proxy, and which address and
    /// authorization the upgrade request carries.
    pub fn dial_websocket(&self) -> (plan: DialPlan)
        requires
            self.credentials_fit(),
        ensures
            self.sets_up(self.dial_address(), plan.stream),
            match plan.proxy_header {
                Some(header) => self.proxy_host is Some && header@ == self.proxy_request(),
                None => self.proxy_host is None,
            },
            plan.uri@ == self.websocket_uri(),
            plan.authorization@ == self.basic_authorization(),
    {
        let mut proxy_header: Option<Vec<u8>> = None;
        let stream = match &self.proxy_host {
            Some(proxy) => {
                let mut buffered_header: Vec<u8> = Vec::new();
                self.add_proxy_header(&mut buffered_header);
                proxy_header = Some(buffered_header);
                self.connect_stream(proxy.as_str())
            },
            None => self.connect_stream(self.host.as_str()),
        };
        let scheme = if self.disable_tls {
            "ws"
        } else {
            "wss"
        };
        let mut uri = String::from_str(scheme);
        uri.append("://");
        uri.append(self.host.as_str());
        uri.append("/");
        uri.append(self.endpoint.as_str());
        let mut authorization: Vec<u8> = Vec::new();
        self.add_basic_authorization(&mut authorization);
        DialPlan { stream, proxy_header, uri, authorization }
    }

    /// Decides, while the tunnel is negotiated, what to do with the bytes
    /// that the proxy has sent so far.
    pub fn dial_connection(&self, read_buffered: &[u8]) -> (step: ProxyStep)
        ensures
            step == proxy_verdict(parsed_proxy_reply(read_buffered@)),
    {
        proxy_step(parse_proxy_reply(read_buffered))
    }
}

} // verus!
