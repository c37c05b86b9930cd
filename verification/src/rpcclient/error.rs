//! Errors of the RPC client.

use vstd::prelude::*;
use vstd::string::*;

verus! {

/// Everything that can go wrong between a call on the client and its answer.
///
/// The errors of the dial path are returned by `new` and `connect`; the others
/// come back from a submission or from reading a reply.
#[derive(Debug, Clone, PartialEq, Eq)]
pub enum RpcClientError {
    /// The TCP connection could not be opened.
    TcpStream,
    /// The TLS connector could not be built.
    TlsHandshake,
    /// The TLS handshake on the stream failed.
    TlsStream,
    /// The configured certificate is not valid PEM.
    WsTlsCertificate,
    /// The server refused the websocket upgrade.
    RpcHandshake,
    /// The upgrade request could not be built from the configuration.
    RpcAuthenticationRequest,
    /// Writing to or reading from the proxy failed.
    ProxyAuthentication,
    /// The proxy answered the CONNECT request with a status other than 200.
    RpcProxyStatus(Option<u16>),
    /// The proxy's answer is not an HTTP response.
    RpcProxyResponseParse,
    /// `connect` was called on a client that is connected or runs in HTTP mode.
    WebsocketAlreadyConnected,
    /// The command was submitted while no transport accepts commands.
    RpcDisconnected,
    /// The request could not be written as JSON.
    Marshaller,
    /// The reply does not have the shape the call expects.
    Unmarshaller,
    /// The server refused to register the named notification.
    UnregisteredNotification(String),
    /// The server answered with an error: its code and its message.
    ServerError(i64, String),
    /// Notifications were asked of a client that runs in HTTP mode.
    ClientNotConnected,
}

impl RpcClientError {
    /// The sentence that describes the kind of error, without its details.
    pub open spec fn summary(self) -> Seq<char> {
        match self {
            RpcClientError::TcpStream => "error connecting to tcp stream"@,
            RpcClientError::TlsHandshake => "error creating tls handshake"@,
            RpcClientError::TlsStream => "error creating tls stream"@,
            RpcClientError::WsTlsCertificate => "error parsing tls certificate"@,
            RpcClientError::RpcHandshake => "error creating websocket handshake"@,
            RpcClientError::RpcAuthenticationRequest => "error building RPC authentication request"@,
            RpcClientError::ProxyAuthentication => "error authenticating to proxy"@,
            RpcClientError::RpcProxyStatus(_) => "proxy refused the tunnel"@,
            RpcClientError::RpcProxyResponseParse => "error parsing proxy response"@,
            RpcClientError::WebsocketAlreadyConnected => "websocket already connected"@,
            RpcClientError::RpcDisconnected => "RPC client disconnected"@,
            RpcClientError::Marshaller => "error marshalling request"@,
            RpcClientError::Unmarshaller => "error unmarshalling reply"@,
            RpcClientError::UnregisteredNotification(_) => "unsupported notification: "@,
            RpcClientError::ServerError(_, _) => "server returned an error: "@,
            RpcClientError::ClientNotConnected => "client is not connected to a websocket"@,
        }
    }

    /// The text that follows the summary: the method the server refused, or the
    /// server's own message. Empty for the other errors.
    pub open spec fn detail(self) -> Seq<char> {
        match self {
            RpcClientError::UnregisteredNotification(method) => method@,
            RpcClientError::ServerError(_, message) => message@,
            _ => Seq::empty(),
        }
    }

    /// A description of the error for people: the summary followed by the detail.
    pub fn message(&self) -> (text: String)
        ensures
            text@ == self.summary() + self.detail(),
    {
        let head = match self {
            RpcClientError::TcpStream => "error connecting to tcp stream",
            RpcClientError::TlsHandshake => "error creating tls handshake",
            RpcClientError::TlsStream => "error creating tls stream",
            RpcClientError::WsTlsCertificate => "error parsing tls certificate",
            RpcClientError::RpcHandshake => "error creating websocket handshake",
            RpcClientError::RpcAuthenticationRequest => "error building RPC authentication request",
            RpcClientError::ProxyAuthentication => "error authenticating to proxy",
            RpcClientError::RpcProxyStatus(_) => "proxy refused the tunnel",
            RpcClientError::RpcProxyResponseParse => "error parsing proxy response",
            RpcClientError::WebsocketAlreadyConnected => "websocket already connected",
            RpcClientError::RpcDisconnected => "RPC client disconnected",
            RpcClientError::Marshaller => "error marshalling request",
            RpcClientError::Unmarshaller => "error unmarshalling reply",
            RpcClientError::UnregisteredNotification(_) => "unsupported notification: ",
            RpcClientError::ServerError(_, _) => "server returned an error: ",
            RpcClientError::ClientNotConnected => "client is not connected to a websocket",
        };
        let mut text = String::from_str(head);
        match self {
            RpcClientError::UnregisteredNotification(method) => text.append(method.as_str()),
            RpcClientError::ServerError(_, message) => text.append(message.as_str()),
            _ => {},
        }
        text
    }
}

} // verus!
