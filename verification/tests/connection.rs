use rustdcr::rpcclient::connection::{proxy_step, ConnConfig, ProxyReply, ProxyStep};
use rustdcr::rpcclient::error::RpcClientError;

fn config() -> ConnConfig {
    ConnConfig {
        host: "node:9109".to_string(),
        user: "user".to_string(),
        password: "pass".to_string(),
        certificates: "PEM".to_string(),
        ..ConnConfig::default()
    }
}

#[test]
fn default_config_points_at_local_server() {
    let config = ConnConfig::default();
    assert_eq!(config.host, "127.0.0.1:19109");
    assert_eq!(config.endpoint, "ws");
    assert_eq!(config.user, "");
    assert_eq!(config.password, "");
    assert_eq!(config.certificates, "");
    assert_eq!(config.proxy_host, None);
    assert_eq!(config.proxy_username, "");
    assert_eq!(config.proxy_password, "");
    assert!(!config.disable_tls);
    assert!(!config.disable_connect_on_new);
    assert!(!config.disable_auto_reconnect);
    assert!(!config.http_post_mode);
    assert!(!config.disable_connect_on_new());
    assert!(!config.is_http_mode());
    assert!(!config.disable_auto_reconnect());
}

#[test]
fn proxy_header_is_a_connect_request_with_basic_credentials() {
    let mut buffered_header = b"x".to_vec();
    config().add_proxy_header(&mut buffered_header);
    assert_eq!(
        String::from_utf8(buffered_header).unwrap(),
        "xCONNECT node:9109 HTTP/1.1\r\nHost: node:9109\r\nProxy-Connection: Keep-Alive\r\n\
         Proxy-Authorization: Basic dXNlcjpwYXNz\r\n\r\n"
    );
}

#[test]
fn proxy_header_uses_the_credentials_of_the_server() {
    let config = ConnConfig {
        proxy_username: "other".to_string(),
        proxy_password: "secret".to_string(),
        ..config()
    };
    let mut buffered_header = Vec::new();
    config.add_proxy_header(&mut buffered_header);
    let text = String::from_utf8(buffered_header).unwrap();
    assert!(text.contains("Basic dXNlcjpwYXNz\r\n"));
}

#[test]
fn dial_plan_without_proxy() {
    let plan = config().dial_websocket();
    assert_eq!(plan.stream.address, "node:9109");
    assert!(plan.stream.tls);
    assert_eq!(plan.stream.domain, "node:9109");
    assert_eq!(plan.stream.certificates, "PEM");
    assert_eq!(plan.proxy_header, None);
    assert_eq!(plan.uri, "wss://node:9109/ws");
    assert_eq!(plan.authorization, b"Basic dXNlcjpwYXNz".to_vec());
}

#[test]
fn dial_plan_through_proxy_without_tls() {
    let config = ConnConfig {
        proxy_host: Some("proxy:3128".to_string()),
        disable_tls: true,
        endpoint: "rpc".to_string(),
        ..config()
    };
    let plan = config.dial_websocket();
    assert_eq!(plan.stream.address, "proxy:3128");
    assert!(!plan.stream.tls);
    assert_eq!(plan.uri, "ws://node:9109/rpc");
    let mut expected = Vec::new();
    config.add_proxy_header(&mut expected);
    assert_eq!(plan.proxy_header, Some(expected));
}

#[test]
fn empty_credentials_encode_the_colon() {
    let plan = ConnConfig::default().dial_websocket();
    assert_eq!(plan.authorization, b"Basic Og==".to_vec());
}

#[test]
fn connect_stream_follows_the_tls_switch() {
    let setup = config().connect_stream("a:1");
    assert_eq!(setup.address, "a:1");
    assert_eq!(setup.domain, "a:1");
    assert!(setup.tls);
    let plain = ConnConfig { disable_tls: true, ..config() }.connect_stream("a:1");
    assert!(!plain.tls);
}

#[test]
fn proxy_reply_200_establishes_the_tunnel() {
    let step = config().dial_connection(b"HTTP/1.1 200 Connection established\r\n\r\n");
    assert_eq!(step, ProxyStep::Established);
}

#[test]
fn proxy_reply_with_another_status_fails() {
    let step = config()
        .dial_connection(b"HTTP/1.1 407 Proxy Authentication Required\r\nX: y\r\n\r\n");
    assert_eq!(step, ProxyStep::Failed(RpcClientError::RpcProxyStatus(Some(407))));
}

#[test]
fn partial_proxy_reply_asks_for_more() {
    assert_eq!(config().dial_connection(b"HTTP/1.1 200 OK\r\nHea"), ProxyStep::ReadMore);
    assert_eq!(config().dial_connection(b""), ProxyStep::ReadMore);
}

#[test]
fn garbage_from_proxy_is_a_parse_error() {
    assert_eq!(
        config().dial_connection(b"SSH-2.0-OpenSSH\r\n\r\n"),
        ProxyStep::Failed(RpcClientError::RpcProxyResponseParse)
    );
}

#[test]
fn proxy_step_by_reply() {
    assert_eq!(proxy_step(ProxyReply::Partial), ProxyStep::ReadMore);
    assert_eq!(proxy_step(ProxyReply::Complete(Some(200))), ProxyStep::Established);
    assert_eq!(
        proxy_step(ProxyReply::Complete(None)),
        ProxyStep::Failed(RpcClientError::RpcProxyStatus(None))
    );
    assert_eq!(
        proxy_step(ProxyReply::Complete(Some(201))),
        ProxyStep::Failed(RpcClientError::RpcProxyStatus(Some(201)))
    );
    assert_eq!(
        proxy_step(ProxyReply::Invalid),
        ProxyStep::Failed(RpcClientError::RpcProxyResponseParse)
    );
}

#[test]
fn every_error_has_a_message() {
    assert_eq!(RpcClientError::RpcDisconnected.message(), "RPC client disconnected");
    assert_eq!(
        RpcClientError::UnregisteredNotification("notifyblocks".to_string()).message(),
        "unsupported notification: notifyblocks"
    );
    assert_eq!(
        RpcClientError::ServerError(-1, "boom".to_string()).message(),
        "server returned an error: boom"
    );
    let all = [
        RpcClientError::TcpStream,
        RpcClientError::TlsHandshake,
        RpcClientError::TlsStream,
        RpcClientError::WsTlsCertificate,
        RpcClientError::RpcHandshake,
        RpcClientError::RpcAuthenticationRequest,
        RpcClientError::ProxyAuthentication,
        RpcClientError::RpcProxyStatus(Some(500)),
        RpcClientError::RpcProxyResponseParse,
        RpcClientError::WebsocketAlreadyConnected,
        RpcClientError::Marshaller,
        RpcClientError::Unmarshaller,
        RpcClientError::ClientNotConnected,
    ];
    for e in all.iter() {
        assert!(!e.message().is_empty());
    }
}
