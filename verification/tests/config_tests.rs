use simple_tor::addr::Ipv4Addr;
use simple_tor::addr::SocketAddr;
use simple_tor::addr::SocketAddrV4;
use simple_tor::config::ProxyMode;
use simple_tor::ProxyConfig;
use simple_tor::TcpProxy;

fn v4(a: u8, b: u8, c: u8, d: u8, port: u16) -> SocketAddr {
    SocketAddr::V4(SocketAddrV4::new(Ipv4Addr::new(a, b, c, d), port))
}

#[test]
fn test_proxy_config_creation() {
    let config = ProxyConfig::new();
    assert_eq!(config.listen_addr, v4(127, 0, 0, 1, 1080));
    assert!(matches!(config.mode, ProxyMode::Socks4));
}

#[test]
fn test_proxy_config_builder() {
    let listen_addr = v4(127, 0, 0, 1, 8080);
    let target_addr = v4(127, 0, 0, 1, 9090);

    let config = ProxyConfig::new()
        .with_listen_addr(listen_addr)
        .with_target_addr(target_addr);

    assert_eq!(config.listen_addr, listen_addr);
    assert!(matches!(config.mode, ProxyMode::Direct(_)));
}

#[test]
fn test_proxy_config_socks4_mode() {
    let config = ProxyConfig::new()
        .with_target_addr(v4(10, 0, 0, 1, 443))
        .with_socks4_mode();
    assert!(matches!(config.mode, ProxyMode::Socks4));
}

#[test]
fn test_proxy_config_ignored_knobs() {
    let config = ProxyConfig::new().with_buffer_size(8192).with_timeout(30);
    assert_eq!(config.listen_addr, v4(127, 0, 0, 1, 1080));
    assert!(matches!(config.mode, ProxyMode::Socks4));
}

#[test]
fn test_tcp_proxy_holds_config() {
    let config = ProxyConfig::new().with_listen_addr(v4(0, 0, 0, 0, 1080));
    let proxy = TcpProxy::new(config);
    assert_eq!(proxy.config.listen_addr, v4(0, 0, 0, 0, 1080));
}
