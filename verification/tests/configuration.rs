//! The typed settings.

use newsletter::configuration::ApplicationSettings;

fn settings(host: &str, port: u16) -> ApplicationSettings {
    ApplicationSettings {
        base_url: "https://newsletter.example".to_string(),
        host: host.to_string(),
        max_pending_connections: 128,
        port,
    }
}

#[test]
fn binding_address_joins_host_and_port() {
    assert_eq!(settings("127.0.0.1", 8000).binding_address(), "127.0.0.1:8000");
}

#[test]
fn binding_address_renders_edge_ports() {
    assert_eq!(settings("0.0.0.0", 0).binding_address(), "0.0.0.0:0");
    assert_eq!(settings("localhost", 65535).binding_address(), "localhost:65535");
    assert_eq!(settings("localhost", 10).binding_address(), "localhost:10");
}
