use docker_client::transport::TransportConfig;
use docker_client::DEFAULT_DOCKER_HOST;

#[test]
fn unix_endpoint_selects_local_socket() {
    let t = TransportConfig::from_host("unix:///var/run/docker.sock").unwrap();
    match t {
        TransportConfig::LocalSocket { path } => assert_eq!(path, "/var/run/docker.sock"),
        other => panic!("expected a local socket, got {:?}", other),
    }
}

#[test]
fn tcp_endpoint_selects_secure_tcp_with_https_base() {
    let t = TransportConfig::from_host("tcp://localhost:2376").unwrap();
    match t {
        TransportConfig::SecureTcp { base } => assert_eq!(base, "https://localhost:2376"),
        other => panic!("expected the secure transport, got {:?}", other),
    }
}

#[test]
fn unknown_scheme_fails_fast() {
    let err = TransportConfig::from_host("http://localhost:2375").unwrap_err();
    assert_eq!(
        err.message(),
        "unsupported scheme in Docker host http://localhost:2375"
    );
}

#[test]
fn default_host_is_the_local_socket() {
    let t = TransportConfig::from_host(DEFAULT_DOCKER_HOST).unwrap();
    match t {
        TransportConfig::LocalSocket { path } => assert_eq!(path, "/var/run/docker.sock"),
        other => panic!("expected a local socket, got {:?}", other),
    }
}

#[test]
fn unix_without_prefix_keeps_the_address() {
    match TransportConfig::unix("/tmp/docker.sock") {
        TransportConfig::LocalSocket { path } => assert_eq!(path, "/tmp/docker.sock"),
        other => panic!("expected a local socket, got {:?}", other),
    }
}

#[test]
fn secure_tcp_without_prefix_keeps_the_address() {
    match TransportConfig::secure_tcp("https://example.com:2376") {
        TransportConfig::SecureTcp { base } => assert_eq!(base, "https://example.com:2376"),
        other => panic!("expected the secure transport, got {:?}", other),
    }
}
