use docker_client::transport::TransportConfig;
use docker_client::url::{RequestTarget, UrlBuilder};

#[test]
fn https_base_and_path_concatenate() {
    let builder = UrlBuilder::Https {
        base: String::from("https://host:2376"),
    };
    match builder.build_url("/info").unwrap() {
        RequestTarget::Https { url } => assert_eq!(url, "https://host:2376/info"),
        other => panic!("expected an absolute URL, got {:?}", other),
    }
}

#[test]
fn local_target_carries_socket_and_resource_paths() {
    let builder = UrlBuilder::Local {
        base: String::from("/var/run/docker.sock"),
    };
    match builder.build_url("/info").unwrap() {
        RequestTarget::Local {
            socket_path,
            resource_path,
        } => {
            assert_eq!(socket_path, "/var/run/docker.sock");
            assert_eq!(resource_path, "/info");
        }
        other => panic!("expected a local target, got {:?}", other),
    }
}

#[test]
fn malformed_url_is_rejected_with_a_descriptive_error() {
    let builder = UrlBuilder::Https {
        base: String::from("https://host:2376"),
    };
    let err = builder.build_url("/white space").unwrap_err();
    assert_eq!(err.message(), "cannot parse URL https://host:2376/white space");
}

#[test]
fn builder_follows_the_transport() {
    let tcp = TransportConfig::SecureTcp {
        base: String::from("https://host:2376"),
    };
    match UrlBuilder::for_transport(&tcp) {
        UrlBuilder::Https { base } => assert_eq!(base, "https://host:2376"),
        other => panic!("expected the HTTPS builder, got {:?}", other),
    }
    let local = TransportConfig::LocalSocket {
        path: String::from("/var/run/docker.sock"),
    };
    match UrlBuilder::for_transport(&local) {
        UrlBuilder::Local { base } => assert_eq!(base, "/var/run/docker.sock"),
        other => panic!("expected the local builder, got {:?}", other),
    }
}
