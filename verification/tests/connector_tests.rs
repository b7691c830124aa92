use docker_client::connector::{alpn_protocols, parse_ca_file};
use docker_client::errors::Error;

#[test]
fn alpn_offers_h2_then_http11() {
    let protocols = alpn_protocols();
    assert_eq!(protocols, vec![b"h2".to_vec(), b"http/1.1".to_vec()]);
}

#[test]
fn custom_ca_file_contributes_its_certificates() {
    let pem = b"-----BEGIN CERTIFICATE-----\nAAECAwQF\n-----END CERTIFICATE-----\n".to_vec();
    let certs = parse_ca_file("/certs/ca.pem", &Some(pem)).unwrap();
    assert_eq!(certs, vec![vec![0u8, 1, 2, 3, 4, 5]]);
}

#[test]
fn unreadable_ca_file_names_its_path() {
    let err = parse_ca_file("/certs/ca.pem", &None).unwrap_err();
    assert_eq!(
        err,
        Error::Certificate {
            detail: String::from("cannot open /certs/ca.pem")
        }
    );
}

#[test]
fn unscannable_ca_file_names_its_path() {
    let pem = b"-----BEGIN CERTIFICATE-----\n!!!not base64!!!\n-----END CERTIFICATE-----\n"
        .to_vec();
    let err = parse_ca_file("/certs/ca.pem", &Some(pem)).unwrap_err();
    assert_eq!(
        err,
        Error::Certificate {
            detail: String::from("error reading /certs/ca.pem")
        }
    );
}
