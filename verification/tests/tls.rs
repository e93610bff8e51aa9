use std::sync::Arc;

use container_agent_dev::bootstrap::Bootstrap;
use container_agent_dev::tls::{
    build_tls_config, config_trusting, endpoint_server_name, HttpsUpstream, TlsError,
    UpstreamError,
};
use rcgen::{BasicConstraints, CertificateParams, IsCa, KeyPair};
use rustls::pki_types::{CertificateDer, PrivateKeyDer, PrivatePkcs8KeyDer, ServerName};
use rustls::{ClientConfig, ClientConnection, ServerConfig, ServerConnection};

/// A CA and a leaf that it signed for `127.0.0.1`.
struct Ca {
    ca_pem: String,
    ca_der: Vec<u8>,
    leaf_cert: CertificateDer<'static>,
    leaf_key: PrivateKeyDer<'static>,
}

fn make_ca() -> Ca {
    let mut ca_params = CertificateParams::new(Vec::new()).expect("ca params");
    ca_params.is_ca = IsCa::Ca(BasicConstraints::Unconstrained);
    let ca_key = KeyPair::generate().expect("ca key");
    let ca_cert = ca_params.self_signed(&ca_key).expect("self-sign ca");

    let leaf_params = CertificateParams::new(vec!["127.0.0.1".to_string()]).expect("leaf params");
    let leaf_key = KeyPair::generate().expect("leaf key");
    let leaf_cert = leaf_params
        .signed_by(&leaf_key, &ca_cert, &ca_key)
        .expect("sign leaf");

    Ca {
        ca_pem: ca_cert.pem(),
        ca_der: ca_cert.der().to_vec(),
        leaf_cert: leaf_cert.der().clone(),
        leaf_key: PrivateKeyDer::from(PrivatePkcs8KeyDer::from(leaf_key.serialize_der())),
    }
}

/// Does a TLS handshake in memory with a server that presents the leaf of `ca`.
fn handshake(config: ClientConfig, server_name: &str, ca: &Ca) -> Result<(), rustls::Error> {
    let provider = Arc::new(rustls::crypto::ring::default_provider());
    let server_config = ServerConfig::builder_with_provider(provider)
        .with_safe_default_protocol_versions()
        .expect("server protocol versions")
        .with_no_client_auth()
        .with_single_cert(vec![ca.leaf_cert.clone()], ca.leaf_key.clone_key())
        .expect("server single cert");
    let mut server = ServerConnection::new(Arc::new(server_config)).expect("server");
    let name = ServerName::try_from(server_name.to_string()).expect("a server name");
    let mut client = ClientConnection::new(Arc::new(config), name).expect("client");
    for _ in 0..16 {
        let mut wire = Vec::new();
        while client.wants_write() {
            client.write_tls(&mut wire).expect("write");
        }
        let mut reader: &[u8] = &wire;
        while !reader.is_empty() {
            server.read_tls(&mut reader).expect("read");
            server.process_new_packets()?;
        }
        let mut wire = Vec::new();
        while server.wants_write() {
            server.write_tls(&mut wire).expect("write");
        }
        let mut reader: &[u8] = &wire;
        while !reader.is_empty() {
            client.read_tls(&mut reader).expect("read");
            client.process_new_packets()?;
        }
        if !client.is_handshaking() && !server.is_handshaking() {
            return Ok(());
        }
    }
    panic!("the handshake did not end");
}

fn bootstrap(bulk_endpoint: &str, ca_cert_pem: &str) -> Bootstrap {
    Bootstrap {
        bulk_endpoint: bulk_endpoint.to_string(),
        read_token: "read-token".to_string(),
        ca_cert_pem: ca_cert_pem.to_string(),
        ws_endpoint: String::new(),
    }
}

#[test]
fn build_tls_config_rejects_empty_pem() {
    let err = build_tls_config("not a cert").unwrap_err();
    assert!(err.message().contains("no certificates"), "unexpected error: {err:?}");
    assert_eq!(err, TlsError::NoCertificates);
    assert_eq!(build_tls_config("").unwrap_err(), TlsError::NoCertificates);
}

#[test]
fn a_pem_that_cannot_be_read_is_its_own_error() {
    let err = build_tls_config("-----BEGIN CERTIFICATE-----\n!!!!\n-----END CERTIFICATE-----\n")
        .unwrap_err();
    assert!(matches!(err, TlsError::BadPem(_)), "{err:?}");
    assert!(err.message().starts_with("parsing bootstrap ca_cert_pem: "));
}

#[test]
fn a_certificate_that_is_none_is_its_own_error() {
    let err = build_tls_config("-----BEGIN CERTIFICATE-----\nAAAA\n-----END CERTIFICATE-----\n")
        .unwrap_err();
    assert!(matches!(err, TlsError::BadCertificate(_)), "{err:?}");
    assert!(err.message().starts_with("adding bootstrap CA to root store: "));
    // One bad certificate among good ones spoils the whole.
    let good = make_ca().ca_der;
    let err = config_trusting(&vec![good, vec![0, 0, 0]]).unwrap_err();
    assert!(matches!(err, TlsError::BadCertificate(_)), "{err:?}");
    assert_eq!(config_trusting(&vec![]).unwrap_err(), TlsError::NoCertificates);
}

#[test]
fn messages_of_the_other_errors() {
    assert_eq!(
        TlsError::NoVersions("none".to_string()).message(),
        "selecting rustls protocol versions: none"
    );
    assert_eq!(
        UpstreamError::BadServerName("x".to_string()).message(),
        "invalid bulk TLS server name: x"
    );
    assert_eq!(
        UpstreamError::Tls(TlsError::NoCertificates).message(),
        "bootstrap ca_cert_pem contained no certificates"
    );
}

#[test]
fn pinned_ca_accepts_matching_leaf_and_streams_200() {
    let ca = make_ca();
    let upstream =
        HttpsUpstream::from_bootstrap(&bootstrap("127.0.0.1:8443", &ca.ca_pem)).expect("build upstream");
    assert_eq!(upstream.target.server_name, "127.0.0.1");
    assert_eq!(upstream.target.authority, "127.0.0.1:8443");
    assert_eq!(upstream.target.read_token, "read-token");
    handshake(upstream.config, &upstream.target.server_name, &ca)
        .expect("pinned CA accepts its own leaf");
}

#[test]
fn pinned_ca_rejects_leaf_from_a_different_ca() {
    let server_ca = make_ca();
    let client_ca = make_ca();
    let upstream = HttpsUpstream::from_bootstrap(&bootstrap("127.0.0.1:8443", &client_ca.ca_pem))
        .expect("build upstream");
    let result = handshake(upstream.config, &upstream.target.server_name, &server_ca);
    assert!(
        result.is_err(),
        "handshake must fail: a host leaf not signed by the bootstrap CA is rejected"
    );
}

#[test]
fn every_certificate_of_the_bootstrap_is_trusted() {
    let first = make_ca();
    let second = make_ca();
    let pem = format!("{}{}", first.ca_pem, second.ca_pem);
    for ca in [&first, &second] {
        let config = build_tls_config(&pem).expect("two certificates");
        handshake(config, "127.0.0.1", ca).expect("both are trusted");
    }
    let config = build_tls_config(&first.ca_pem).expect("one certificate");
    assert!(handshake(config, "127.0.0.1", &second).is_err());
}

#[test]
fn an_upstream_needs_a_ca_and_a_server_name() {
    let err = HttpsUpstream::from_bootstrap(&bootstrap("127.0.0.1:1", "nothing")).err().unwrap();
    assert_eq!(err, UpstreamError::Tls(TlsError::NoCertificates));
    let ca = make_ca();
    let err = HttpsUpstream::from_bootstrap(&bootstrap("not a host:1", &ca.ca_pem)).err().unwrap();
    assert_eq!(err.message(), "invalid bulk TLS server name: invalid dns name");
    // The CA is looked at first.
    let err = HttpsUpstream::from_bootstrap(&bootstrap("not a host:1", "nothing")).err().unwrap();
    assert!(matches!(err, UpstreamError::Tls(_)));
}

#[test]
fn loopback_ip_is_a_valid_server_name() {
    assert!(ServerName::try_from("127.0.0.1").is_ok());
    assert_eq!(endpoint_server_name("127.0.0.1"), Ok("127.0.0.1".to_string()));
    assert_eq!(endpoint_server_name("127.0.0.1:15151"), Ok("127.0.0.1".to_string()));
    assert_eq!(endpoint_server_name("host.local:443"), Ok("host.local".to_string()));
    // The text of an address is its canonical one.
    assert_eq!(endpoint_server_name("2001:DB8:0::1:443"), Ok("2001:db8::1".to_string()));
    assert!(endpoint_server_name("").is_err());
}
