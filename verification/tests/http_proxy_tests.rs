use beam_pki::errors::SamplyBeamError;
use beam_pki::http_proxy::{
    build_client, build_hyper_client, check_transport, distinct_proxies, transport_summary,
    CONNECT_TIMEOUT_SECONDS,
};
use openssl::asn1::Asn1Time;
use openssl::hash::MessageDigest;
use openssl::pkey::PKey;
use openssl::rsa::Rsa;
use openssl::x509::{X509NameBuilder, X509};

const MISSING_PROXY: &str = "Certificates for TLS termination were provided but no proxy to use. Please supply correct configuration.";

fn uris(list: &[&str]) -> Vec<String> {
    list.iter().map(|s| s.to_string()).collect()
}

fn certificate() -> X509 {
    let key = PKey::from_rsa(Rsa::generate(2048).unwrap()).unwrap();
    let mut name = X509NameBuilder::new().unwrap();
    name.append_entry_by_text("CN", "proxy.example").unwrap();
    let name = name.build();
    let mut builder = X509::builder().unwrap();
    builder.set_version(2).unwrap();
    builder.set_subject_name(&name).unwrap();
    builder.set_issuer_name(&name).unwrap();
    builder.set_pubkey(&key).unwrap();
    builder.set_not_before(&Asn1Time::days_from_now(0).unwrap()).unwrap();
    builder.set_not_after(&Asn1Time::days_from_now(30).unwrap()).unwrap();
    builder.sign(&key, MessageDigest::sha256()).unwrap();
    builder.build()
}

#[test]
fn certificates_without_proxy_are_refused() {
    for certificates in 1..4usize {
        assert_eq!(
            check_transport(&Vec::new(), certificates),
            Err(SamplyBeamError::HttpProxyProblem(MISSING_PROXY.to_string()))
        );
    }
}

#[test]
fn nothing_at_all_is_accepted() {
    assert_eq!(
        check_transport(&Vec::new(), 0),
        Ok("Using no proxy and no trusted certificate for TLS termination.".to_string())
    );
}

#[test]
fn one_proxy_is_named() {
    assert_eq!(
        check_transport(&uris(&["http://proxy:3128/"]), 0),
        Ok("Using proxy http://proxy:3128/ and no trusted certificate for TLS termination."
            .to_string())
    );
    assert_eq!(
        check_transport(&uris(&["http://proxy:3128/"]), 1),
        Ok("Using proxy http://proxy:3128/ and a trusted certificate for TLS termination."
            .to_string())
    );
}

#[test]
fn a_proxy_named_twice_counts_once() {
    assert_eq!(
        check_transport(&uris(&["http://proxy:3128/", "http://proxy:3128/"]), 2),
        Ok("Using proxy http://proxy:3128/ and 2 trusted certificates for TLS termination."
            .to_string())
    );
}

#[test]
fn several_proxies_are_counted_and_listed() {
    assert_eq!(
        check_transport(&uris(&["http://a/", "http://b/", "http://a/", "http://c/"]), 12),
        Ok("Using 3 proxies {\"http://a/\", \"http://b/\", \"http://c/\"} and 12 trusted certificates for TLS termination."
            .to_string())
    );
}

#[test]
fn distinct_keeps_first_occurrences() {
    assert_eq!(distinct_proxies(&uris(&[])), uris(&[]));
    assert_eq!(distinct_proxies(&uris(&["b", "a", "b", "b", "c", "a"])), uris(&["b", "a", "c"]));
}

#[test]
fn summary_lines() {
    assert_eq!(
        transport_summary(&uris(&["x", "y"]), 0),
        "Using 2 proxies {\"x\", \"y\"} and no trusted certificate for TLS termination."
    );
    assert_eq!(
        transport_summary(&uris(&[]), 3),
        "Using no proxy and 3 trusted certificates for TLS termination."
    );
}

#[test]
fn client_without_certificates_is_built() {
    let (_client, summary) = build_hyper_client(&Vec::new()).unwrap();
    assert!(summary.starts_with("Using "));
    assert!(summary.ends_with(" and no trusted certificate for TLS termination."));
    let (_client, summary) = build_client(&Vec::new(), 20).unwrap();
    assert!(summary.ends_with(" and no trusted certificate for TLS termination."));
}

#[test]
fn client_with_certificates_needs_a_proxy() {
    let certificates = vec![certificate()];
    match build_hyper_client(&certificates) {
        Ok((_client, summary)) => {
            assert!(summary.starts_with("Using proxy ") || summary.contains(" proxies {"));
            assert!(summary.ends_with(" and a trusted certificate for TLS termination."));
        }
        Err(error) => {
            assert_eq!(error, SamplyBeamError::HttpProxyProblem(MISSING_PROXY.to_string()));
        }
    }
}

#[test]
fn base_connect_timeout_is_one_second() {
    assert_eq!(CONNECT_TIMEOUT_SECONDS, 1);
}
