use acme::cli::{key_source, standalone_allowed, KeySource, Usage};
use acme::flow::{Config, NONCE_RETRY_LIMIT, POLL_INTERVAL, POLL_LIMIT};
use acme::util::KeyPair;

#[test]
fn arguments_name_both_key_files_or_none() {
    assert_eq!(key_source(false, false, false), Ok(KeySource::Generated));
    assert_eq!(key_source(false, true, true), Ok(KeySource::Files));
    assert_eq!(key_source(true, true, true), Ok(KeySource::Files));
    assert_eq!(key_source(false, true, false), Err(Usage::HalfAKeyPair));
    assert_eq!(key_source(false, false, true), Err(Usage::HalfAKeyPair));
    assert_eq!(key_source(true, false, false), Err(Usage::RequestWithoutKeys));
    assert_eq!(key_source(true, true, false), Err(Usage::RequestWithoutKeys));
    assert_eq!(key_source(true, false, true), Err(Usage::RequestWithoutKeys));
}

#[test]
fn standalone_needs_a_free_port() {
    assert_eq!(standalone_allowed(true, true), Err(Usage::PortTaken));
    assert_eq!(standalone_allowed(true, false), Ok(true));
    assert_eq!(standalone_allowed(false, true), Ok(false));
    assert_eq!(standalone_allowed(false, false), Ok(false));
}

#[test]
fn config_has_the_usual_patience() {
    let c = Config::new(
        "https://ca/dir".to_string(),
        "a@b.c".to_string(),
        "example.org".to_string(),
        "T".to_string(),
        Some(vec![1]),
        KeyPair { private_pem: vec![2], public_pem: vec![3] },
        true,
    );
    assert_eq!(c.server_url, "https://ca/dir");
    assert_eq!(c.email, "a@b.c");
    assert_eq!(c.domain, "example.org");
    assert_eq!(c.thumbprint, "T");
    assert_eq!(c.optional_csr, Some(vec![1]));
    assert_eq!(c.cert_keypair.private_pem, vec![2]);
    assert_eq!(c.cert_keypair.public_pem, vec![3]);
    assert!(c.standalone);
    assert_eq!((c.poll_limit, c.poll_interval, c.nonce_retry_limit), (10, 2, 3));
    assert_eq!((POLL_LIMIT, POLL_INTERVAL, NONCE_RETRY_LIMIT), (10, 2, 3));
}
