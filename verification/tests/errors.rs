use acme::error::Error;

const KINDS: [(Error, &str); 24] = [
    (Error::AccountDoesNotExist, "accountDoesNotExist"),
    (Error::AlreadyRevokedCertificate, "alreadyRevoked"),
    (Error::BadCSR, "badCSR"),
    (Error::BadNonce, "badNonce"),
    (Error::BadPublicKey, "badPublicKey"),
    (Error::BadRevocationReason, "badRevocationReason"),
    (Error::BadSignatureAlgorithm, "badSignatureAlgorithm"),
    (Error::CaaError, "caa"),
    (Error::Compound, "compound"),
    (Error::Connection, "connection"),
    (Error::DnsError, "dns"),
    (Error::ExternalAccountRequired, "externalAccountRequired"),
    (Error::IncorrectResponse, "incorrectResponse"),
    (Error::InvalidContact, "invalidContact"),
    (Error::MalformedRequest, "malformed"),
    (Error::OrderNotReady, "orderNotReady"),
    (Error::RateLimited, "rateLimited"),
    (Error::RejectedIdentifier, "rejectedIdentifier"),
    (Error::InternalServerError, "serverInternal"),
    (Error::TlsError, "tls"),
    (Error::Unauthorized, "unauthorized"),
    (Error::UnsupportedContact, "unsupportedContact"),
    (Error::UnsupportedIdentifier, "unsupportedIdentifier"),
    (Error::UserActionRequired, "userActionRequired"),
];

const LOCAL: [Error; 9] = [
    Error::FromUtf8Error,
    Error::FromReqwestError,
    Error::FromRsaError,
    Error::FromSerdeError,
    Error::FromToStrError,
    Error::FromIoError,
    Error::NoHttpChallengePresent,
    Error::NoWebServer,
    Error::Timeout,
];

#[test]
fn every_problem_type_maps_to_its_kind() {
    for (kind, name) in KINDS {
        let urn = format!("urn:ietf:params:acme:error:{}", name);
        assert_eq!(Error::from_problem_type(&urn), Some(kind));
        assert_eq!(kind.problem_type(), Some(urn));
    }
}

#[test]
fn other_types_map_to_no_kind() {
    assert_eq!(Error::from_problem_type(""), None);
    assert_eq!(Error::from_problem_type("badNonce"), None);
    assert_eq!(Error::from_problem_type("urn:ietf:params:acme:error:"), None);
    assert_eq!(Error::from_problem_type("urn:ietf:params:acme:error:badNonce "), None);
    assert_eq!(Error::from_problem_type("urn:ietf:params:acme:error:BadNonce"), None);
    assert_eq!(Error::from_problem_type("urn:ietf:params:acme:error:timeout"), None);
}

#[test]
fn local_failures_have_no_problem_type() {
    for kind in LOCAL {
        assert_eq!(kind.problem_type(), None);
    }
}

#[test]
fn every_kind_has_a_message_of_its_own() {
    let mut seen: Vec<String> = Vec::new();
    for (kind, _) in KINDS {
        seen.push(kind.message());
    }
    for kind in LOCAL {
        seen.push(kind.message());
    }
    for i in 0..seen.len() {
        assert!(!seen[i].is_empty());
        for j in 0..i {
            assert_ne!(seen[i], seen[j]);
        }
    }
    assert_eq!(Error::BadNonce.message(), "Unacceptable anti-replay nonce");
    assert_eq!(Error::NoWebServer.message(), "There was no web server found");
    assert_eq!(Error::Timeout.message(), "The certificate authority did not finish in time");
}
