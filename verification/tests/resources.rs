use acme::acc::{
    directory_request, nonce_request, Account, Challenge, ChallengeAuthorisation, Directory, Order,
    Poll, StatusType, UpdatedOrder,
};
use acme::error::Error;
use acme::http::{Header, KeyRef, Method, Payload, Reply};
use acme::util::{generate_rsa_keypair, KeyPair};
use openssl::error::ErrorStack;
use openssl::nid::Nid;
use openssl::x509::X509Req;

fn text(s: &str) -> Header {
    Header::Text(s.to_string())
}

fn directory() -> Directory {
    Directory {
        new_nonce: "https://ca/nonce".to_string(),
        new_account: "https://ca/new-acct".to_string(),
        new_order: "https://ca/new-order".to_string(),
        revoke_cert: "https://ca/revoke".to_string(),
        key_change: "https://ca/key-change".to_string(),
        nonce: String::new(),
    }
}

fn account() -> Account {
    Account {
        status: "valid".to_string(),
        contact: Some(vec!["mailto:admin@example.org".to_string()]),
        terms_of_service_agreed: Some(true),
        orders: None,
        nonce: String::new(),
        account_location: String::new(),
    }
}

fn order() -> Order {
    Order {
        status: StatusType::Pending,
        authorizations: vec!["https://ca/authz/1".to_string(), "https://ca/authz/2".to_string()],
        finalize: "https://ca/finalize/1".to_string(),
        certificate: None,
        location: None,
        nonce: String::new(),
        optional_csr: None,
    }
}

fn challenge(kind: &str, token: &str) -> Challenge {
    Challenge {
        kind: kind.to_string(),
        token: token.to_string(),
        url: format!("https://ca/chall/{}", token),
        status: StatusType::Pending,
    }
}

fn success<T>(nonce: &str, body: T) -> Reply<T> {
    Reply::Success { replay_nonce: text(nonce), location: Header::Absent, body: Some(body) }
}

#[test]
fn directory_is_read_by_a_get() {
    let request = directory_request("https://ca/dir");
    assert_eq!(request.method, Method::Get);
    assert_eq!(request.url, "https://ca/dir");
    assert_eq!(request.body, "");
    assert_eq!(request.content_type, None);
    assert_eq!(request.accept, None);
}

#[test]
fn nonce_is_asked_for_by_a_head() {
    let request = nonce_request("https://ca/nonce");
    assert_eq!(request.method, Method::Head);
    assert_eq!(request.url, "https://ca/nonce");
    assert_eq!(request.body, "");
}

#[test]
fn fetch_dir_seeds_the_nonce() {
    let head = Reply::Success { replay_nonce: text("first"), location: Header::Absent, body: None };
    let dir = Directory::fetch_dir(directory(), head).unwrap();
    assert_eq!(dir.nonce, "first");
    assert_eq!(dir.new_nonce, "https://ca/nonce");
    assert_eq!(dir.new_account, "https://ca/new-acct");
    assert_eq!(dir.new_order, "https://ca/new-order");
    assert_eq!(dir.revoke_cert, "https://ca/revoke");
    assert_eq!(dir.key_change, "https://ca/key-change");
}

#[test]
fn fetch_dir_without_nonce_is_a_bad_nonce() {
    let head = Reply::Success { replay_nonce: Header::Absent, location: Header::Absent, body: Some(()) };
    assert!(matches!(Directory::fetch_dir(directory(), head), Err(Error::BadNonce)));
    assert!(matches!(Directory::fetch_dir(directory(), Reply::Failed), Err(Error::FromReqwestError)));
}

#[test]
fn create_account_request_embeds_the_key() {
    let mut dir = directory();
    dir.nonce = "stale".to_string();
    let exchange = dir.create_account_request("first", "admin@example.org");
    assert_eq!(exchange.url, "https://ca/new-acct");
    assert_eq!(exchange.nonce, "first");
    assert!(matches!(exchange.key, KeyRef::Embedded));
    assert!(matches!(&exchange.payload, Payload::NewAccount { email } if email == "admin@example.org"));
    assert!(!exchange.accept_chain);
}

#[test]
fn create_account_takes_nonce_and_location() {
    let reply = Reply::Success {
        replay_nonce: text("second"),
        location: text("https://ca/acct/1"),
        body: Some(account()),
    };
    let created = directory().create_account(reply).unwrap();
    assert_eq!(created.nonce, "second");
    assert_eq!(created.account_location, "https://ca/acct/1");
    assert_eq!(created.status, "valid");
    assert_eq!(created.contact, Some(vec!["mailto:admin@example.org".to_string()]));
    assert_eq!(created.terms_of_service_agreed, Some(true));
    assert_eq!(created.orders, None);
}

#[test]
fn create_account_needs_nonce_and_location() {
    let reply = Reply::Success { replay_nonce: Header::Absent, location: text("l"), body: Some(account()) };
    assert!(matches!(directory().create_account(reply), Err(Error::BadNonce)));
    let reply = Reply::Success { replay_nonce: text("n"), location: Header::Absent, body: Some(account()) };
    assert!(matches!(directory().create_account(reply), Err(Error::IncorrectResponse)));
    let reply = Reply::Problem("urn:ietf:params:acme:error:invalidContact".to_string());
    assert!(matches!(directory().create_account(reply), Err(Error::InvalidContact)));
}

#[test]
fn create_new_order_request_names_the_account() {
    let mut acc = account();
    acc.nonce = "stale".to_string();
    acc.account_location = "https://ca/acct/1".to_string();
    let exchange = acc.create_new_order_request("second", "https://ca/new-order", "example.org");
    assert_eq!(exchange.url, "https://ca/new-order");
    assert_eq!(exchange.nonce, "second");
    assert!(matches!(&exchange.key, KeyRef::Kid(url) if url == "https://ca/acct/1"));
    assert!(matches!(&exchange.payload, Payload::NewOrder { domain } if domain == "example.org"));
    assert!(!exchange.accept_chain);
}

#[test]
fn create_new_order_takes_nonce_place_and_request() {
    let reply = Reply::Success {
        replay_nonce: text("third"),
        location: text("https://ca/order/1"),
        body: Some(order()),
    };
    let created = account().create_new_order(reply, Some(vec![1, 2, 3])).unwrap();
    assert_eq!(created.nonce, "third");
    assert_eq!(created.location.as_deref(), Some("https://ca/order/1"));
    assert_eq!(created.optional_csr, Some(vec![1, 2, 3]));
    assert_eq!(created.finalize, "https://ca/finalize/1");
    assert_eq!(created.authorizations.len(), 2);
    assert_eq!(created.status, StatusType::Pending);
    let created = account().create_new_order(success("third", order()), None).unwrap();
    assert_eq!(created.location, None);
    assert_eq!(created.optional_csr, None);
    let missing = Reply::Success { replay_nonce: Header::Absent, location: Header::Absent, body: Some(order()) };
    assert!(matches!(account().create_new_order(missing, None), Err(Error::BadNonce)));
}

#[test]
fn fetch_auth_challenges_request_reads_the_first_authorization() {
    let mut o = order();
    o.nonce = "stale".to_string();
    let exchange = o.fetch_auth_challenges_request("third", "https://ca/acct/1").unwrap();
    assert_eq!(exchange.url, "https://ca/authz/1");
    assert_eq!(exchange.nonce, "third");
    assert!(matches!(&exchange.key, KeyRef::Kid(url) if url == "https://ca/acct/1"));
    assert!(matches!(exchange.payload, Payload::Empty));
    o.authorizations.clear();
    assert!(matches!(o.fetch_auth_challenges_request("n", "a"), Err(Error::NoHttpChallengePresent)));
}

#[test]
fn fetch_auth_challenges_takes_the_nonce() {
    let body = ChallengeAuthorisation {
        status: StatusType::Pending,
        challenges: vec![challenge("http-01", "abc123")],
        nonce: String::new(),
    };
    let found = order().fetch_auth_challenges(success("fourth", body)).unwrap();
    assert_eq!(found.nonce, "fourth");
    assert_eq!(found.challenges.len(), 1);
    assert_eq!(found.status, StatusType::Pending);
    assert!(matches!(order().fetch_auth_challenges(Reply::Failed), Err(Error::FromReqwestError)));
}

#[test]
fn fetch_auth_challenges_needs_a_challenge_over_http() {
    let other = ChallengeAuthorisation {
        status: StatusType::Pending,
        challenges: vec![challenge("dns-01", "d"), challenge("tls-alpn-01", "t")],
        nonce: String::new(),
    };
    let r = order().fetch_auth_challenges(success("fourth", other));
    assert!(matches!(r, Err(Error::NoHttpChallengePresent)));
    let none = ChallengeAuthorisation { status: StatusType::Valid, challenges: vec![], nonce: String::new() };
    let r = order().fetch_auth_challenges(success("fourth", none));
    assert!(matches!(r, Err(Error::NoHttpChallengePresent)));
    let later = ChallengeAuthorisation {
        status: StatusType::Pending,
        challenges: vec![challenge("dns-01", "d"), challenge("http-01", "h")],
        nonce: String::new(),
    };
    let found = order().fetch_auth_challenges(success("fifth", later)).unwrap();
    assert_eq!(found.nonce, "fifth");
    assert_eq!(found.challenges.len(), 2);
    let unreadable = ChallengeAuthorisation {
        status: StatusType::Pending,
        challenges: vec![challenge("dns-01", "d")],
        nonce: String::new(),
    };
    let missing = Reply::Success { replay_nonce: Header::Absent, location: Header::Absent, body: Some(unreadable) };
    assert!(matches!(order().fetch_auth_challenges(missing), Err(Error::BadNonce)));
}

const ENCRYPTED_PUBLIC: &str = "-----BEGIN PUBLIC KEY-----\nProc-Type: 4,ENCRYPTED\nDEK-Info: AES-128-CBC,000102030405060708090A0B0C0D0E0F\n\nAAAAAAAAAAAAAAAAAAAAAAAAAAAAAAAAAAAAAAAAAAA=\n-----END PUBLIC KEY-----\n";

#[test]
fn request_csr_asks_nobody_for_a_passphrase() {
    let pair = generate_rsa_keypair().unwrap();
    let locked = KeyPair { private_pem: pair.private_pem.clone(), public_pem: ENCRYPTED_PUBLIC.as_bytes().to_vec() };
    assert!(matches!(Order::request_csr(&locked, "example.org"), Err(Error::FromRsaError)));
}

#[test]
fn http_challenge_is_the_first_over_http() {
    let auth = ChallengeAuthorisation {
        status: StatusType::Pending,
        challenges: vec![
            challenge("dns-01", "d"),
            challenge("http-01", "first"),
            challenge("tls-alpn-01", "t"),
            challenge("http-01", "second"),
        ],
        nonce: String::new(),
    };
    let found = auth.http_challenge().unwrap();
    assert_eq!(found.token, "first");
    assert_eq!(found.url, "https://ca/chall/first");
}

#[test]
fn http_challenge_fails_where_none_is_offered() {
    let auth = ChallengeAuthorisation {
        status: StatusType::Pending,
        challenges: vec![challenge("dns-01", "d"), challenge("HTTP-01", "x"), challenge("http-011", "y")],
        nonce: String::new(),
    };
    assert!(matches!(auth.http_challenge(), Err(Error::NoHttpChallengePresent)));
    let none = ChallengeAuthorisation { status: StatusType::Pending, challenges: vec![], nonce: String::new() };
    assert!(matches!(none.http_challenge(), Err(Error::NoHttpChallengePresent)));
}

#[test]
fn ready_request_goes_to_the_challenge() {
    let exchange = challenge("http-01", "abc123").ready_request("https://ca/acct/1", "fifth");
    assert_eq!(exchange.url, "https://ca/chall/abc123");
    assert_eq!(exchange.nonce, "fifth");
    assert!(matches!(&exchange.key, KeyRef::Kid(url) if url == "https://ca/acct/1"));
    assert!(matches!(exchange.payload, Payload::Empty));
    assert!(!exchange.accept_chain);
}

fn subject_of(der: &[u8]) -> String {
    let request = X509Req::from_der(der).unwrap();
    let name = request.subject_name();
    let entry = name.entries_by_nid(Nid::COMMONNAME).next().unwrap();
    entry.data().as_utf8().unwrap().to_string()
}

fn signed_by(der: &[u8], pair: &KeyPair) -> bool {
    let request = X509Req::from_der(der).unwrap();
    let public = openssl::pkey::PKey::public_key_from_pem(&pair.public_pem).unwrap();
    request.verify(&public).unwrap() && request.public_key().unwrap().public_eq(&public)
}

#[test]
fn request_csr_binds_key_and_name() {
    let pair = generate_rsa_keypair().unwrap();
    let der = Order::request_csr(&pair, "example.org").unwrap();
    assert_eq!(subject_of(&der), "example.org");
    assert!(signed_by(&der, &pair));
    let again = Order::request_csr(&pair, "example.org").unwrap();
    assert_eq!(der, again);
    let other = Order::request_csr(&pair, "example.net").unwrap();
    assert_ne!(der, other);
}

#[test]
fn request_csr_fails_without_readable_keys() {
    let pair = KeyPair { private_pem: b"nothing".to_vec(), public_pem: b"nothing".to_vec() };
    assert!(matches!(Order::request_csr(&pair, "example.org"), Err(Error::FromRsaError)));
}

#[test]
fn csr_from_maps_each_outcome() {
    assert_eq!(Order::csr_from(Ok(vec![1, 2])), Ok(vec![1, 2]));
    assert_eq!(Order::csr_from(Err(ErrorStack::get())), Err(Error::FromRsaError));
}

#[test]
fn finalize_order_request_takes_the_request_that_came_along() {
    let pair = KeyPair { private_pem: vec![], public_pem: vec![] };
    let mut o = order();
    o.optional_csr = Some(vec![9, 8, 7]);
    let exchange = o.finalize_order_request("https://ca/acct/1", "sixth".to_string(), &pair, "example.org").unwrap();
    assert_eq!(exchange.url, "https://ca/finalize/1");
    assert_eq!(exchange.nonce, "sixth");
    assert!(matches!(&exchange.key, KeyRef::Kid(url) if url == "https://ca/acct/1"));
    assert!(matches!(&exchange.payload, Payload::Finalize { csr } if csr == &vec![9, 8, 7]));
    assert!(exchange.accept_chain);
}

#[test]
fn finalize_order_request_builds_the_request_where_none_came() {
    let pair = generate_rsa_keypair().unwrap();
    let exchange = order().finalize_order_request("https://ca/acct/1", "sixth".to_string(), &pair, "example.org").unwrap();
    match &exchange.payload {
        Payload::Finalize { csr } => {
            assert_eq!(subject_of(csr), "example.org");
            assert!(signed_by(csr, &pair));
        }
        _ => panic!("a finalize payload"),
    }
    let broken = KeyPair { private_pem: vec![], public_pem: vec![] };
    let failed = order().finalize_order_request("a", "n".to_string(), &broken, "example.org");
    assert!(matches!(failed, Err(Error::FromRsaError)));
}

#[test]
fn finalize_order_takes_the_nonce() {
    let body = UpdatedOrder {
        status: StatusType::Valid,
        certificate: Some("https://ca/cert/1".to_string()),
        nonce: String::new(),
    };
    let updated = Order::finalize_order(success("seventh", body)).unwrap();
    assert_eq!(updated.nonce, "seventh");
    assert_eq!(updated.status, StatusType::Valid);
    assert_eq!(updated.certificate.as_deref(), Some("https://ca/cert/1"));
    let refused: Reply<UpdatedOrder> = Reply::Problem("urn:ietf:params:acme:error:badCSR".to_string());
    assert!(matches!(Order::finalize_order(refused), Err(Error::BadCSR)));
    let unready: Reply<UpdatedOrder> = Reply::Problem("urn:ietf:params:acme:error:orderNotReady".to_string());
    assert!(matches!(Order::finalize_order(unready), Err(Error::OrderNotReady)));
}

#[test]
fn download_certificate_request_goes_to_the_certificate() {
    let updated = UpdatedOrder {
        status: StatusType::Valid,
        certificate: Some("https://ca/cert/1".to_string()),
        nonce: "stale".to_string(),
    };
    let exchange = updated.download_certificate_request("seventh", "https://ca/acct/1").unwrap();
    assert_eq!(exchange.url, "https://ca/cert/1");
    assert_eq!(exchange.nonce, "seventh");
    assert!(matches!(exchange.payload, Payload::Empty));
    let pending = UpdatedOrder { status: StatusType::Processing, certificate: None, nonce: String::new() };
    assert!(matches!(pending.download_certificate_request("n", "a"), Err(Error::OrderNotReady)));
}

#[test]
fn download_certificate_returns_the_chain_as_it_came() {
    let updated = UpdatedOrder { status: StatusType::Valid, certificate: None, nonce: String::new() };
    let chain = "-----BEGIN CERTIFICATE-----\nAAAA\n-----END CERTIFICATE-----\n".to_string();
    let got = updated.download_certificate(success("eighth", chain.clone())).unwrap();
    assert_eq!(got, chain);
    let missing = Reply::Success { replay_nonce: Header::Absent, location: Header::Absent, body: Some(chain) };
    assert!(matches!(updated.download_certificate(missing), Err(Error::BadNonce)));
}

#[test]
fn polling_an_authorization() {
    assert_eq!(StatusType::Valid.poll_authorization(1, 5), Poll::Proceed);
    assert_eq!(StatusType::Valid.poll_authorization(9, 5), Poll::Proceed);
    assert_eq!(StatusType::Pending.poll_authorization(1, 5), Poll::Again);
    assert_eq!(StatusType::Pending.poll_authorization(4, 5), Poll::Again);
    assert_eq!(StatusType::Pending.poll_authorization(5, 5), Poll::Fail(Error::Timeout));
    assert_eq!(StatusType::Pending.poll_authorization(0, 0), Poll::Fail(Error::Timeout));
    assert_eq!(StatusType::Invalid.poll_authorization(1, 5), Poll::Fail(Error::IncorrectResponse));
    assert_eq!(StatusType::Ready.poll_authorization(1, 5), Poll::Fail(Error::IncorrectResponse));
    assert_eq!(StatusType::Processing.poll_authorization(1, 5), Poll::Fail(Error::IncorrectResponse));
}

#[test]
fn polling_an_order() {
    assert_eq!(StatusType::Valid.poll_order(0, 5), Poll::Proceed);
    assert_eq!(StatusType::Invalid.poll_order(0, 5), Poll::Fail(Error::BadCSR));
    assert_eq!(StatusType::Processing.poll_order(0, 5), Poll::Again);
    assert_eq!(StatusType::Pending.poll_order(4, 5), Poll::Again);
    assert_eq!(StatusType::Ready.poll_order(4, 5), Poll::Again);
    assert_eq!(StatusType::Processing.poll_order(5, 5), Poll::Fail(Error::Timeout));
    assert_eq!(StatusType::Processing.poll_order(6, 5), Poll::Fail(Error::Timeout));
}

#[test]
fn valid_and_invalid_are_final() {
    assert!(StatusType::Valid.is_final());
    assert!(StatusType::Invalid.is_final());
    assert!(!StatusType::Pending.is_final());
    assert!(!StatusType::Ready.is_final());
    assert!(!StatusType::Processing.is_final());
    for status in [StatusType::Valid, StatusType::Invalid] {
        assert_ne!(status.poll_order(0, 5), Poll::Again);
        assert_ne!(status.poll_authorization(0, 5), Poll::Again);
    }
}

#[test]
fn poll_request_goes_to_the_order() {
    let mut o = order();
    assert!(matches!(o.poll_request("n", "https://ca/acct/1"), Err(Error::IncorrectResponse)));
    o.location = Some("https://ca/order/1".to_string());
    let exchange = o.poll_request("ninth", "https://ca/acct/1").unwrap();
    assert_eq!(exchange.url, "https://ca/order/1");
    assert_eq!(exchange.nonce, "ninth");
    assert!(matches!(&exchange.key, KeyRef::Kid(url) if url == "https://ca/acct/1"));
    assert!(matches!(exchange.payload, Payload::Empty));
    assert!(!exchange.accept_chain);
}

#[test]
fn blank_resources_hold_nothing() {
    let d = Directory::blank();
    assert_eq!((d.new_nonce, d.new_account, d.new_order, d.nonce), (String::new(), String::new(), String::new(), String::new()));
    let a = Account::blank();
    assert_eq!((a.account_location, a.nonce, a.contact, a.orders), (String::new(), String::new(), None, None));
    let o = Order::blank();
    assert!(o.authorizations.is_empty() && o.finalize.is_empty() && o.location.is_none());
    assert!(o.certificate.is_none() && o.optional_csr.is_none());
    let c = Challenge::blank();
    assert_eq!((c.url, c.token, c.kind), (String::new(), String::new(), String::new()));
    let u = UpdatedOrder::blank();
    assert!(u.certificate.is_none() && u.nonce.is_empty());
    let copied = challenge("http-01", "abc").copy();
    assert_eq!((copied.kind, copied.token, copied.url, copied.status), ("http-01".to_string(), "abc".to_string(), "https://ca/chall/abc".to_string(), StatusType::Pending));
}
