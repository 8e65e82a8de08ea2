use acme::acc::{Account, Challenge, ChallengeAuthorisation, Directory, Order, StatusType, UpdatedOrder};
use acme::codec::b64_decode;
use acme::error::Error;
use acme::flow::{Action, Awaited, Config, Event, Phase, Session};
use acme::http::{Exchange, Header, KeyRef, Method, Payload, Reply};
use acme::util::{generate_rsa_keypair, jwk, KeyPair};

const NEW_NONCE: &str = "https://ca/new-nonce";
const NEW_ACCOUNT: &str = "https://ca/new-account";
const NEW_ORDER: &str = "https://ca/new-order";
const ACCOUNT: &str = "https://ca/acct/1";
const ORDER: &str = "https://ca/order/1";
const AUTHORIZATION: &str = "https://ca/authz/1";
const FINALIZE: &str = "https://ca/finalize/1";
const CHALLENGE: &str = "https://ca/chall/1";
const CERTIFICATE: &str = "https://ca/cert/1";
const CHAIN: &str = "-----BEGIN CERTIFICATE-----\nAAAA\n-----END CERTIFICATE-----\n\n-----BEGIN CERTIFICATE-----\nBBBB\n-----END CERTIFICATE-----\n";
const BAD_NONCE: &str = "urn:ietf:params:acme:error:badNonce";

fn config(standalone: bool) -> Config {
    Config {
        server_url: "https://ca/directory".to_string(),
        email: "admin@example.org".to_string(),
        domain: "example.org".to_string(),
        thumbprint: "THUMB".to_string(),
        optional_csr: Some(vec![0x30, 0x03, 0x02, 0x01, 0x00]),
        cert_keypair: KeyPair { private_pem: Vec::new(), public_pem: Vec::new() },
        standalone,
        poll_limit: 5,
        poll_interval: 2,
        nonce_retry_limit: 1,
    }
}

fn text(s: &str) -> Header {
    Header::Text(s.to_string())
}

fn success<T>(nonce: &str, body: T) -> Reply<T> {
    Reply::Success { replay_nonce: text(nonce), location: Header::Absent, body: Some(body) }
}

fn located<T>(nonce: &str, location: &str, body: T) -> Reply<T> {
    Reply::Success { replay_nonce: text(nonce), location: text(location), body: Some(body) }
}

fn without_nonce<T>(body: T) -> Reply<T> {
    Reply::Success { replay_nonce: Header::Absent, location: text("https://ca/somewhere"), body: Some(body) }
}

fn listing() -> Directory {
    Directory {
        new_nonce: NEW_NONCE.to_string(),
        new_account: NEW_ACCOUNT.to_string(),
        new_order: NEW_ORDER.to_string(),
        revoke_cert: String::new(),
        key_change: String::new(),
        nonce: String::new(),
    }
}

fn account() -> Account {
    Account {
        status: "valid".to_string(),
        contact: None,
        terms_of_service_agreed: None,
        orders: None,
        nonce: String::new(),
        account_location: String::new(),
    }
}

fn order() -> Order {
    Order {
        status: StatusType::Pending,
        authorizations: vec![AUTHORIZATION.to_string()],
        finalize: FINALIZE.to_string(),
        certificate: None,
        location: None,
        nonce: String::new(),
        optional_csr: None,
    }
}

fn challenge() -> Challenge {
    Challenge {
        kind: "http-01".to_string(),
        token: "abc123".to_string(),
        url: CHALLENGE.to_string(),
        status: StatusType::Pending,
    }
}

fn authorization(status: StatusType) -> ChallengeAuthorisation {
    ChallengeAuthorisation { status, challenges: vec![challenge()], nonce: String::new() }
}

fn updated(status: StatusType) -> UpdatedOrder {
    let certificate = if status == StatusType::Valid { Some(CERTIFICATE.to_string()) } else { None };
    UpdatedOrder { status, certificate, nonce: String::new() }
}

fn sent(action: Action) -> Exchange {
    match action {
        Action::Send(exchange) => exchange,
        other => panic!("a signed request, not {:?}", other),
    }
}

fn fetched(action: Action) -> (Method, String) {
    match action {
        Action::Fetch { method, url } => (method, url),
        other => panic!("an unsigned request, not {:?}", other),
    }
}

fn failed(action: Action) -> Error {
    match action {
        Action::Fail(e) => e,
        other => panic!("a failure, not {:?}", other),
    }
}

fn by_account(exchange: &Exchange) -> bool {
    matches!(&exchange.key, KeyRef::Kid(url) if url == ACCOUNT)
}

/// A session that has its order and waits for the first read of the authorization.
fn ordered(standalone: bool) -> Session {
    let mut s = Session::new(config(standalone));
    s.step(Event::Begin);
    s.step(Event::Listing(success("ignored", listing())));
    s.step(Event::Nonce(success("n0", ())));
    s.step(Event::Account(located("n1", ACCOUNT, account())));
    s.step(Event::Order(located("n2", ORDER, order())));
    assert_eq!(s.phase, Phase::Authorization);
    s
}

/// A session that told that its challenge is ready and waits for the reply.
fn readied(standalone: bool) -> Session {
    let mut s = ordered(standalone);
    let action = s.step(Event::Authorization(success("n3", authorization(StatusType::Pending))));
    if standalone {
        assert!(matches!(action, Action::StartResponder { .. }));
        s.step(Event::ResponderStarted);
    } else {
        assert!(matches!(action, Action::Publish { .. }));
        s.step(Event::Published);
    }
    assert_eq!(s.phase, Phase::Ready);
    s
}

/// A session that looks at its authorization for the first time.
fn polling(standalone: bool) -> Session {
    let mut s = readied(standalone);
    sent(s.step(Event::Challenge(success("n4", challenge()))));
    assert_eq!(s.phase, Phase::PollAuthorization);
    s
}

#[test]
fn session_runs_from_directory_to_certificate() {
    let pair = generate_rsa_keypair().unwrap();
    let mut s = Session::new(config(false));
    assert_eq!(s.phase, Phase::Start);

    let (method, url) = fetched(s.step(Event::Begin));
    assert_eq!((method, url.as_str()), (Method::Get, "https://ca/directory"));

    let (method, url) = fetched(s.step(Event::Listing(Reply::Success {
        replay_nonce: Header::Absent,
        location: Header::Absent,
        body: Some(listing()),
    })));
    assert_eq!((method, url.as_str()), (Method::Head, NEW_NONCE));

    let x = sent(s.step(Event::Nonce(Reply::Success {
        replay_nonce: text("n0"),
        location: Header::Absent,
        body: None,
    })));
    assert_eq!(x.url, NEW_ACCOUNT);
    assert_eq!(x.nonce, "n0");
    assert!(matches!(x.key, KeyRef::Embedded));
    assert!(matches!(&x.payload, Payload::NewAccount { email } if email == "admin@example.org"));
    assert!(x.sign(&pair.private_pem).is_ok());

    let x = sent(s.step(Event::Account(located("n1", ACCOUNT, account()))));
    assert_eq!(x.url, NEW_ORDER);
    assert_eq!(x.nonce, "n1");
    assert!(by_account(&x));
    assert!(matches!(&x.payload, Payload::NewOrder { domain } if domain == "example.org"));
    assert_eq!(s.account.account_location, ACCOUNT);

    let x = sent(s.step(Event::Order(located("n2", ORDER, order()))));
    assert_eq!(x.url, AUTHORIZATION);
    assert_eq!(x.nonce, "n2");
    assert!(by_account(&x));
    assert!(matches!(x.payload, Payload::Empty));
    assert_eq!(s.order.finalize, FINALIZE);

    match s.step(Event::Authorization(success("n3", authorization(StatusType::Pending)))) {
        Action::Publish { path, body } => {
            assert_eq!(path, "/.well-known/acme-challenge/abc123");
            assert_eq!(body, "abc123.THUMB");
        }
        other => panic!("an answer to publish, not {:?}", other),
    }
    assert_eq!(s.challenge.token, "abc123");
    assert!(!s.responder_running);
    let x = sent(s.step(Event::Published));
    assert_eq!(x.url, CHALLENGE);
    assert_eq!(x.nonce, "n3");
    assert!(matches!(x.payload, Payload::Empty));
    assert!(!s.responder_running);

    let x = sent(s.step(Event::Challenge(success("n4", challenge()))));
    assert_eq!(x.url, AUTHORIZATION);
    assert_eq!(x.nonce, "n4");
    assert_eq!(s.polls, 1);

    let x = sent(s.step(Event::Authorization(success("n5", authorization(StatusType::Valid)))));
    assert_eq!(x.url, FINALIZE);
    assert_eq!(x.nonce, "n5");
    assert!(x.accept_chain);
    assert!(matches!(&x.payload, Payload::Finalize { csr } if csr == &vec![0x30, 0x03, 0x02, 0x01, 0x00]));
    let request = x.sign(&pair.private_pem).unwrap();
    assert_eq!(request.accept.as_deref(), Some("application/pem-certificate-chain"));

    let action = s.step(Event::Finalized(success("n6", updated(StatusType::Processing))));
    assert!(matches!(action, Action::Wait { seconds: 2 }));
    let x = sent(s.step(Event::Waited));
    assert_eq!(x.url, ORDER);
    assert_eq!(x.nonce, "n6");
    assert!(matches!(x.payload, Payload::Empty));

    let x = sent(s.step(Event::Finalized(success("n7", updated(StatusType::Valid)))));
    assert_eq!(x.url, CERTIFICATE);
    assert_eq!(x.nonce, "n7");
    assert!(by_account(&x));
    assert!(matches!(x.payload, Payload::Empty));

    let action = s.step(Event::Certificate(success("n8", CHAIN.to_string())));
    match action {
        Action::Done(chain) => {
            assert!(chain.starts_with("-----BEGIN CERTIFICATE-----"));
            assert_eq!(chain, CHAIN);
        }
        other => panic!("a certificate, not {:?}", other),
    }
    assert_eq!(s.phase, Phase::Done);
    assert_eq!(s.certificate, CHAIN);
    assert_eq!(s.nonce, "n8");
    assert!(!s.responder_running);
    assert_eq!(s.failure, None);
}

#[test]
fn session_spends_the_nonce_of_the_reply_before() {
    let pair = generate_rsa_keypair().unwrap();
    let mut s = Session::new(config(false));
    s.step(Event::Begin);
    s.step(Event::Listing(success("ignored", listing())));
    let replies = ["alpha", "beta", "gamma"];
    let x = sent(s.step(Event::Nonce(success(replies[0], ()))));
    let body: serde_json::Value = serde_json::from_str(&x.sign(&pair.private_pem).unwrap().body).unwrap();
    let header: serde_json::Value = serde_json::from_slice(
        &b64_decode(body.get("protected").and_then(|v| v.as_str()).unwrap()).unwrap(),
    )
    .unwrap();
    assert_eq!(header.get("nonce").and_then(|v| v.as_str()), Some("alpha"));
    let x = sent(s.step(Event::Account(located(replies[1], ACCOUNT, account()))));
    let body: serde_json::Value = serde_json::from_str(&x.sign(&pair.private_pem).unwrap().body).unwrap();
    let header: serde_json::Value = serde_json::from_slice(
        &b64_decode(body.get("protected").and_then(|v| v.as_str()).unwrap()).unwrap(),
    )
    .unwrap();
    assert_eq!(header.get("nonce").and_then(|v| v.as_str()), Some("beta"));
    assert_eq!(header.get("kid").and_then(|v| v.as_str()), Some(ACCOUNT));
    let x = sent(s.step(Event::Order(located(replies[2], ORDER, order()))));
    assert_eq!(x.nonce, "gamma");
    assert_eq!(s.nonce, "gamma");
}

#[test]
fn session_with_a_responder_of_its_own() {
    let pair = generate_rsa_keypair().unwrap();
    let thumbprint = jwk(&pair.private_pem).unwrap().thumbprint();
    let mut c = config(true);
    c.thumbprint = thumbprint.clone();
    let mut s = Session::new(c);
    s.step(Event::Begin);
    s.step(Event::Listing(success("x", listing())));
    s.step(Event::Nonce(success("n0", ())));
    s.step(Event::Account(located("n1", ACCOUNT, account())));
    s.step(Event::Order(located("n2", ORDER, order())));
    match s.step(Event::Authorization(success("n3", authorization(StatusType::Pending)))) {
        Action::StartResponder { path, body } => {
            assert_eq!(path, "/.well-known/acme-challenge/abc123");
            assert_eq!(body, format!("abc123.{}", thumbprint));
        }
        other => panic!("a responder to start, not {:?}", other),
    }
    assert!(!s.responder_running);
    let x = sent(s.step(Event::ResponderStarted));
    assert_eq!(x.url, CHALLENGE);
    assert_eq!(x.nonce, "n3");
    assert!(s.responder_running);
    sent(s.step(Event::Challenge(success("n4", challenge()))));
    let action = s.step(Event::Authorization(success("n5", authorization(StatusType::Valid))));
    assert!(matches!(action, Action::StopResponder));
    assert_eq!(s.phase, Phase::Teardown);
    assert!(s.responder_running);
    let x = sent(s.step(Event::ResponderStopped));
    assert_eq!(x.url, FINALIZE);
    assert_eq!(x.nonce, "n5");
    assert!(!s.responder_running);
}

#[test]
fn session_stops_its_responder_before_it_fails() {
    let mut s = polling(true);
    assert!(s.responder_running);
    let action = s.step(Event::Authorization(success("n5", authorization(StatusType::Invalid))));
    assert!(matches!(action, Action::StopResponder));
    assert_eq!(s.phase, Phase::Abort);
    assert_eq!(s.failure, Some(Error::IncorrectResponse));
    let action = s.step(Event::Waited);
    assert!(matches!(action, Action::StopResponder));
    assert_eq!(s.phase, Phase::Abort);
    assert_eq!(failed(s.step(Event::ResponderStopped)), Error::IncorrectResponse);
    assert_eq!(s.phase, Phase::Failed);
    assert!(!s.responder_running);
}

#[test]
fn session_stops_its_responder_on_a_timeout_and_on_a_lost_connection() {
    let mut c = config(true);
    c.poll_limit = 1;
    let mut s = Session::new(c);
    s.step(Event::Begin);
    s.step(Event::Listing(success("x", listing())));
    s.step(Event::Nonce(success("n0", ())));
    s.step(Event::Account(located("n1", ACCOUNT, account())));
    s.step(Event::Order(located("n2", ORDER, order())));
    s.step(Event::Authorization(success("n3", authorization(StatusType::Pending))));
    s.step(Event::ResponderStarted);
    s.step(Event::Challenge(success("n4", challenge())));
    let action = s.step(Event::Authorization(success("n5", authorization(StatusType::Pending))));
    assert!(matches!(action, Action::StopResponder));
    assert_eq!(failed(s.step(Event::ResponderStopped)), Error::Timeout);

    let mut s = polling(true);
    let action = s.step(Event::Authorization(Reply::Failed));
    assert!(matches!(action, Action::StopResponder));
    assert_eq!(failed(s.step(Event::ResponderStopped)), Error::FromReqwestError);

    let mut s = readied(true);
    let action = s.step(Event::Unsigned(Error::FromRsaError));
    assert!(matches!(action, Action::StopResponder));
    assert_eq!(failed(s.step(Event::ResponderStopped)), Error::FromRsaError);
}

#[test]
fn session_without_a_responder_never_asks_for_one() {
    let mut s = ordered(false);
    let action = s.step(Event::Authorization(success("n3", authorization(StatusType::Pending))));
    assert!(matches!(action, Action::Publish { .. }));
    assert_eq!(s.phase, Phase::Publishing);
    assert_eq!(failed(s.step(Event::ResponderStarted)), Error::IncorrectResponse);
    let mut s = ordered(true);
    s.step(Event::Authorization(success("n3", authorization(StatusType::Pending))));
    assert_eq!(failed(s.step(Event::Published)), Error::IncorrectResponse);
}

#[test]
fn session_fails_where_the_responder_cannot_start() {
    let mut s = ordered(true);
    s.step(Event::Authorization(success("n3", authorization(StatusType::Pending))));
    assert_eq!(s.phase, Phase::Responder);
    assert_eq!(failed(s.step(Event::ResponderFailed)), Error::NoWebServer);
    assert_eq!(s.phase, Phase::Failed);
}

#[test]
fn session_polls_three_times_for_pending_pending_valid() {
    let mut s = readied(false);
    let mut looks = 0;
    let x = sent(s.step(Event::Challenge(success("n4", challenge()))));
    assert_eq!(x.url, AUTHORIZATION);
    looks += 1;
    for (i, status) in [StatusType::Pending, StatusType::Pending, StatusType::Valid].into_iter().enumerate() {
        let nonce = format!("p{}", i);
        let action = s.step(Event::Authorization(success(&nonce, authorization(status))));
        match action {
            Action::Wait { seconds } => {
                assert_eq!(seconds, 2);
                assert_eq!(status, StatusType::Pending);
                let x = sent(s.step(Event::Waited));
                assert_eq!(x.url, AUTHORIZATION);
                assert_eq!(x.nonce, nonce);
                looks += 1;
            }
            Action::Send(x) => {
                assert_eq!(status, StatusType::Valid);
                assert_eq!(x.url, FINALIZE);
                assert_eq!(x.nonce, "p2");
            }
            other => panic!("unexpected {:?}", other),
        }
    }
    assert_eq!(looks, 3);
    assert_eq!(s.polls, 3);
    assert_eq!(s.phase, Phase::Finalize);
}

#[test]
fn session_stops_polling_on_invalid() {
    let mut s = polling(false);
    let action = s.step(Event::Authorization(success("p0", authorization(StatusType::Pending))));
    assert!(matches!(action, Action::Wait { .. }));
    sent(s.step(Event::Waited));
    assert_eq!(failed(s.step(Event::Authorization(success("p1", authorization(StatusType::Invalid))))), Error::IncorrectResponse);
    assert_eq!(s.phase, Phase::Failed);
    assert_eq!(s.polls, 2);
    assert_eq!(failed(s.step(Event::Waited)), Error::IncorrectResponse);
    assert_eq!(failed(s.step(Event::Authorization(success("p2", authorization(StatusType::Valid))))), Error::IncorrectResponse);
    assert_eq!(s.phase, Phase::Failed);
}

#[test]
fn session_gives_up_polling_at_the_limit() {
    let mut s = polling(false);
    for i in 1..5 {
        assert_eq!(s.polls, i);
        let action = s.step(Event::Authorization(success("p", authorization(StatusType::Pending))));
        assert!(matches!(action, Action::Wait { seconds: 2 }));
        sent(s.step(Event::Waited));
    }
    assert_eq!(s.polls, 5);
    assert_eq!(failed(s.step(Event::Authorization(success("p", authorization(StatusType::Pending))))), Error::Timeout);
}

#[test]
fn session_polls_the_order_until_it_is_settled() {
    let mut s = polling(false);
    sent(s.step(Event::Authorization(success("n5", authorization(StatusType::Valid)))));
    for i in 0..5 {
        let action = s.step(Event::Finalized(success("o", updated(StatusType::Processing))));
        assert!(matches!(action, Action::Wait { seconds: 2 }));
        assert_eq!(s.polls, i);
        let x = sent(s.step(Event::Waited));
        assert_eq!(x.url, ORDER);
    }
    assert_eq!(failed(s.step(Event::Finalized(success("o", updated(StatusType::Processing))))), Error::Timeout);

    let mut s = polling(false);
    sent(s.step(Event::Authorization(success("n5", authorization(StatusType::Valid)))));
    assert_eq!(failed(s.step(Event::Finalized(success("o", updated(StatusType::Invalid))))), Error::BadCSR);
}

#[test]
fn session_needs_the_certificate_url_of_a_valid_order() {
    let mut s = polling(false);
    sent(s.step(Event::Authorization(success("n5", authorization(StatusType::Valid)))));
    let body = UpdatedOrder { status: StatusType::Valid, certificate: None, nonce: String::new() };
    assert_eq!(failed(s.step(Event::Finalized(success("o", body)))), Error::OrderNotReady);
}

#[test]
fn session_cannot_poll_an_order_without_its_url() {
    let mut s = Session::new(config(false));
    s.step(Event::Begin);
    s.step(Event::Listing(success("x", listing())));
    s.step(Event::Nonce(success("n0", ())));
    s.step(Event::Account(located("n1", ACCOUNT, account())));
    s.step(Event::Order(success("n2", order())));
    assert_eq!(s.order.location, None);
    s.step(Event::Authorization(success("n3", authorization(StatusType::Pending))));
    s.step(Event::Published);
    s.step(Event::Challenge(success("n4", challenge())));
    sent(s.step(Event::Authorization(success("n5", authorization(StatusType::Valid)))));
    assert_eq!(failed(s.step(Event::Finalized(success("o", updated(StatusType::Processing))))), Error::IncorrectResponse);
}

#[test]
fn session_fails_on_a_reply_without_nonce() {
    let mut s = Session::new(config(false));
    s.step(Event::Begin);
    s.step(Event::Listing(success("x", listing())));
    assert_eq!(failed(s.step(Event::Nonce(without_nonce(())))), Error::BadNonce);

    let mut s = Session::new(config(false));
    s.step(Event::Begin);
    s.step(Event::Listing(success("x", listing())));
    s.step(Event::Nonce(success("n0", ())));
    assert_eq!(failed(s.step(Event::Account(without_nonce(account())))), Error::BadNonce);
    assert_eq!(s.phase, Phase::Failed);
    assert_eq!(failed(s.step(Event::Account(located("n1", ACCOUNT, account())))), Error::BadNonce);

    let mut s = ordered(false);
    assert_eq!(failed(s.step(Event::Authorization(without_nonce(authorization(StatusType::Pending))))), Error::BadNonce);

    let mut s = polling(false);
    assert_eq!(failed(s.step(Event::Authorization(without_nonce(authorization(StatusType::Valid))))), Error::BadNonce);

    let mut s = polling(true);
    let action = s.step(Event::Authorization(without_nonce(authorization(StatusType::Valid))));
    assert!(matches!(action, Action::StopResponder));
    assert_eq!(failed(s.step(Event::ResponderStopped)), Error::BadNonce);
}

#[test]
fn session_fetches_a_fresh_nonce_after_a_refusal() {
    let mut s = ordered(false);
    let (method, url) = fetched(s.step(Event::Authorization(Reply::Problem(BAD_NONCE.to_string()))));
    assert_eq!((method, url.as_str()), (Method::Head, NEW_NONCE));
    assert_eq!(s.phase, Phase::Renonce);
    assert_eq!(s.resume, Phase::Authorization);
    assert_eq!(s.nonce_retries, 1);
    let x = sent(s.step(Event::Nonce(success("fresh", ()))));
    assert_eq!(x.url, AUTHORIZATION);
    assert_eq!(x.nonce, "fresh");
    assert!(by_account(&x));
    assert!(matches!(x.payload, Payload::Empty));
    assert_eq!(s.phase, Phase::Authorization);
    assert_eq!(failed(s.step(Event::Authorization(Reply::Problem(BAD_NONCE.to_string())))), Error::BadNonce);
}

#[test]
fn session_keeps_count_of_its_looks_over_a_refusal() {
    let mut s = polling(false);
    s.step(Event::Authorization(success("p0", authorization(StatusType::Pending))));
    sent(s.step(Event::Waited));
    assert_eq!(s.polls, 2);
    fetched(s.step(Event::Authorization(Reply::Problem(BAD_NONCE.to_string()))));
    let x = sent(s.step(Event::Nonce(success("fresh", ()))));
    assert_eq!(x.url, AUTHORIZATION);
    assert_eq!(x.nonce, "fresh");
    assert_eq!(s.polls, 2);
    assert_eq!(s.phase, Phase::PollAuthorization);
}

#[test]
fn session_without_retries_fails_on_a_refusal() {
    let mut c = config(false);
    c.nonce_retry_limit = 0;
    let mut s = Session::new(c);
    s.step(Event::Begin);
    s.step(Event::Listing(success("x", listing())));
    s.step(Event::Nonce(success("n0", ())));
    assert_eq!(failed(s.step(Event::Account(Reply::Problem(BAD_NONCE.to_string())))), Error::BadNonce);
}

#[test]
fn session_reports_the_problem_of_the_certificate_authority() {
    let mut s = ordered(false);
    let problem = Reply::Problem("urn:ietf:params:acme:error:rateLimited".to_string());
    assert_eq!(failed(s.step(Event::Authorization(problem))), Error::RateLimited);
    let mut s = Session::new(config(false));
    s.step(Event::Begin);
    assert_eq!(failed(s.step(Event::Listing(Reply::Failed))), Error::FromReqwestError);
}

#[test]
fn session_needs_an_authorization_and_a_challenge_over_http() {
    let mut s = Session::new(config(false));
    s.step(Event::Begin);
    s.step(Event::Listing(success("x", listing())));
    s.step(Event::Nonce(success("n0", ())));
    s.step(Event::Account(located("n1", ACCOUNT, account())));
    let mut empty = order();
    empty.authorizations.clear();
    assert_eq!(failed(s.step(Event::Order(success("n2", empty)))), Error::NoHttpChallengePresent);

    let mut s = ordered(false);
    let mut other = authorization(StatusType::Pending);
    other.challenges[0].kind = "dns-01".to_string();
    assert_eq!(failed(s.step(Event::Authorization(success("n3", other)))), Error::NoHttpChallengePresent);
}

#[test]
fn session_fails_on_an_event_it_does_not_wait_for() {
    let mut s = Session::new(config(false));
    assert_eq!(failed(s.step(Event::Waited)), Error::IncorrectResponse);
    let mut s = Session::new(config(false));
    s.step(Event::Begin);
    assert_eq!(failed(s.step(Event::Begin)), Error::IncorrectResponse);
    let mut s = ordered(false);
    assert_eq!(failed(s.step(Event::Account(located("n", ACCOUNT, account())))), Error::IncorrectResponse);
    let mut s = ordered(false);
    assert_eq!(failed(s.step(Event::Unsigned(Error::FromSerdeError))), Error::FromSerdeError);
}

#[test]
fn session_that_ended_repeats_how_it_ended() {
    let mut s = polling(false);
    sent(s.step(Event::Authorization(success("n5", authorization(StatusType::Valid)))));
    sent(s.step(Event::Finalized(success("n6", updated(StatusType::Valid)))));
    assert!(matches!(s.step(Event::Certificate(success("n7", CHAIN.to_string()))), Action::Done(_)));
    assert!(matches!(s.step(Event::Begin), Action::Done(chain) if chain == CHAIN));
    assert!(matches!(s.step(Event::Unsigned(Error::FromRsaError)), Action::Done(chain) if chain == CHAIN));
    assert_eq!(s.phase, Phase::Done);
}

#[test]
fn session_exchange_of_each_phase() {
    let mut s = polling(false);
    s.nonce = "now".to_string();
    s.phase = Phase::Account;
    assert_eq!(s.exchange().unwrap().url, NEW_ACCOUNT);
    assert!(matches!(s.exchange().unwrap().key, KeyRef::Embedded));
    s.phase = Phase::Order;
    assert_eq!(s.exchange().unwrap().url, NEW_ORDER);
    s.phase = Phase::Ready;
    assert_eq!(s.exchange().unwrap().url, CHALLENGE);
    s.phase = Phase::PollOrder;
    assert_eq!(s.exchange().unwrap().url, ORDER);
    s.phase = Phase::Finalize;
    assert_eq!(s.exchange().unwrap().url, FINALIZE);
    assert!(s.exchange().unwrap().accept_chain);
    assert_eq!(s.exchange().unwrap().nonce, "now");
    s.phase = Phase::Certificate;
    assert!(matches!(s.exchange(), Err(Error::OrderNotReady)));
    s.phase = Phase::PollAuthorization;
    s.order.authorizations.clear();
    assert!(matches!(s.exchange(), Err(Error::NoHttpChallengePresent)));
    s.phase = Phase::PollOrder;
    s.order.location = None;
    assert!(matches!(s.exchange(), Err(Error::IncorrectResponse)));
}

#[test]
fn phase_tells_the_kind_of_reply_it_waits_for() {
    assert_eq!(Phase::Start.awaits(), None);
    assert_eq!(Phase::Listing.awaits(), Some(Awaited::Listing));
    assert_eq!(Phase::FirstNonce.awaits(), Some(Awaited::Nonce));
    assert_eq!(Phase::Renonce.awaits(), Some(Awaited::Nonce));
    assert_eq!(Phase::Account.awaits(), Some(Awaited::Account));
    assert_eq!(Phase::Order.awaits(), Some(Awaited::Order));
    assert_eq!(Phase::Authorization.awaits(), Some(Awaited::Authorization));
    assert_eq!(Phase::PollAuthorization.awaits(), Some(Awaited::Authorization));
    assert_eq!(Phase::Ready.awaits(), Some(Awaited::Challenge));
    assert_eq!(Phase::Finalize.awaits(), Some(Awaited::Finalized));
    assert_eq!(Phase::PollOrder.awaits(), Some(Awaited::Finalized));
    assert_eq!(Phase::Certificate.awaits(), Some(Awaited::Certificate));
    for phase in [Phase::Responder, Phase::Publishing, Phase::AuthorizationWait, Phase::Teardown, Phase::OrderWait, Phase::Abort, Phase::Done, Phase::Failed] {
        assert_eq!(phase.awaits(), None);
    }
}

#[test]
fn session_ends_within_its_limits_whatever_is_replied() {
    let mut c = config(true);
    c.poll_limit = 3;
    c.nonce_retry_limit = 2;
    let mut s = Session::new(c);
    let mut event = Event::Begin;
    let mut steps = 0;
    let mut refusals = 0;
    loop {
        steps += 1;
        assert!(steps < 100);
        let action = s.step(event);
        event = match action {
            Action::Fetch { method: Method::Get, .. } => Event::Listing(success("x", listing())),
            Action::Fetch { .. } => Event::Nonce(success("n", ())),
            Action::Send(_) => match s.phase {
                Phase::Account => Event::Account(located("n", ACCOUNT, account())),
                Phase::Order => Event::Order(located("n", ORDER, order())),
                Phase::Authorization => Event::Authorization(success("n", authorization(StatusType::Pending))),
                Phase::Ready => Event::Challenge(success("n", challenge())),
                Phase::PollAuthorization if refusals < 5 => {
                    refusals += 1;
                    Event::Authorization(Reply::Problem(BAD_NONCE.to_string()))
                }
                _ => Event::Authorization(success("n", authorization(StatusType::Pending))),
            },
            Action::StartResponder { .. } => Event::ResponderStarted,
            Action::Publish { .. } => Event::Published,
            Action::StopResponder => Event::ResponderStopped,
            Action::Wait { .. } => Event::Waited,
            Action::Done(_) => panic!("no certificate was issued"),
            Action::Fail(e) => {
                assert_eq!(e, Error::BadNonce);
                break;
            }
        };
    }
    assert_eq!(s.nonce_retries, 2);
    assert!(!s.responder_running);
    assert_eq!(s.phase, Phase::Failed);
}

fn subject_of(der: &[u8]) -> String {
    let request = openssl::x509::X509Req::from_der(der).unwrap();
    let name = request.subject_name();
    let entry = name.entries_by_nid(openssl::nid::Nid::COMMONNAME).next().unwrap();
    entry.data().as_utf8().unwrap().to_string()
}

#[test]
fn session_builds_the_request_at_finalize_where_none_was_brought() {
    let mut c = config(false);
    c.optional_csr = None;
    c.cert_keypair = generate_rsa_keypair().unwrap();
    let mut s = Session::new(c);
    s.step(Event::Begin);
    s.step(Event::Listing(success("x", listing())));
    s.step(Event::Nonce(success("n0", ())));
    s.step(Event::Account(located("n1", ACCOUNT, account())));
    s.step(Event::Order(located("n2", ORDER, order())));
    assert_eq!(s.order.optional_csr, None);
    s.step(Event::Authorization(success("n3", authorization(StatusType::Pending))));
    s.step(Event::Published);
    s.step(Event::Challenge(success("n4", challenge())));
    let x = sent(s.step(Event::Authorization(success("n5", authorization(StatusType::Valid)))));
    assert_eq!(x.url, FINALIZE);
    assert_eq!(x.nonce, "n5");
    assert!(x.accept_chain);
    match &x.payload {
        Payload::Finalize { csr } => assert_eq!(subject_of(csr), "example.org"),
        other => panic!("a finalize payload, not {:?}", other),
    }
}

#[test]
fn session_takes_the_request_that_was_brought_to_the_order() {
    let mut s = ordered(false);
    assert_eq!(s.order.optional_csr, Some(vec![0x30, 0x03, 0x02, 0x01, 0x00]));
    assert_eq!(s.config.optional_csr, Some(vec![0x30, 0x03, 0x02, 0x01, 0x00]));
    s.phase = Phase::Finalize;
    let x = s.exchange().unwrap();
    assert!(matches!(&x.payload, Payload::Finalize { csr } if csr == &vec![0x30, 0x03, 0x02, 0x01, 0x00]));
}

#[test]
fn session_fails_at_finalize_without_a_request_and_without_keys() {
    let mut c = config(true);
    c.optional_csr = None;
    let mut s = Session::new(c);
    s.step(Event::Begin);
    s.step(Event::Listing(success("x", listing())));
    s.step(Event::Nonce(success("n0", ())));
    s.step(Event::Account(located("n1", ACCOUNT, account())));
    s.step(Event::Order(located("n2", ORDER, order())));
    s.step(Event::Authorization(success("n3", authorization(StatusType::Pending))));
    s.step(Event::ResponderStarted);
    s.step(Event::Challenge(success("n4", challenge())));
    let action = s.step(Event::Authorization(success("n5", authorization(StatusType::Valid))));
    assert!(matches!(action, Action::StopResponder));
    assert_eq!(failed(s.step(Event::ResponderStopped)), Error::FromRsaError);
    assert!(!s.responder_running);
    assert_eq!(s.phase, Phase::Failed);
}
