use acme::error::Error;
use acme::http::{
    extract_payload_and_nonce, extract_payload_location_and_nonce, extract_payload_nonce_and_place,
    problem, Header, Reply,
};

fn text(s: &str) -> Header {
    Header::Text(s.to_string())
}

fn reply(nonce: Header, location: Header, body: Option<u32>) -> Reply<u32> {
    Reply::Success { replay_nonce: nonce, location, body }
}

#[test]
fn extract_gives_nonce_and_body() {
    let r = extract_payload_and_nonce(reply(text("n1"), Header::Absent, Some(7)));
    assert_eq!(r, Ok(("n1".to_string(), 7)));
}

#[test]
fn extract_without_nonce_is_a_bad_nonce() {
    let r = extract_payload_and_nonce(reply(Header::Absent, text("l"), Some(7)));
    assert_eq!(r, Err(Error::BadNonce));
    let r = extract_payload_and_nonce(reply(Header::Absent, Header::Absent, None));
    assert_eq!(r, Err(Error::BadNonce));
    let r = extract_payload_location_and_nonce(reply(Header::Absent, text("l"), Some(7)));
    assert_eq!(r, Err(Error::BadNonce));
    let r = extract_payload_nonce_and_place(reply(Header::Absent, text("l"), Some(7)));
    assert_eq!(r, Err(Error::BadNonce));
    let r: Reply<u32> = reply(Header::Absent, Header::Absent, Some(1));
    assert_eq!(r.into_nonce(), Err(Error::BadNonce));
}

#[test]
fn extract_with_an_unreadable_header_is_a_header_failure() {
    let r = extract_payload_and_nonce(reply(Header::Unreadable, Header::Absent, Some(7)));
    assert_eq!(r, Err(Error::FromToStrError));
    let r = extract_payload_location_and_nonce(reply(text("n"), Header::Unreadable, Some(7)));
    assert_eq!(r, Err(Error::FromToStrError));
}

#[test]
fn extract_without_a_readable_body_is_a_json_failure() {
    let r = extract_payload_and_nonce(reply(text("n"), Header::Absent, None));
    assert_eq!(r, Err(Error::FromSerdeError));
    let r = extract_payload_location_and_nonce(reply(text("n"), text("l"), None));
    assert_eq!(r, Err(Error::FromSerdeError));
    let r = extract_payload_nonce_and_place(reply(text("n"), text("l"), None));
    assert_eq!(r, Err(Error::FromSerdeError));
}

#[test]
fn extract_with_location_gives_all_three() {
    let r = extract_payload_location_and_nonce(reply(text("n1"), text("https://ca/acct/1"), Some(7)));
    assert_eq!(r, Ok(("n1".to_string(), 7, "https://ca/acct/1".to_string())));
}

#[test]
fn extract_with_location_needs_the_location() {
    let r = extract_payload_location_and_nonce(reply(text("n1"), Header::Absent, Some(7)));
    assert_eq!(r, Err(Error::IncorrectResponse));
}

#[test]
fn extract_with_place_takes_the_location_where_there_is_one() {
    let r = extract_payload_nonce_and_place(reply(text("n1"), text("here"), Some(7)));
    assert_eq!(r, Ok(("n1".to_string(), 7, Some("here".to_string()))));
    let r = extract_payload_nonce_and_place(reply(text("n1"), Header::Absent, Some(7)));
    assert_eq!(r, Ok(("n1".to_string(), 7, None)));
    let r = extract_payload_nonce_and_place(reply(text("n1"), Header::Unreadable, Some(7)));
    assert_eq!(r, Ok(("n1".to_string(), 7, None)));
}

#[test]
fn extract_of_no_reply_is_a_transport_failure() {
    let r = extract_payload_and_nonce::<u32>(Reply::Failed);
    assert_eq!(r, Err(Error::FromReqwestError));
    let r = extract_payload_location_and_nonce::<u32>(Reply::Failed);
    assert_eq!(r, Err(Error::FromReqwestError));
    assert_eq!(Reply::<u32>::Failed.into_body(), Err(Error::FromReqwestError));
    assert_eq!(Reply::<u32>::Failed.into_nonce(), Err(Error::FromReqwestError));
}

#[test]
fn extract_of_a_problem_is_its_kind() {
    let r = extract_payload_and_nonce::<u32>(Reply::Problem(
        "urn:ietf:params:acme:error:rateLimited".to_string(),
    ));
    assert_eq!(r, Err(Error::RateLimited));
    let r = extract_payload_location_and_nonce::<u32>(Reply::Problem(
        "urn:ietf:params:acme:error:unauthorized".to_string(),
    ));
    assert_eq!(r, Err(Error::Unauthorized));
    let r = extract_payload_and_nonce::<u32>(Reply::Problem("about:blank".to_string()));
    assert_eq!(r, Err(Error::FromReqwestError));
    let r = extract_payload_and_nonce::<u32>(Reply::Problem(String::new()));
    assert_eq!(r, Err(Error::FromReqwestError));
}

#[test]
fn problem_maps_the_registry() {
    assert_eq!(problem("urn:ietf:params:acme:error:badNonce"), Error::BadNonce);
    assert_eq!(problem("urn:ietf:params:acme:error:badnonce"), Error::FromReqwestError);
    assert_eq!(problem("badNonce"), Error::FromReqwestError);
}

#[test]
fn bad_nonce_is_reported_by_a_problem_only() {
    let refused: Reply<u32> = Reply::Problem("urn:ietf:params:acme:error:badNonce".to_string());
    assert!(refused.reports_bad_nonce());
    let other: Reply<u32> = Reply::Problem("urn:ietf:params:acme:error:badCSR".to_string());
    assert!(!other.reports_bad_nonce());
    assert!(!reply(Header::Absent, Header::Absent, Some(1)).reports_bad_nonce());
    assert!(!Reply::<u32>::Failed.reports_bad_nonce());
}

#[test]
fn body_alone_needs_no_nonce() {
    assert_eq!(reply(Header::Absent, Header::Absent, Some(3)).into_body(), Ok(3));
    assert_eq!(reply(text("n"), Header::Absent, None).into_body(), Err(Error::FromSerdeError));
    let r: Reply<u32> = Reply::Problem("urn:ietf:params:acme:error:malformed".to_string());
    assert_eq!(r.into_body(), Err(Error::MalformedRequest));
}

#[test]
fn nonce_alone_needs_no_body() {
    assert_eq!(reply(text("n9"), Header::Absent, None).into_nonce(), Ok("n9".to_string()));
    assert_eq!(reply(Header::Unreadable, Header::Absent, None).into_nonce(), Err(Error::FromToStrError));
}

#[test]
fn received_is_a_success_for_a_status_of_the_two_hundreds() {
    for status in [200u16, 201, 204, 299] {
        let r: Reply<u32> = Reply::received(status, String::new(), text("n"), text("l"), Some(5));
        assert_eq!(extract_payload_location_and_nonce(r), Ok(("n".to_string(), 5, "l".to_string())));
    }
}

#[test]
fn received_is_a_problem_for_any_other_status() {
    for status in [0u16, 100, 199, 300, 400, 404, 500, 65535] {
        let kind = "urn:ietf:params:acme:error:badNonce".to_string();
        let r: Reply<u32> = Reply::received(status, kind, text("n"), text("l"), Some(5));
        assert!(r.reports_bad_nonce());
        assert_eq!(extract_payload_and_nonce(r), Err(Error::BadNonce));
    }
    let r: Reply<u32> = Reply::received(503, String::new(), text("n"), Header::Absent, None);
    assert_eq!(extract_payload_and_nonce(r), Err(Error::FromReqwestError));
}
