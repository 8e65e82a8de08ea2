use acme::http::Method;
use acme::responder::{challenge_path, Responder};

#[test]
fn challenge_path_is_under_the_well_known_prefix() {
    assert_eq!(challenge_path("abc123"), "/.well-known/acme-challenge/abc123");
    assert_eq!(challenge_path(""), "/.well-known/acme-challenge/");
}

#[test]
fn responder_serves_the_key_authorization() {
    let responder = Responder::new("T", "H");
    assert_eq!(responder.path, "/.well-known/acme-challenge/T");
    assert_eq!(responder.body, "T.H");
    let answer = responder.answer(Method::Get, "/.well-known/acme-challenge/T");
    assert_eq!(answer.status, 200);
    assert_eq!(answer.body, "T.H");
    assert_eq!(answer.content_type.as_deref(), Some("application/octet-stream"));
}

#[test]
fn responder_serves_nothing_else() {
    let responder = Responder::new("T", "H");
    for path in ["/", "/.well-known/acme-challenge/", "/.well-known/acme-challenge/T/", "/.well-known/acme-challenge/t", "/.well-known/acme-challenge/TT", ""] {
        let answer = responder.answer(Method::Get, path);
        assert_eq!(answer.status, 404);
        assert_eq!(answer.body, "");
        assert_eq!(answer.content_type, None);
    }
    let answer = responder.answer(Method::Post, "/.well-known/acme-challenge/T");
    assert_eq!(answer.status, 404);
    let answer = responder.answer(Method::Head, "/.well-known/acme-challenge/T");
    assert_eq!(answer.status, 404);
    assert_eq!(answer.body, "");
}

#[test]
fn responder_answers_a_request_line() {
    let responder = Responder::new("T", "H");
    let answer = responder.answer_line("GET /.well-known/acme-challenge/T HTTP/1.1\r\n");
    assert_eq!(answer.status, 200);
    assert_eq!(answer.body, "T.H");
    assert_eq!(answer.content_type.as_deref(), Some("application/octet-stream"));
    let answer = responder.answer_line("GET /.well-known/acme-challenge/T HTTP/1.0");
    assert_eq!(answer.status, 200);
    for line in [
        "GET /.well-known/acme-challenge/TT HTTP/1.1\r\n",
        "GET /.well-known/acme-challenge/T",
        "GET /.well-known/acme-challenge/ HTTP/1.1\r\n",
        "POST /.well-known/acme-challenge/T HTTP/1.1\r\n",
        "get /.well-known/acme-challenge/T HTTP/1.1\r\n",
        " GET /.well-known/acme-challenge/T HTTP/1.1\r\n",
        "GET / HTTP/1.1\r\n",
        "",
    ] {
        let answer = responder.answer_line(line);
        assert_eq!(answer.status, 404);
        assert_eq!(answer.body, "");
        assert_eq!(answer.content_type, None);
    }
}
