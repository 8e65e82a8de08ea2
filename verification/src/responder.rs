//! What the standalone responder answers while a challenge is validated.

use vstd::prelude::*;
use vstd::string::StringExecFns;
use vstd::string::StringSliceAdditionalSpecFns;
use vstd::utf8::encode_utf8;
use crate::http::Method;
use crate::text::same_text;
use crate::text::starts_with;
use crate::util::key_authorization;
use crate::util::spec_key_authorization;

verus! {

/// The path under which the answer to a challenge is looked for.
pub open spec fn spec_challenge_path(token: Seq<char>) -> Seq<char> {
    "/.well-known/acme-challenge/"@ + token
}

/// The path under which the answer to the challenge with `token` is looked for.
pub fn challenge_path(token: &str) -> (r: String)
    ensures
        r@ == spec_challenge_path(token@),
{
    let mut r = String::from_str("/.well-known/acme-challenge/");
    r.append(token);
    r
}

/// The answer to one request.
#[derive(Debug)]
pub struct Answer {
    pub status: u16,
    pub content_type: Option<String>,
    pub body: String,
}

/// The one resource that the responder serves.
#[derive(Debug)]
pub struct Responder {
    pub path: String,
    pub body: String,
}

impl Responder {
    /// The responder for the challenge with `token` and an account key with
    /// `thumbprint`: it serves the key authorization under the challenge's path.
    pub fn new(token: &str, thumbprint: &str) -> (r: Responder)
        ensures
            r.path@ == spec_challenge_path(token@),
            r.body@ == spec_key_authorization(token@, thumbprint@),
    {
        Responder { path: challenge_path(token), body: key_authorization(token, thumbprint) }
    }

    /// True when a request is one for the resource that is served.
    pub open spec fn serves(self, method: Method, path: Seq<char>) -> bool {
        method == Method::Get && path == self.path@
    }

    /// How the request line of a request that is served begins: the method
    /// GET, the served path, and the space before the protocol version.
    pub open spec fn served_line(self) -> Seq<char> {
        "GET "@ + self.path@ + " "@
    }

    /// The answer to the request with the given request line: the answer to
    /// a GET of the served path where the line begins as `served_line`, the
    /// answer to anything else otherwise.
    pub fn answer_line(&self, request_line: &str) -> (r: Answer)
        ensures
            encode_utf8(self.served_line()).is_prefix_of(request_line.spec_bytes()) ==> r.status
                == 200 && r.body@ == self.body@ && (r.content_type matches Some(t) && t@
                == "application/octet-stream"@),
            !encode_utf8(self.served_line()).is_prefix_of(request_line.spec_bytes()) ==> r.status
                == 404 && r.body@.len() == 0 && r.content_type is None,
    {
        let mut line = String::from_str("GET ");
        line.append(self.path.as_str());
        line.append(" ");
        if starts_with(request_line.as_bytes(), line.as_str().as_bytes()) {
            self.answer(Method::Get, self.path.as_str())
        } else {
            Answer { status: 404, content_type: None, body: String::new() }
        }
    }

    /// The answer to a request: status 200 with the body as a stream of
    /// octets for a GET of exactly the served path, status 404 with an empty
    /// body for anything else.
    pub fn answer(&self, method: Method, path: &str) -> (r: Answer)
        ensures
            self.serves(method, path@) ==> r.status == 200 && r.body@ == self.body@ && (
            r.content_type matches Some(t) && t@ == "application/octet-stream"@),
            !self.serves(method, path@) ==> r.status == 404 && r.body@.len() == 0
                && r.content_type is None,
    {
        if method == Method::Get && same_text(path, self.path.as_str()) {
            Answer {
                status: 200,
                content_type: Some(String::from_str("application/octet-stream")),
                body: self.body.clone(),
            }
        } else {
            Answer { status: 404, content_type: None, body: String::new() }
        }
    }
}

} // verus!
