//! What is exchanged with the certificate authority, as plain values: the
//! request that is to be sent, the reply as the transport read it, and what
//! every reply must carry.

use vstd::prelude::*;
use vstd::string::StringExecFns;
use crate::codec::b64url;
use crate::codec::encodable_len;
use crate::codec::encoded_len;
use crate::crypto::rsa_modulus;
use crate::crypto::rsa_public_exponent;
use crate::error::Error;
use crate::json::items_view;
use crate::json::members_view;
use crate::json::pretty_json;
use crate::json::to_string_pretty;
use crate::json::Json;
use crate::json::JsonView;
use crate::json::Member;
use crate::json::MemberView;
use crate::util::b64;
use crate::util::jwk;
use crate::util::jws;
use crate::util::spec_jwk_failure;
use crate::util::spec_jws_failure;
use crate::util::spec_payload;
use crate::util::spec_protected;
use crate::util::spec_signature;

verus! {

/// Single-use token against replay, issued by the certificate authority.
pub type Nonce = String;

/// The method of a request.
#[derive(Clone, Copy, Debug, PartialEq, Eq, Structural)]
pub enum Method {
    Get,
    Head,
    Post,
}

/// A request, ready to be sent.
#[derive(Debug)]
pub struct Request {
    pub method: Method,
    pub url: String,
    pub content_type: Option<String>,
    pub accept: Option<String>,
    pub body: String,
}

/// A header of a reply, as the transport found it.
#[derive(Debug)]
pub enum Header {
    /// The reply has no such header.
    Absent,
    /// The header's value is not visible ASCII text.
    Unreadable,
    /// The header's value.
    Text(String),
}

/// What came back for a request. `T` is the type that the body is read as.
#[derive(Debug)]
pub enum Reply<T> {
    /// No reply, or none whose body came: the connection failed or timed out.
    Failed,
    /// A reply that reports a failure; the text is the `type` of its problem
    /// document, empty where it has none.
    Problem(String),
    /// A successful reply. `body` is `None` where the body came but could not
    /// be read as `T`.
    Success { replay_nonce: Header, location: Header, body: Option<T> },
}

/// The failure that a problem type stands for: its kind in the registry, and
/// a transport failure for a type outside of it.
pub open spec fn spec_problem(kind: Seq<char>) -> Error {
    match Error::spec_from_problem_type(kind) {
        Some(e) => e,
        None => Error::FromReqwestError,
    }
}

/// The failure that a problem type stands for.
pub fn problem(kind: &str) -> (r: Error)
    ensures
        r == spec_problem(kind@),
{
    match Error::from_problem_type(kind) {
        Some(e) => e,
        None => Error::FromReqwestError,
    }
}

impl<T> Reply<T> {
    /// The reply that was received with the given status: a successful one
    /// for a status from 200 to 299, a report of a problem otherwise. `kind`
    /// is the `type` of the problem document, empty where there is none.
    pub fn received(
        status: u16,
        kind: String,
        replay_nonce: Header,
        location: Header,
        body: Option<T>,
    ) -> (r: Reply<T>)
        ensures
            200 <= status <= 299 ==> r == (Reply::Success { replay_nonce, location, body }),
            !(200 <= status <= 299) ==> r == Reply::<T>::Problem(kind),
    {
        if 200 <= status && status <= 299 {
            Reply::Success { replay_nonce, location, body }
        } else {
            Reply::Problem(kind)
        }
    }

    /// The failure of a reply of which only the body is needed.
    pub open spec fn body_failure(self) -> Option<Error> {
        match self {
            Reply::Failed => Some(Error::FromReqwestError),
            Reply::Problem(kind) => Some(spec_problem(kind@)),
            Reply::Success { replay_nonce, location, body } => if body is None {
                Some(Error::FromSerdeError)
            } else {
                None
            },
        }
    }

    /// The failure of a reply that must carry a nonce and a body: a missing
    /// nonce is a bad nonce, whatever else the reply holds.
    pub open spec fn failure(self) -> Option<Error> {
        match self {
            Reply::Failed => Some(Error::FromReqwestError),
            Reply::Problem(kind) => Some(spec_problem(kind@)),
            Reply::Success { replay_nonce, location, body } => match replay_nonce {
                Header::Absent => Some(Error::BadNonce),
                Header::Unreadable => Some(Error::FromToStrError),
                Header::Text(_) => if body is None {
                    Some(Error::FromSerdeError)
                } else {
                    None
                },
            },
        }
    }

    /// The failure of a reply that must carry a nonce, a location and a body.
    pub open spec fn failure_with_location(self) -> Option<Error> {
        match self {
            Reply::Failed => Some(Error::FromReqwestError),
            Reply::Problem(kind) => Some(spec_problem(kind@)),
            Reply::Success { replay_nonce, location, body } => match replay_nonce {
                Header::Absent => Some(Error::BadNonce),
                Header::Unreadable => Some(Error::FromToStrError),
                Header::Text(_) => match location {
                    Header::Absent => Some(Error::IncorrectResponse),
                    Header::Unreadable => Some(Error::FromToStrError),
                    Header::Text(_) => if body is None {
                        Some(Error::FromSerdeError)
                    } else {
                        None
                    },
                },
            },
        }
    }

    /// The failure of a reply of which only the nonce is needed, as the reply
    /// to the request for a fresh nonce.
    pub open spec fn nonce_failure(self) -> Option<Error> {
        match self {
            Reply::Failed => Some(Error::FromReqwestError),
            Reply::Problem(kind) => Some(spec_problem(kind@)),
            Reply::Success { replay_nonce, location, body } => match replay_nonce {
                Header::Absent => Some(Error::BadNonce),
                Header::Unreadable => Some(Error::FromToStrError),
                Header::Text(_) => None,
            },
        }
    }

    /// The nonce that the reply carries; empty where it carries none.
    pub open spec fn nonce_text(self) -> Seq<char> {
        match self {
            Reply::Success { replay_nonce: Header::Text(n), .. } => n@,
            _ => Seq::empty(),
        }
    }

    /// True for a successful reply without a replay-nonce header.
    pub open spec fn lacks_nonce(self) -> bool {
        self matches Reply::Success { replay_nonce: Header::Absent, .. }
    }

    /// The nonce that the reply carries, if it is a successful reply that
    /// carries one.
    pub open spec fn nonce_option(self) -> Option<Seq<char>> {
        match self {
            Reply::Success { replay_nonce: Header::Text(n), .. } => Some(n@),
            _ => None,
        }
    }

    /// The nonce of a successful reply that carries one, as it came.
    pub open spec fn carried_nonce(self) -> Nonce
        recommends
            self.nonce_option() is Some,
    {
        match self {
            Reply::Success { replay_nonce: Header::Text(n), .. } => n,
            _ => arbitrary(),
        }
    }

    /// The location of a successful reply that carries one, as it came.
    pub open spec fn carried_location(self) -> String
        recommends
            self.location_text() is Some,
    {
        match self {
            Reply::Success { location: Header::Text(l), .. } => l,
            _ => arbitrary(),
        }
    }

    /// The location of a reply, as it came, if the reply carries one.
    pub open spec fn carried_place(self) -> Option<String> {
        match self {
            Reply::Success { location: Header::Text(l), .. } => Some(l),
            _ => None,
        }
    }

    /// The location that the reply carries, if it carries one.
    pub open spec fn location_text(self) -> Option<Seq<char>> {
        match self {
            Reply::Success { location: Header::Text(l), .. } => Some(l@),
            _ => None,
        }
    }

    /// The body of the reply, where it has one.
    pub open spec fn content(self) -> T
        recommends
            self matches Reply::Success { body: Some(_), .. },
    {
        match self {
            Reply::Success { body: Some(b), .. } => b,
            _ => arbitrary(),
        }
    }

    /// True when the reply reports that the nonce of the request was not accepted.
    pub open spec fn is_bad_nonce(self) -> bool {
        self matches Reply::Problem(kind) && spec_problem(kind@) == Error::BadNonce
    }

    /// True when the reply reports that the nonce of the request was not accepted.
    pub fn reports_bad_nonce(&self) -> (r: bool)
        ensures
            r == self.is_bad_nonce(),
    {
        match self {
            Reply::Problem(kind) => problem(kind.as_str()) == Error::BadNonce,
            _ => false,
        }
    }

    /// The nonce of a reply of which nothing else is needed. A reply without
    /// one fails as a bad nonce.
    pub fn into_nonce(self) -> (r: Result<Nonce, Error>)
        ensures
            match self.nonce_failure() {
                Some(e) => r matches Err(x) && x == e,
                None => r matches Ok(n) && self matches Reply::Success {
                    replay_nonce: Header::Text(t),
                    ..
                } && n == t,
            },
    {
        match self {
            Reply::Failed => Err(Error::FromReqwestError),
            Reply::Problem(kind) => Err(problem(kind.as_str())),
            Reply::Success { replay_nonce, location, body } => match replay_nonce {
                Header::Absent => Err(Error::BadNonce),
                Header::Unreadable => Err(Error::FromToStrError),
                Header::Text(nonce) => Ok(nonce),
            },
        }
    }

    /// The body of a reply that needs no nonce, as the listing of the
    /// directory.
    pub fn into_body(self) -> (r: Result<T, Error>)
        ensures
            match self.body_failure() {
                Some(e) => r matches Err(x) && x == e,
                None => r matches Ok(b) && self matches Reply::Success { body: Some(t), .. } && b
                    == t,
            },
    {
        match self {
            Reply::Failed => Err(Error::FromReqwestError),
            Reply::Problem(kind) => Err(problem(kind.as_str())),
            Reply::Success { replay_nonce, location, body } => match body {
                Some(b) => Ok(b),
                None => Err(Error::FromSerdeError),
            },
        }
    }
}

/// Takes the nonce and the body out of a reply. A reply without a nonce
/// fails as a bad nonce, one whose nonce is unreadable as a header failure,
/// one whose body cannot be read as a JSON failure; a reply that did not
/// come fails as a transport failure, and a problem report as the kind that
/// it names.
pub fn extract_payload_and_nonce<T>(reply: Reply<T>) -> (r: Result<(Nonce, T), Error>)
    ensures
        match reply.failure() {
            Some(e) => r matches Err(x) && x == e,
            None => r matches Ok(pair) && reply matches Reply::Success {
                replay_nonce: Header::Text(n),
                body: Some(b),
                ..
            } && pair.0 == n && pair.1 == b,
        },
{
    match reply {
        Reply::Failed => Err(Error::FromReqwestError),
        Reply::Problem(kind) => Err(problem(kind.as_str())),
        Reply::Success { replay_nonce, location, body } => match replay_nonce {
            Header::Absent => Err(Error::BadNonce),
            Header::Unreadable => Err(Error::FromToStrError),
            Header::Text(nonce) => match body {
                Some(b) => Ok((nonce, b)),
                None => Err(Error::FromSerdeError),
            },
        },
    }
}

/// Takes the nonce, the body and the location out of a reply. As
/// `extract_payload_and_nonce`; a reply without a location fails as an
/// incorrect response.
pub fn extract_payload_location_and_nonce<T>(reply: Reply<T>) -> (r: Result<
    (Nonce, T, String),
    Error,
>)
    ensures
        match reply.failure_with_location() {
            Some(e) => r matches Err(x) && x == e,
            None => r matches Ok(triple) && reply matches Reply::Success {
                replay_nonce: Header::Text(n),
                location: Header::Text(l),
                body: Some(b),
            } && triple.0 == n && triple.1 == b && triple.2 == l,
        },
{
    match reply {
        Reply::Failed => Err(Error::FromReqwestError),
        Reply::Problem(kind) => Err(problem(kind.as_str())),
        Reply::Success { replay_nonce, location, body } => match replay_nonce {
            Header::Absent => Err(Error::BadNonce),
            Header::Unreadable => Err(Error::FromToStrError),
            Header::Text(nonce) => match location {
                Header::Absent => Err(Error::IncorrectResponse),
                Header::Unreadable => Err(Error::FromToStrError),
                Header::Text(l) => match body {
                    Some(b) => Ok((nonce, b, l)),
                    None => Err(Error::FromSerdeError),
                },
            },
        },
    }
}

/// Takes the nonce and the body out of a reply, and the location where the
/// reply tells one. As `extract_payload_and_nonce`; a reply without a
/// readable location is no failure.
pub fn extract_payload_nonce_and_place<T>(reply: Reply<T>) -> (r: Result<
    (Nonce, T, Option<String>),
    Error,
>)
    ensures
        match reply.failure() {
            Some(e) => r matches Err(x) && x == e,
            None => r matches Ok(triple) && reply matches Reply::Success {
                replay_nonce: Header::Text(n),
                location,
                body: Some(b),
            } && triple.0 == n && triple.1 == b && triple.2 == match location {
                Header::Text(l) => Some(l),
                _ => None,
            },
        },
{
    match reply {
        Reply::Failed => Err(Error::FromReqwestError),
        Reply::Problem(kind) => Err(problem(kind.as_str())),
        Reply::Success { replay_nonce, location, body } => match replay_nonce {
            Header::Absent => Err(Error::BadNonce),
            Header::Unreadable => Err(Error::FromToStrError),
            Header::Text(nonce) => match body {
                Some(b) => Ok(
                    (
                        nonce,
                        b,
                        match location {
                            Header::Text(l) => Some(l),
                            _ => None,
                        },
                    ),
                ),
                None => Err(Error::FromSerdeError),
            },
        },
    }
}

/// How a signed request names the account key.
#[derive(Debug)]
pub enum KeyRef {
    /// The public key itself stands in the header: only to create the account.
    Embedded,
    /// The account's URL stands for the key.
    Kid(String),
}

/// The mathematical value of a `KeyRef`.
pub enum KeyRefView {
    Embedded,
    Kid(Seq<char>),
}

impl View for KeyRef {
    type V = KeyRefView;

    open spec fn view(&self) -> KeyRefView {
        match self {
            KeyRef::Embedded => KeyRefView::Embedded,
            KeyRef::Kid(url) => KeyRefView::Kid(url@),
        }
    }
}

/// What a signed request says.
#[derive(Debug)]
pub enum Payload {
    /// Registers an account with the given e-mail address as its contact.
    NewAccount { email: String },
    /// Orders a certificate for the given domain.
    NewOrder { domain: String },
    /// Nothing: the request reads a resource, or tells that a challenge is ready.
    Empty,
    /// Submits the certificate signing request, given in DER.
    Finalize { csr: Vec<u8> },
}

/// The mathematical value of a `Payload`.
pub enum PayloadView {
    NewAccount { email: Seq<char> },
    NewOrder { domain: Seq<char> },
    Empty,
    Finalize { csr: Seq<u8> },
}

impl View for Payload {
    type V = PayloadView;

    open spec fn view(&self) -> PayloadView {
        match self {
            Payload::NewAccount { email } => PayloadView::NewAccount { email: email@ },
            Payload::NewOrder { domain } => PayloadView::NewOrder { domain: domain@ },
            Payload::Empty => PayloadView::Empty,
            Payload::Finalize { csr } => PayloadView::Finalize { csr: csr@ },
        }
    }
}

/// One signed exchange before it is signed: where it goes, the nonce it
/// spends, how it names the key and what it says.
#[derive(Debug)]
pub struct Exchange {
    pub url: String,
    pub nonce: Nonce,
    pub key: KeyRef,
    pub payload: Payload,
    /// True when the reply is asked for as a PEM certificate chain.
    pub accept_chain: bool,
}

/// The mathematical value of an `Exchange`.
pub struct ExchangeView {
    pub url: Seq<char>,
    pub nonce: Seq<char>,
    pub key: KeyRefView,
    pub payload: PayloadView,
    pub accept_chain: bool,
}

impl View for Exchange {
    type V = ExchangeView;

    open spec fn view(&self) -> ExchangeView {
        ExchangeView {
            url: self.url@,
            nonce: self.nonce@,
            key: self.key@,
            payload: self.payload@,
            accept_chain: self.accept_chain,
        }
    }
}

/// The JSON Web Key of the key in `private_pem`, as a JSON document.
pub open spec fn spec_jwk_json(private_pem: Seq<u8>) -> JsonView {
    JsonView::Object(
        seq![
            MemberView { name: "kty"@, value: JsonView::Text("RSA"@) },
            MemberView {
                name: "n"@,
                value: JsonView::Text(b64url(rsa_modulus(private_pem).unwrap())),
            },
            MemberView {
                name: "e"@,
                value: JsonView::Text(b64url(rsa_public_exponent(private_pem).unwrap())),
            },
        ],
    )
}

/// The protected header of an exchange whose key has the JSON Web Key `jwk`:
/// the algorithm, the URL, the key itself or the account's URL, and the nonce.
pub open spec fn spec_header_with(x: ExchangeView, jwk: JsonView) -> JsonView {
    JsonView::Object(
        seq![
            MemberView { name: "alg"@, value: JsonView::Text("RS256"@) },
            MemberView { name: "url"@, value: JsonView::Text(x.url) },
            match x.key {
                KeyRefView::Embedded => MemberView { name: "jwk"@, value: jwk },
                KeyRefView::Kid(url) => MemberView { name: "kid"@, value: JsonView::Text(url) },
            },
            MemberView { name: "nonce"@, value: JsonView::Text(x.nonce) },
        ],
    )
}

/// The protected header of an exchange that the key in `private_pem` signs.
pub open spec fn spec_header(x: ExchangeView, private_pem: Seq<u8>) -> JsonView {
    spec_header_with(x, spec_jwk_json(private_pem))
}

/// The protected header of an exchange carries the URL and the nonce of the
/// exchange, whatever the key.
pub proof fn law_header_carries_nonce(x: ExchangeView, private_pem: Seq<u8>)
    ensures
        spec_header(x, private_pem) matches JsonView::Object(members) && members.len() == 4
            && members[0] == (MemberView { name: "alg"@, value: JsonView::Text("RS256"@) })
            && members[1] == (MemberView { name: "url"@, value: JsonView::Text(x.url) })
            && members[3] == (MemberView { name: "nonce"@, value: JsonView::Text(x.nonce) }),
        x.key matches KeyRefView::Kid(url) ==> spec_header(x, private_pem)->Object_0[2] == (
        MemberView { name: "kid"@, value: JsonView::Text(url) }),
        x.key is Embedded ==> spec_header(x, private_pem)->Object_0[2] == (MemberView {
            name: "jwk"@,
            value: spec_jwk_json(private_pem),
        }),
{
}

/// The JSON document of a payload.
pub open spec fn spec_payload_json(p: PayloadView) -> JsonView {
    match p {
        PayloadView::NewAccount { email } => JsonView::Object(
            seq![
                MemberView { name: "termsOfServiceAgreed"@, value: JsonView::Bool(true) },
                MemberView {
                    name: "contact"@,
                    value: JsonView::Array(seq![JsonView::Text("mailto:"@ + email)]),
                },
            ],
        ),
        PayloadView::NewOrder { domain } => JsonView::Object(
            seq![
                MemberView {
                    name: "identifiers"@,
                    value: JsonView::Array(
                        seq![
                            JsonView::Object(
                                seq![
                                    MemberView { name: "type"@, value: JsonView::Text("dns"@) },
                                    MemberView { name: "value"@, value: JsonView::Text(domain) },
                                ],
                            ),
                        ],
                    ),
                },
            ],
        ),
        PayloadView::Empty => JsonView::Text(Seq::empty()),
        PayloadView::Finalize { csr } => JsonView::Object(
            seq![MemberView { name: "csr"@, value: JsonView::Text(b64url(csr)) }],
        ),
    }
}

/// A signature as a JSON document.
pub open spec fn spec_jws_json(
    protected: Seq<char>,
    payload: Seq<char>,
    signature: Seq<char>,
) -> JsonView {
    JsonView::Object(
        seq![
            MemberView { name: "protected"@, value: JsonView::Text(protected) },
            MemberView { name: "payload"@, value: JsonView::Text(payload) },
            MemberView { name: "signature"@, value: JsonView::Text(signature) },
        ],
    )
}

/// Why signing an exchange fails, if it does: for an exchange that embeds the
/// key, why `jwk` fails; else an encoding failure where the certificate
/// signing request of the payload is too long to encode; else why `jws` fails
/// on the payload and the header.
pub open spec fn spec_sign_failure(x: ExchangeView, private_pem: Seq<u8>) -> Option<Error> {
    if x.key is Embedded && spec_jwk_failure(private_pem) is Some {
        spec_jwk_failure(private_pem)
    } else if x.payload matches PayloadView::Finalize { csr } && encoded_len(csr.len())
        > usize::MAX {
        Some(Error::FromUtf8Error)
    } else {
        spec_jws_failure(spec_payload_json(x.payload), spec_header(x, private_pem), private_pem)
    }
}

/// The body of the request for an exchange, signed by the key in `private_pem`.
pub open spec fn spec_body(x: ExchangeView, private_pem: Seq<u8>) -> Seq<char> {
    let protected = spec_protected(spec_header(x, private_pem));
    let payload = spec_payload(spec_payload_json(x.payload));
    pretty_json(spec_jws_json(protected, payload, spec_signature(private_pem, protected, payload)))
}

impl Payload {
    /// The JSON document of the payload. `None` where a certificate signing
    /// request is too long to encode.
    pub fn to_json(&self) -> (r: Option<Json>)
        ensures
            r is None <==> (self@ matches PayloadView::Finalize { csr } && encoded_len(csr.len())
                > usize::MAX),
            r matches Some(j) ==> j@ == spec_payload_json(self@),
    {
        match self {
            Payload::NewAccount { email } => {
                let mut contact = String::from_str("mailto:");
                contact.append(email.as_str());
                let items = vec![Json::text(contact.as_str())];
                let list = Json::array(items);
                assert(items_view(items@) =~= seq![JsonView::Text("mailto:"@ + email@)]);
                let members = vec![
                    Member::new("termsOfServiceAgreed", Json::Bool(true)),
                    Member::new("contact", list),
                ];
                let r = Json::object(members);
                assert(members_view(members@) =~= spec_payload_json(self@)->Object_0);
                Some(r)
            },
            Payload::NewOrder { domain } => {
                let inner = vec![Member::text("type", "dns"), Member::text("value", domain.as_str())];
                let identifier = Json::object(inner);
                assert(members_view(inner@) =~= seq![
                    MemberView { name: "type"@, value: JsonView::Text("dns"@) },
                    MemberView { name: "value"@, value: JsonView::Text(domain@) },
                ]);
                let items = vec![identifier];
                let list = Json::array(items);
                assert(items_view(items@) =~= seq![identifier@]);
                let members = vec![Member::new("identifiers", list)];
                let r = Json::object(members);
                assert(members_view(members@) =~= spec_payload_json(self@)->Object_0);
                Some(r)
            },
            Payload::Empty => Some(Json::Text(String::new())),
            Payload::Finalize { csr } => {
                if !encodable_len(csr.len()) {
                    return None;
                }
                let text = b64(csr.as_slice());
                let members = vec![Member::text("csr", text.as_str())];
                let r = Json::object(members);
                assert(members_view(members@) =~= spec_payload_json(self@)->Object_0);
                Some(r)
            },
        }
    }
}

impl Exchange {
    /// The member of the protected header that names the key by the
    /// account's URL; `None` where the exchange embeds the key instead.
    pub fn key_id(&self) -> (r: Option<Member>)
        ensures
            match self.key@ {
                KeyRefView::Embedded => r is None,
                KeyRefView::Kid(url) => r matches Some(m) && m.name@ == "kid"@ && m.value@
                    == JsonView::Text(url),
            },
    {
        match &self.key {
            KeyRef::Embedded => None,
            KeyRef::Kid(url) => Some(Member::text("kid", url.as_str())),
        }
    }

    /// The protected header with the given member for the key: the
    /// algorithm, the URL, that member, and the nonce.
    pub fn header(&self, key: Member) -> (r: Json)
        ensures
            r@ == JsonView::Object(
                seq![
                    MemberView { name: "alg"@, value: JsonView::Text("RS256"@) },
                    MemberView { name: "url"@, value: JsonView::Text(self.url@) },
                    MemberView { name: key.name@, value: key.value@ },
                    MemberView { name: "nonce"@, value: JsonView::Text(self.nonce@) },
                ],
            ),
    {
        let members = vec![
            Member::text("alg", "RS256"),
            Member::text("url", self.url.as_str()),
            key,
            Member::text("nonce", self.nonce.as_str()),
        ];
        let r = Json::object(members);
        assert(members_view(members@) =~= seq![
            MemberView { name: "alg"@, value: JsonView::Text("RS256"@) },
            MemberView { name: "url"@, value: JsonView::Text(self.url@) },
            MemberView { name: key.name@, value: key.value@ },
            MemberView { name: "nonce"@, value: JsonView::Text(self.nonce@) },
        ]);
        r
    }

    /// The request that carries the exchange with `body` as its signed body:
    /// a POST of a JOSE document to the exchange's URL.
    pub fn request(&self, body: String) -> (r: Request)
        ensures
            r.method == Method::Post,
            r.url@ == self.url@,
            r.content_type matches Some(t) && t@ == "application/jose+json"@,
            if self.accept_chain {
                r.accept matches Some(t) && t@ == "application/pem-certificate-chain"@
            } else {
                r.accept is None
            },
            r.body == body,
    {
        Request {
            method: Method::Post,
            url: self.url.clone(),
            content_type: Some(String::from_str("application/jose+json")),
            accept: if self.accept_chain {
                Some(String::from_str("application/pem-certificate-chain"))
            } else {
                None
            },
            body,
        }
    }

    /// Signs the exchange with the account key in `private_pem` and frames it
    /// as a request. The body is the JSON Web Signature of the payload under
    /// the protected header; the header carries the exchange's nonce.
    ///
    /// It succeeds for every key with which OpenSSL signs, as long as the
    /// texts are short enough to encode; `spec_sign_failure` says when it
    /// fails, and why.
    pub fn sign(&self, private_pem: &[u8]) -> (r: Result<Request, Error>)
        ensures
            match spec_sign_failure(self@, private_pem@) {
                Some(e) => r matches Err(x) && x == e,
                None => r matches Ok(q) && {
                    &&& q.method == Method::Post
                    &&& q.url@ == self.url@
                    &&& q.content_type matches Some(t) && t@ == "application/jose+json"@
                    &&& if self.accept_chain {
                        q.accept matches Some(t) && t@ == "application/pem-certificate-chain"@
                    } else {
                        q.accept is None
                    }
                    &&& q.body@ == spec_body(self@, private_pem@)
                },
            },
    {
        let key = match self.key_id() {
            Some(member) => member,
            None => {
                let key = match jwk(private_pem) {
                    Ok(k) => k,
                    Err(e) => {
                        return Err(e);
                    },
                };
                Member::new("jwk", key.to_json())
            },
        };
        let header = self.header(key);
        assert(header@->Object_0 =~= spec_header(self@, private_pem@)->Object_0);
        assert(header@ == spec_header(self@, private_pem@));
        let payload = match self.payload.to_json() {
            Some(p) => p,
            None => {
                return Err(Error::FromUtf8Error);
            },
        };
        let signature = match jws(payload, header, private_pem) {
            Ok(s) => s,
            Err(e) => {
                return Err(e);
            },
        };
        let envelope = signature.to_json();
        match to_string_pretty(&envelope) {
            Some(body) => Ok(self.request(body)),
            None => Err(Error::FromSerdeError),
        }
    }
}

} // verus!
