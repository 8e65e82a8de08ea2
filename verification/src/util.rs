//! The signing layer: base64url framing, the public key as a JSON Web Key
//! and its thumbprint, and the JSON Web Signature of a request.

use vstd::prelude::*;
use vstd::string::StringExecFns;
use vstd::string::StringSliceAdditionalSpecFns;
use vstd::utf8::encode_utf8;
use openssl::error::ErrorStack;
use crate::codec::b64url;
use crate::codec::encodable_len;
use crate::codec::encode_url_safe_no_pad;
use crate::codec::encoded_len;
use crate::codec::in_alphabet;
use crate::codec::is_in_alphabet;
use crate::codec::lemma_b64url_alphabet;
use crate::codec::symbol_value;
use crate::crypto::generate_pem;
use crate::crypto::key_bits;
use crate::crypto::rsa_e;
use crate::crypto::rsa_modulus;
use crate::crypto::rsa_n;
use crate::crypto::rsa_public;
use crate::crypto::rsa_public_pem;
use crate::crypto::rsa_public_exponent;
use crate::crypto::rsa_sha256_signature;
use crate::crypto::rsa_sign;
use crate::crypto::sha256;
use crate::crypto::sha256_digest;
use crate::crypto::KEY_WIDTH;
use crate::crypto::MAX_INPUT;
use crate::error::Error;
use crate::json::distinct_names;
use crate::json::lemma_member_order;
use crate::json::members_view;
use crate::json::pretty_json;
use crate::json::spec_member;
use crate::json::to_string_pretty;
use crate::json::Json;
use crate::json::JsonView;
use crate::json::Member;
use crate::json::MemberView;

verus! {

/// Encodes bytes in base64 with the URL-safe alphabet and without padding.
pub fn b64(bytes: &[u8]) -> (r: String)
    requires
        encoded_len(bytes@.len()) <= usize::MAX,
    ensures
        r@ == b64url(bytes@),
{
    encode_url_safe_no_pad(bytes)
}

/// An RSA key pair, each half in PEM form.
#[derive(Debug)]
pub struct KeyPair {
    pub private_pem: Vec<u8>,
    pub public_pem: Vec<u8>,
}

/// What `generate_rsa_keypair` returns for each outcome of writing the public
/// half of the key in `private_pem`: the pair, or a crypto failure.
pub fn keypair_from(private_pem: Vec<u8>, public: Result<Vec<u8>, ErrorStack>) -> (r: Result<KeyPair, Error>)
    ensures
        public matches Ok(pem) ==> (r matches Ok(k) && k.private_pem == private_pem && k.public_pem == pem),
        public is Err ==> r == Err::<KeyPair, Error>(Error::FromRsaError),
{
    match public {
        Ok(pem) => Ok(KeyPair { private_pem, public_pem: pem }),
        Err(_) => Err(Error::FromRsaError),
    }
}

/// Generates a fresh RSA key of `KEY_WIDTH` bits and returns it with the public
/// half that is written from it; a failure on the way is a crypto failure.
pub fn generate_rsa_keypair() -> (r: Result<KeyPair, Error>)
    ensures
        r matches Ok(pair) ==> pair.spec_matched() && key_bits(pair.private_pem@) == Some(
            KEY_WIDTH as nat,
        ),
        r matches Err(e) ==> e == Error::FromRsaError,
{
    let private_pem = match private_from(generate_pem(KEY_WIDTH)) {
        Ok(pem) => pem,
        Err(e) => {
            return Err(e);
        },
    };
    let public = rsa_public(private_pem.as_slice());
    keypair_from(private_pem, public)
}

impl KeyPair {
    /// True when the two halves belong together: the private half is short
    /// enough to be read, and the public half is what is written for the
    /// key in it.
    pub open spec fn spec_matched(self) -> bool {
        self.private_pem@.len() <= MAX_INPUT && rsa_public_pem(self.private_pem@) == Some(
            self.public_pem@,
        )
    }
}

/// What `generate_rsa_keypair` goes on with for each outcome of the key
/// generation: the private half, where it was made and is short enough to be
/// read again; a crypto failure otherwise.
pub fn private_from(made: Result<Vec<u8>, ErrorStack>) -> (r: Result<Vec<u8>, Error>)
    ensures
        match made {
            Ok(pem) => if pem@.len() <= MAX_INPUT {
                r == Ok::<Vec<u8>, Error>(pem)
            } else {
                r == Err::<Vec<u8>, Error>(Error::FromRsaError)
            },
            Err(_) => r == Err::<Vec<u8>, Error>(Error::FromRsaError),
        },
{
    match made {
        Ok(pem) => {
            if pem.len() <= MAX_INPUT {
                Ok(pem)
            } else {
                Err(Error::FromRsaError)
            }
        },
        Err(_) => Err(Error::FromRsaError),
    }
}

/// The public half of an RSA key as a JSON Web Key.
#[derive(Debug)]
pub struct Jwk {
    pub kty: String,
    pub n: String,
    pub e: String,
}

/// The texts of the members `kty`, `n` and `e` of a JSON object, where it
/// has all three as strings of the URL-safe alphabet.
pub open spec fn spec_jwk_members(value: JsonView) -> Option<(Seq<char>, Seq<char>, Seq<char>)> {
    match value {
        JsonView::Object(members) => match (
            spec_member(members, "kty"@),
            spec_member(members, "n"@),
            spec_member(members, "e"@),
        ) {
            (Some(JsonView::Text(kty)), Some(JsonView::Text(n)), Some(JsonView::Text(e))) => if in_alphabet(
                kty,
            ) && in_alphabet(n) && in_alphabet(e) {
                Some((kty, n, e))
            } else {
                None
            },
            _ => None,
        },
        _ => None,
    }
}

/// The text that the thumbprint of a key is the digest of: the required
/// members in the order of their names, without white space. For members of
/// the URL-safe alphabet, which stand in a JSON string as they are, this is
/// the JSON object that RFC 7638 asks for.
pub open spec fn spec_thumbprint_text(kty: Seq<char>, n: Seq<char>, e: Seq<char>) -> Seq<char> {
    "{\"e\":\""@ + e + "\",\"kty\":\""@ + kty + "\",\"n\":\""@ + n + "\"}"@
}

/// The thumbprint of the key that a JSON object describes, where it
/// describes one.
pub open spec fn spec_json_thumbprint(value: JsonView) -> Option<Seq<char>> {
    match spec_jwk_members(value) {
        Some(found) => Some(
            b64url(sha256_digest(encode_utf8(spec_thumbprint_text(found.0, found.1, found.2)))),
        ),
        None => None,
    }
}

/// The thumbprint of a key does not depend on the order in which the members
/// of its JSON object are written: two objects with the same members, none
/// of them sharing its name with another, have the same thumbprint.
pub proof fn law_thumbprint_order_independent(a: Seq<MemberView>, b: Seq<MemberView>)
    requires
        distinct_names(a),
        distinct_names(b),
        a.to_multiset() == b.to_multiset(),
    ensures
        spec_jwk_members(JsonView::Object(a)) == spec_jwk_members(JsonView::Object(b)),
        spec_json_thumbprint(JsonView::Object(a)) == spec_json_thumbprint(JsonView::Object(b)),
{
    lemma_member_order(a, b, "kty"@);
    lemma_member_order(a, b, "n"@);
    lemma_member_order(a, b, "e"@);
}

impl Jwk {
    /// True when the three members are texts of the URL-safe alphabet, as
    /// the members of a key are: none of them needs escaping in JSON.
    pub open spec fn spec_plain(self) -> bool {
        in_alphabet(self.kty@) && in_alphabet(self.n@) && in_alphabet(self.e@)
    }

    /// True when the three members are texts of the URL-safe alphabet.
    pub fn is_plain(&self) -> (r: bool)
        ensures
            r == self.spec_plain(),
    {
        is_in_alphabet(self.kty.as_str()) && is_in_alphabet(self.n.as_str()) && is_in_alphabet(
            self.e.as_str(),
        )
    }

    /// The key that a JSON object describes: the texts of its members `kty`,
    /// `n` and `e`, wherever in the object they stand. `None` where the
    /// document is no object, lacks one of them as a string, or holds one
    /// that is no text of the URL-safe alphabet.
    pub fn from_json(value: &Json) -> (r: Option<Jwk>)
        ensures
            match spec_jwk_members(value@) {
                Some(found) => r matches Some(k) && k.kty@ == found.0 && k.n@ == found.1 && k.e@
                    == found.2 && k.spec_plain(),
                None => r is None,
            },
            r matches Some(k) ==> Some(k.spec_thumbprint()) == spec_json_thumbprint(value@),
    {
        let kty = match value.get("kty") {
            Some(v) => v.as_text(),
            None => None,
        };
        let n = match value.get("n") {
            Some(v) => v.as_text(),
            None => None,
        };
        let e = match value.get("e") {
            Some(v) => v.as_text(),
            None => None,
        };
        match (kty, n, e) {
            (Some(kty), Some(n), Some(e)) => {
                if is_in_alphabet(kty) && is_in_alphabet(n) && is_in_alphabet(e) {
                    Some(Jwk { kty: kty.to_owned(), n: n.to_owned(), e: e.to_owned() })
                } else {
                    None
                }
            },
            _ => None,
        }
    }

    /// The key as a JSON object with the members `kty`, `n` and `e`.
    pub open spec fn spec_json(self) -> JsonView {
        JsonView::Object(
            seq![
                MemberView { name: "kty"@, value: JsonView::Text(self.kty@) },
                MemberView { name: "n"@, value: JsonView::Text(self.n@) },
                MemberView { name: "e"@, value: JsonView::Text(self.e@) },
            ],
        )
    }

    /// The text that the thumbprint is the digest of: the required members in
    /// the order of their names, without white space.
    pub open spec fn spec_thumbprint_input(self) -> Seq<char> {
        spec_thumbprint_text(self.kty@, self.n@, self.e@)
    }

    /// The thumbprint: the encoded SHA-256 digest of the thumbprint input.
    pub open spec fn spec_thumbprint(self) -> Seq<char> {
        b64url(sha256_digest(encode_utf8(self.spec_thumbprint_input())))
    }

    /// The key whose modulus and public exponent are the given big-endian bytes.
    pub fn from_components(n: &[u8], e: &[u8]) -> (r: Jwk)
        requires
            encoded_len(n@.len()) <= usize::MAX,
            encoded_len(e@.len()) <= usize::MAX,
        ensures
            r.kty@ == "RSA"@,
            r.n@ == b64url(n@),
            r.e@ == b64url(e@),
            r.spec_plain(),
    {
        proof {
            reveal_strlit("RSA");
            lemma_b64url_alphabet(n@);
            lemma_b64url_alphabet(e@);
        }
        Jwk { kty: String::from_str("RSA"), n: b64(n), e: b64(e) }
    }

    /// What `jwk` returns for each outcome of reading the key's numbers.
    pub fn from_outcomes(n: Result<Vec<u8>, ErrorStack>, e: Result<Vec<u8>, ErrorStack>) -> (r:
        Result<Jwk, Error>)
        ensures
            match (n, e) {
                (Ok(n), Ok(e)) => if encoded_len(n@.len()) <= usize::MAX && encoded_len(e@.len())
                    <= usize::MAX {
                    r matches Ok(k) && k.kty@ == "RSA"@ && k.n@ == b64url(n@) && k.e@ == b64url(e@)
                        && k.spec_plain()
                } else {
                    r == Err::<Jwk, Error>(Error::FromUtf8Error)
                },
                _ => r == Err::<Jwk, Error>(Error::FromRsaError),
            },
    {
        match (n, e) {
            (Ok(n), Ok(e)) => {
                if encodable_len(n.len()) && encodable_len(e.len()) {
                    Ok(Jwk::from_components(n.as_slice(), e.as_slice()))
                } else {
                    Err(Error::FromUtf8Error)
                }
            },
            _ => Err(Error::FromRsaError),
        }
    }

    /// The key as a JSON document, as it stands in the header of the request
    /// that creates the account.
    pub fn to_json(&self) -> (r: Json)
        ensures
            r@ == self.spec_json(),
    {
        let members = vec![
            Member::text("kty", self.kty.as_str()),
            Member::text("n", self.n.as_str()),
            Member::text("e", self.e.as_str()),
        ];
        let r = Json::object(members);
        assert(members_view(members@) =~= self.spec_json()->Object_0);
        r
    }

    /// The text that the thumbprint is the digest of, for a key whose
    /// members are texts of the URL-safe alphabet.
    pub fn thumbprint_input(&self) -> (r: String)
        requires
            self.spec_plain(),
        ensures
            r@ == self.spec_thumbprint_input(),
    {
        let mut r = String::from_str("{\"e\":\"");
        r.append(self.e.as_str());
        r.append("\",\"kty\":\"");
        r.append(self.kty.as_str());
        r.append("\",\"n\":\"");
        r.append(self.n.as_str());
        r.append("\"}");
        r
    }

    /// The thumbprint of the key: 43 characters of the URL-safe alphabet,
    /// which encode the 32 bytes of the digest.
    pub fn thumbprint(&self) -> (r: String)
        requires
            self.spec_plain(),
        ensures
            r@ == self.spec_thumbprint(),
            r@.len() == 43,
            forall|i: int| 0 <= i < 43 ==> symbol_value(#[trigger] r@[i]) is Some,
    {
        let input = self.thumbprint_input();
        let digest = sha256(input.as_str().as_bytes());
        proof {
            lemma_b64url_alphabet(digest@);
        }
        b64(digest.as_slice())
    }
}

/// Why `jwk` fails on a key, if it does: a crypto failure where the key is
/// too long to be read or OpenSSL reads no RSA key from it, an encoding
/// failure where one of its numbers is too long to encode.
pub open spec fn spec_jwk_failure(private_pem: Seq<u8>) -> Option<Error> {
    if private_pem.len() > MAX_INPUT {
        Some(Error::FromRsaError)
    } else {
        match (rsa_modulus(private_pem), rsa_public_exponent(private_pem)) {
            (Some(n), Some(e)) => if encoded_len(n.len()) <= usize::MAX && encoded_len(e.len())
                <= usize::MAX {
                None
            } else {
                Some(Error::FromUtf8Error)
            },
            _ => Some(Error::FromRsaError),
        }
    }
}

/// The JSON Web Key of the RSA key in `private_pem`: its type, and its
/// modulus and public exponent, each encoded. It is there for every key that
/// OpenSSL reads; `spec_jwk_failure` says when it is not, and why.
pub fn jwk(private_pem: &[u8]) -> (r: Result<Jwk, Error>)
    ensures
        match spec_jwk_failure(private_pem@) {
            Some(e) => r matches Err(x) && x == e,
            None => r matches Ok(k) && k.kty@ == "RSA"@ && k.n@ == b64url(
                rsa_modulus(private_pem@).unwrap(),
            ) && k.e@ == b64url(rsa_public_exponent(private_pem@).unwrap()) && k.spec_plain(),
        },
{
    if private_pem.len() > MAX_INPUT {
        return Err(Error::FromRsaError);
    }
    let n = rsa_n(private_pem);
    let e = rsa_e(private_pem);
    Jwk::from_outcomes(n, e)
}

/// The value that proves control of a challenge: the token, a dot and the
/// thumbprint of the account key.
pub open spec fn spec_key_authorization(token: Seq<char>, thumbprint: Seq<char>) -> Seq<char> {
    token + "."@ + thumbprint
}

/// The key authorization for a challenge token and an account key's thumbprint.
pub fn key_authorization(token: &str, thumbprint: &str) -> (r: String)
    ensures
        r@ == spec_key_authorization(token@, thumbprint@),
        r@ == token@ + seq!['.'] + thumbprint@,
        r@.len() == token@.len() + 1 + thumbprint@.len(),
{
    let mut r = String::from_str(token);
    r.append(".");
    r.append(thumbprint);
    proof {
        reveal_strlit(".");
        assert("."@ =~= seq!['.']);
    }
    r
}

/// A JSON Web Signature in its flattened form.
#[derive(Debug)]
pub struct Jws {
    pub protected: String,
    pub payload: String,
    pub signature: String,
}

/// The `protected` member of the signature of a request with this header.
pub open spec fn spec_protected(header: JsonView) -> Seq<char> {
    b64url(encode_utf8(pretty_json(header)))
}

/// The `payload` member: empty for the empty JSON string, the encoded text
/// of the payload otherwise.
pub open spec fn spec_payload(payload: JsonView) -> Seq<char> {
    if payload == JsonView::Text(Seq::empty()) {
        Seq::empty()
    } else {
        b64url(encode_utf8(pretty_json(payload)))
    }
}

/// The bytes that are signed: the two members with a dot between them.
pub open spec fn spec_signing_input(protected: Seq<char>, payload: Seq<char>) -> Seq<u8> {
    encode_utf8(protected + "."@ + payload)
}

/// The `signature` member for a key and the two other members.
pub open spec fn spec_signature(
    private_pem: Seq<u8>,
    protected: Seq<char>,
    payload: Seq<char>,
) -> Seq<char> {
    b64url(rsa_sha256_signature(private_pem, spec_signing_input(protected, payload)).unwrap())
}

/// Why `jws` fails, if it does: an encoding failure where the text of the
/// header, or of a payload that is not the empty JSON string, is too long to
/// encode; else a crypto failure where the key is too long to be read, where
/// OpenSSL reads no RSA key from it or where it refuses to sign; else an
/// encoding failure where the signature is too long to encode.
pub open spec fn spec_jws_failure(payload: JsonView, header: JsonView, private_pem: Seq<u8>) -> Option<
    Error,
> {
    if encoded_len(encode_utf8(pretty_json(header)).len()) > usize::MAX || (payload
        != JsonView::Text(Seq::empty()) && encoded_len(encode_utf8(pretty_json(payload)).len())
        > usize::MAX) {
        Some(Error::FromUtf8Error)
    } else if private_pem.len() > MAX_INPUT {
        Some(Error::FromRsaError)
    } else {
        match rsa_sha256_signature(
            private_pem,
            spec_signing_input(spec_protected(header), spec_payload(payload)),
        ) {
            Some(signature) => if encoded_len(signature.len()) <= usize::MAX {
                None
            } else {
                Some(Error::FromUtf8Error)
            },
            None => Some(Error::FromRsaError),
        }
    }
}

impl Jws {
    /// The signature as a JSON object with the members `protected`, `payload`
    /// and `signature`.
    pub open spec fn spec_json(self) -> JsonView {
        JsonView::Object(
            seq![
                MemberView { name: "protected"@, value: JsonView::Text(self.protected@) },
                MemberView { name: "payload"@, value: JsonView::Text(self.payload@) },
                MemberView { name: "signature"@, value: JsonView::Text(self.signature@) },
            ],
        )
    }

    /// The two members that are signed, from the texts of the header and of
    /// the payload. `empty` says that the payload is the empty JSON string,
    /// for which the `payload` member is empty. `None` where a text is too
    /// long to encode.
    pub fn encode_parts(header_text: &str, payload_text: &str, empty: bool) -> (r: Option<
        (String, String),
    >)
        ensures
            r is Some <==> encoded_len(header_text.spec_bytes().len()) <= usize::MAX && (empty
                || encoded_len(payload_text.spec_bytes().len()) <= usize::MAX),
            r matches Some(parts) ==> parts.0@ == b64url(encode_utf8(header_text@)) && parts.1@
                == if empty {
                Seq::<char>::empty()
            } else {
                b64url(encode_utf8(payload_text@))
            },
    {
        let header = header_text.as_bytes();
        if !encodable_len(header.len()) {
            return None;
        }
        let protected = b64(header);
        if empty {
            return Some((protected, String::new()));
        }
        let payload = payload_text.as_bytes();
        if !encodable_len(payload.len()) {
            return None;
        }
        Some((protected, b64(payload)))
    }

    /// The text that is signed: `protected`, a dot and `payload`.
    pub fn signing_input(protected: &str, payload: &str) -> (r: String)
        ensures
            r@ == protected@ + "."@ + payload@,
            encode_utf8(r@) == spec_signing_input(protected@, payload@),
    {
        let mut r = String::from_str(protected);
        r.append(".");
        r.append(payload);
        r
    }

    /// The signature object for each outcome of the signing: a crypto failure
    /// where signing failed, an encoding failure where the signature is too
    /// long to encode.
    pub fn seal(protected: String, payload: String, signed: Result<Vec<u8>, ErrorStack>) -> (r:
        Result<Jws, Error>)
        ensures
            match signed {
                Ok(bytes) => if encoded_len(bytes@.len()) <= usize::MAX {
                    r matches Ok(j) && j.protected == protected && j.payload == payload
                        && j.signature@ == b64url(bytes@)
                } else {
                    r == Err::<Jws, Error>(Error::FromUtf8Error)
                },
                Err(_) => r == Err::<Jws, Error>(Error::FromRsaError),
            },
    {
        match signed {
            Ok(bytes) => {
                if encodable_len(bytes.len()) {
                    let signature = b64(bytes.as_slice());
                    Ok(Jws { protected, payload, signature })
                } else {
                    Err(Error::FromUtf8Error)
                }
            },
            Err(_) => Err(Error::FromRsaError),
        }
    }

    /// The signature as a JSON document: the body of a signed request.
    pub fn to_json(&self) -> (r: Json)
        ensures
            r@ == self.spec_json(),
    {
        let members = vec![
            Member::text("protected", self.protected.as_str()),
            Member::text("payload", self.payload.as_str()),
            Member::text("signature", self.signature.as_str()),
        ];
        let r = Json::object(members);
        assert(members_view(members@) =~= self.spec_json()->Object_0);
        r
    }
}

/// Signs a request: the JSON Web Signature of `payload` under `header` by the
/// RSA key in `private_pem`.
///
/// The header and the payload are written as JSON text and encoded each by
/// itself. The signed bytes are the encoded header, a dot and the encoded
/// payload. For the empty JSON string as payload the `payload` member is
/// empty, and the signed bytes end with the dot.
///
/// It succeeds for every key with which OpenSSL signs, as long as the texts
/// and the signature are short enough to encode; `spec_jws_failure` says when
/// it fails, and why.
pub fn jws(payload: Json, header: Json, private_pem: &[u8]) -> (r: Result<Jws, Error>)
    ensures
        match spec_jws_failure(payload@, header@, private_pem@) {
            Some(e) => r matches Err(x) && x == e,
            None => r matches Ok(j) && {
                &&& j.protected@ == spec_protected(header@)
                &&& j.payload@ == spec_payload(payload@)
                &&& j.signature@ == spec_signature(private_pem@, j.protected@, j.payload@)
            },
        },
{
    let empty = payload.is_empty_text();
    let payload_text = match to_string_pretty(&payload) {
        Some(text) => text,
        None => {
            return Err(Error::FromSerdeError);
        },
    };
    let header_text = match to_string_pretty(&header) {
        Some(text) => text,
        None => {
            return Err(Error::FromSerdeError);
        },
    };
    let parts = match Jws::encode_parts(header_text.as_str(), payload_text.as_str(), empty) {
        Some(parts) => parts,
        None => {
            return Err(Error::FromUtf8Error);
        },
    };
    if private_pem.len() > MAX_INPUT {
        return Err(Error::FromRsaError);
    }
    let input = Jws::signing_input(parts.0.as_str(), parts.1.as_str());
    let signed = rsa_sign(private_pem, input.as_str().as_bytes());
    Jws::seal(parts.0, parts.1, signed)
}

/// Index of the first line feed at or after `from`; the length where there is none.
pub open spec fn line_end(bytes: Seq<u8>, from: int) -> int
    decreases bytes.len() - from,
{
    if from < 0 || from >= bytes.len() {
        bytes.len() as int
    } else if bytes[from] == 10 {
        from
    } else {
        line_end(bytes, from + 1)
    }
}

/// The line that starts at `from`: what stands before the next line feed,
/// without the carriage return that may stand right before that line feed. A
/// last line that no line feed ends is taken whole.
pub open spec fn line_at(bytes: Seq<u8>, from: int) -> Seq<u8> {
    let end = line_end(bytes, from);
    if end < bytes.len() && from < end && bytes[end - 1] == 13 {
        bytes.subrange(from, end - 1)
    } else {
        bytes.subrange(from, end)
    }
}

/// The lines from `from` on up to the first empty line, each followed by a
/// carriage return and a line feed.
pub open spec fn spec_leaf_from(bytes: Seq<u8>, from: int) -> Seq<u8>
    decreases bytes.len() + 1 - from,
    via lemma_leaf_terminates
{
    if from < 0 || from >= bytes.len() {
        Seq::empty()
    } else if line_at(bytes, from).len() == 0 {
        Seq::empty()
    } else {
        line_at(bytes, from) + seq![13u8, 10u8] + spec_leaf_from(bytes, line_end(bytes, from) + 1)
    }
}

#[via_fn]
proof fn lemma_leaf_terminates(bytes: Seq<u8>, from: int) {
    if 0 <= from < bytes.len() {
        lemma_line_end_first(bytes, from);
    }
}

/// The first certificate of a chain in PEM, as it is stored by itself: the
/// lines of the chain up to the first empty line, each ended by a carriage
/// return and a line feed.
pub fn leaf_certificate(chain: &str) -> (r: Vec<u8>)
    ensures
        r@ == spec_leaf_from(chain.spec_bytes(), 0),
{
    let bytes = chain.as_bytes();
    let n = bytes.len();
    let mut out: Vec<u8> = Vec::new();
    let mut from: usize = 0;
    proof {
        assert(out@ + spec_leaf_from(bytes@, 0) =~= spec_leaf_from(bytes@, 0));
    }
    while from < n
        invariant
            from <= n,
            n == bytes@.len(),
            bytes@ == chain.spec_bytes(),
            spec_leaf_from(bytes@, 0) == out@ + spec_leaf_from(bytes@, from as int),
        decreases n - from,
    {
        let mut end = from;
        while end < n && bytes[end] != 10
            invariant
                from <= end <= n,
                n == bytes@.len(),
                line_end(bytes@, from as int) == line_end(bytes@, end as int),
            decreases n - end,
        {
            end = end + 1;
        }
        let stop = if end < n && from < end && bytes[end - 1] == 13 {
            end - 1
        } else {
            end
        };
        assert(line_at(bytes@, from as int) == bytes@.subrange(from as int, stop as int));
        if stop == from {
            proof {
                assert(out@ + Seq::<u8>::empty() =~= out@);
            }
            return out;
        }
        let ghost before = out@;
        let mut i = from;
        while i < stop
            invariant
                from <= i <= stop,
                stop <= n,
                n == bytes@.len(),
                out@ == before + bytes@.subrange(from as int, i as int),
            decreases stop - i,
        {
            out.push(bytes[i]);
            proof {
                assert(bytes@.subrange(from as int, i as int).push(bytes@[i as int])
                    =~= bytes@.subrange(from as int, i + 1));
                assert(out@ =~= before + bytes@.subrange(from as int, i + 1));
            }
            i = i + 1;
        }
        out.push(13);
        out.push(10);
        proof {
            let line = bytes@.subrange(from as int, stop as int);
            let rest = spec_leaf_from(bytes@, end + 1);
            assert(out@ =~= before + line + seq![13u8, 10u8]);
            assert(before + (line + seq![13u8, 10u8] + rest) =~= out@ + rest);
            if end >= n {
                assert(spec_leaf_from(bytes@, n as int) =~= rest);
            }
        }
        from = if end < n {
            end + 1
        } else {
            n
        };
    }
    proof {
        assert(out@ + Seq::<u8>::empty() =~= out@);
    }
    out
}

/// True when no line that a line feed ends is empty: no line feed stands at
/// the beginning, none follows a line feed, and none follows a carriage
/// return that stands at the beginning or follows a line feed.
pub open spec fn no_empty_line(bytes: Seq<u8>) -> bool {
    forall|i: int|
        0 <= i < bytes.len() && #[trigger] bytes[i] == 10 ==> i >= 1 && bytes[i - 1] != 10 && (
        bytes[i - 1] == 13 ==> i >= 2 && bytes[i - 2] != 10)
}

proof fn lemma_line_end_first(bytes: Seq<u8>, from: int)
    requires
        0 <= from <= bytes.len(),
    ensures
        from <= line_end(bytes, from) <= bytes.len(),
        line_end(bytes, from) < bytes.len() ==> bytes[line_end(bytes, from)] == 10,
        forall|j: int| from <= j < line_end(bytes, from) ==> bytes[j] != 10,
    decreases bytes.len() - from,
{
    if from < bytes.len() && bytes[from] != 10 {
        lemma_line_end_first(bytes, from + 1);
    }
}

proof fn lemma_line_end_found(bytes: Seq<u8>, from: int, at: int)
    requires
        0 <= from <= at < bytes.len(),
        bytes[at] == 10,
    ensures
        line_end(bytes, from) <= at,
    decreases at - from,
{
    if bytes[from] != 10 {
        lemma_line_end_found(bytes, from + 1, at);
    }
}

proof fn lemma_line_end_prefix(first: Seq<u8>, then: Seq<u8>, from: int)
    requires
        0 <= from <= first.len(),
        line_end(first, from) < first.len(),
    ensures
        line_end(first + then, from) == line_end(first, from),
    decreases first.len() - from,
{
    assert((first + then)[from] == first[from]);
    if first[from] != 10 {
        lemma_line_end_prefix(first, then, from + 1);
    }
}

proof fn lemma_leaf_prefix(leaf: Seq<u8>, rest: Seq<u8>, from: int)
    requires
        leaf.len() > 0,
        leaf.last() == 10,
        no_empty_line(leaf),
        0 <= from <= leaf.len(),
        from == 0 || leaf[from - 1] == 10,
    ensures
        spec_leaf_from(leaf + seq![10u8] + rest, from) == spec_leaf_from(leaf, from),
    decreases leaf.len() - from,
{
    let chain = leaf + seq![10u8] + rest;
    if from == leaf.len() {
        assert(chain[from] == 10);
        assert(line_end(chain, from) == from);
        assert(line_at(chain, from).len() == 0);
    } else {
        lemma_line_end_first(leaf, from);
        lemma_line_end_found(leaf, from, leaf.len() - 1);
        let end = line_end(leaf, from);
        lemma_line_end_prefix(leaf, seq![10u8] + rest, from);
        assert(leaf + (seq![10u8] + rest) =~= chain);
        assert(line_end(chain, from) == end);
        assert(leaf[end] == 10);
        assert(end > from);
        assert(chain[end - 1] == leaf[end - 1]);
        assert(chain.subrange(from, end) =~= leaf.subrange(from, end));
        assert(chain.subrange(from, end - 1) =~= leaf.subrange(from, end - 1));
        assert(line_at(chain, from) == line_at(leaf, from));
        assert(line_at(leaf, from).len() > 0) by {
            if leaf[end - 1] == 13 {
                assert(end - 1 > from);
            }
        }
        lemma_leaf_prefix(leaf, rest, end + 1);
    }
}

/// The leaf is the first block of the chain and nothing else. Where a chain
/// is a first block, in which every line is ended by a line feed and none is
/// empty, then an empty line, then anything, the leaf of the chain is the
/// leaf of the first block alone: its lines, each ended by a carriage return
/// and a line feed.
pub proof fn law_leaf_is_the_first_block(leaf: Seq<u8>, rest: Seq<u8>)
    requires
        leaf.len() > 0,
        leaf.last() == 10,
        no_empty_line(leaf),
    ensures
        spec_leaf_from(leaf + seq![10u8] + rest, 0) == spec_leaf_from(leaf, 0),
{
    lemma_leaf_prefix(leaf, rest, 0);
}

} // verus!
