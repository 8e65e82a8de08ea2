//! The closed set of failures: the problem kinds that the certificate
//! authority reports, and the failures that arise locally.

use vstd::prelude::*;
use vstd::string::StringExecFns;
use crate::text::same_text;

verus! {

/// Every failure that an issuance attempt can end in.
#[derive(Clone, Copy, Debug, PartialEq, Eq, Structural)]
pub enum Error {
    /// Problem type `accountDoesNotExist` of the certificate authority.
    AccountDoesNotExist,
    /// Problem type `alreadyRevoked` of the certificate authority.
    AlreadyRevokedCertificate,
    /// Problem type `badCSR` of the certificate authority.
    BadCSR,
    /// Problem type `badNonce` of the certificate authority.
    BadNonce,
    /// Problem type `badPublicKey` of the certificate authority.
    BadPublicKey,
    /// Problem type `badRevocationReason` of the certificate authority.
    BadRevocationReason,
    /// Problem type `badSignatureAlgorithm` of the certificate authority.
    BadSignatureAlgorithm,
    /// Problem type `caa` of the certificate authority.
    CaaError,
    /// Problem type `compound` of the certificate authority.
    Compound,
    /// Problem type `connection` of the certificate authority.
    Connection,
    /// Problem type `dns` of the certificate authority.
    DnsError,
    /// Problem type `externalAccountRequired` of the certificate authority.
    ExternalAccountRequired,
    /// Problem type `incorrectResponse` of the certificate authority.
    IncorrectResponse,
    /// Problem type `invalidContact` of the certificate authority.
    InvalidContact,
    /// Problem type `malformed` of the certificate authority.
    MalformedRequest,
    /// Problem type `orderNotReady` of the certificate authority.
    OrderNotReady,
    /// Problem type `rateLimited` of the certificate authority.
    RateLimited,
    /// Problem type `rejectedIdentifier` of the certificate authority.
    RejectedIdentifier,
    /// Problem type `serverInternal` of the certificate authority.
    InternalServerError,
    /// Problem type `tls` of the certificate authority.
    TlsError,
    /// Problem type `unauthorized` of the certificate authority.
    Unauthorized,
    /// Problem type `unsupportedContact` of the certificate authority.
    UnsupportedContact,
    /// Problem type `unsupportedIdentifier` of the certificate authority.
    UnsupportedIdentifier,
    /// Problem type `userActionRequired` of the certificate authority.
    UserActionRequired,
    /// A text could not be read or encoded.
    FromUtf8Error,
    /// The HTTP exchange failed, or its reply was no success and named no known problem.
    FromReqwestError,
    /// A key operation or signature failed.
    FromRsaError,
    /// A JSON document could not be written, or the body of a reply could not
    /// be read as the document that was expected.
    FromSerdeError,
    /// A header value was not readable text.
    FromToStrError,
    /// Reading or writing a file failed.
    FromIoError,
    /// The authorization offers no HTTP-01 challenge.
    NoHttpChallengePresent,
    /// The standalone responder could not be started.
    NoWebServer,
    /// Polling ended before the resource left its waiting state.
    Timeout,
}

impl Error {
    /// True for the kinds that the certificate authority reports in a problem document.
    pub open spec fn is_ca_problem(self) -> bool {
        match self {
            Error::FromUtf8Error
            | Error::FromReqwestError
            | Error::FromRsaError
            | Error::FromSerdeError
            | Error::FromToStrError
            | Error::FromIoError
            | Error::NoHttpChallengePresent
            | Error::NoWebServer
            | Error::Timeout => false,
            _ => true,
        }
    }

    /// The problem type identifier under which the certificate authority reports a kind.
    pub open spec fn spec_problem_type(self) -> Seq<char>
        recommends
            self.is_ca_problem(),
    {
        match self {
            Error::AccountDoesNotExist => "urn:ietf:params:acme:error:accountDoesNotExist"@,
            Error::AlreadyRevokedCertificate => "urn:ietf:params:acme:error:alreadyRevoked"@,
            Error::BadCSR => "urn:ietf:params:acme:error:badCSR"@,
            Error::BadNonce => "urn:ietf:params:acme:error:badNonce"@,
            Error::BadPublicKey => "urn:ietf:params:acme:error:badPublicKey"@,
            Error::BadRevocationReason => "urn:ietf:params:acme:error:badRevocationReason"@,
            Error::BadSignatureAlgorithm => "urn:ietf:params:acme:error:badSignatureAlgorithm"@,
            Error::CaaError => "urn:ietf:params:acme:error:caa"@,
            Error::Compound => "urn:ietf:params:acme:error:compound"@,
            Error::Connection => "urn:ietf:params:acme:error:connection"@,
            Error::DnsError => "urn:ietf:params:acme:error:dns"@,
            Error::ExternalAccountRequired => "urn:ietf:params:acme:error:externalAccountRequired"@,
            Error::IncorrectResponse => "urn:ietf:params:acme:error:incorrectResponse"@,
            Error::InvalidContact => "urn:ietf:params:acme:error:invalidContact"@,
            Error::MalformedRequest => "urn:ietf:params:acme:error:malformed"@,
            Error::OrderNotReady => "urn:ietf:params:acme:error:orderNotReady"@,
            Error::RateLimited => "urn:ietf:params:acme:error:rateLimited"@,
            Error::RejectedIdentifier => "urn:ietf:params:acme:error:rejectedIdentifier"@,
            Error::InternalServerError => "urn:ietf:params:acme:error:serverInternal"@,
            Error::TlsError => "urn:ietf:params:acme:error:tls"@,
            Error::Unauthorized => "urn:ietf:params:acme:error:unauthorized"@,
            Error::UnsupportedContact => "urn:ietf:params:acme:error:unsupportedContact"@,
            Error::UnsupportedIdentifier => "urn:ietf:params:acme:error:unsupportedIdentifier"@,
            Error::UserActionRequired => "urn:ietf:params:acme:error:userActionRequired"@,
            _ => Seq::empty(),
        }
    }

    /// The kind that a problem type identifier stands for, if it is a known one.
    pub open spec fn spec_from_problem_type(urn: Seq<char>) -> Option<Error> {
        if urn == "urn:ietf:params:acme:error:accountDoesNotExist"@ {
            Some(Error::AccountDoesNotExist)
        } else if urn == "urn:ietf:params:acme:error:alreadyRevoked"@ {
            Some(Error::AlreadyRevokedCertificate)
        } else if urn == "urn:ietf:params:acme:error:badCSR"@ {
            Some(Error::BadCSR)
        } else if urn == "urn:ietf:params:acme:error:badNonce"@ {
            Some(Error::BadNonce)
        } else if urn == "urn:ietf:params:acme:error:badPublicKey"@ {
            Some(Error::BadPublicKey)
        } else if urn == "urn:ietf:params:acme:error:badRevocationReason"@ {
            Some(Error::BadRevocationReason)
        } else if urn == "urn:ietf:params:acme:error:badSignatureAlgorithm"@ {
            Some(Error::BadSignatureAlgorithm)
        } else if urn == "urn:ietf:params:acme:error:caa"@ {
            Some(Error::CaaError)
        } else if urn == "urn:ietf:params:acme:error:compound"@ {
            Some(Error::Compound)
        } else if urn == "urn:ietf:params:acme:error:connection"@ {
            Some(Error::Connection)
        } else if urn == "urn:ietf:params:acme:error:dns"@ {
            Some(Error::DnsError)
        } else if urn == "urn:ietf:params:acme:error:externalAccountRequired"@ {
            Some(Error::ExternalAccountRequired)
        } else if urn == "urn:ietf:params:acme:error:incorrectResponse"@ {
            Some(Error::IncorrectResponse)
        } else if urn == "urn:ietf:params:acme:error:invalidContact"@ {
            Some(Error::InvalidContact)
        } else if urn == "urn:ietf:params:acme:error:malformed"@ {
            Some(Error::MalformedRequest)
        } else if urn == "urn:ietf:params:acme:error:orderNotReady"@ {
            Some(Error::OrderNotReady)
        } else if urn == "urn:ietf:params:acme:error:rateLimited"@ {
            Some(Error::RateLimited)
        } else if urn == "urn:ietf:params:acme:error:rejectedIdentifier"@ {
            Some(Error::RejectedIdentifier)
        } else if urn == "urn:ietf:params:acme:error:serverInternal"@ {
            Some(Error::InternalServerError)
        } else if urn == "urn:ietf:params:acme:error:tls"@ {
            Some(Error::TlsError)
        } else if urn == "urn:ietf:params:acme:error:unauthorized"@ {
            Some(Error::Unauthorized)
        } else if urn == "urn:ietf:params:acme:error:unsupportedContact"@ {
            Some(Error::UnsupportedContact)
        } else if urn == "urn:ietf:params:acme:error:unsupportedIdentifier"@ {
            Some(Error::UnsupportedIdentifier)
        } else if urn == "urn:ietf:params:acme:error:userActionRequired"@ {
            Some(Error::UserActionRequired)
        } else {
            None
        }
    }

    /// The text shown to the user for a kind.
    pub open spec fn spec_message(self) -> Seq<char> {
        match self {
            Error::AccountDoesNotExist => "Account does not exist"@,
            Error::AlreadyRevokedCertificate => "Certificate has already been revoked"@,
            Error::BadCSR => "The CSR is unacceptable"@,
            Error::BadNonce => "Unacceptable anti-replay nonce"@,
            Error::BadPublicKey => "Server does not support PKey"@,
            Error::BadRevocationReason => "Revocation reason provided is not allowed"@,
            Error::BadSignatureAlgorithm => "Signing with an algorithm not supported"@,
            Error::CaaError => "CAA records forbid the CA from issuing a certificate"@,
            Error::Compound => "Specific error conditions are indicated in the \"subproblems\" array"@,
            Error::Connection => "Server could not connect to validation target"@,
            Error::DnsError => "Problem with a DNS query"@,
            Error::ExternalAccountRequired => "The request must include a value for the \"externalAccountBinding\" field"@,
            Error::IncorrectResponse => "Response received didn't match the challenge's requirements"@,
            Error::InvalidContact => "Invalid contact URL for account"@,
            Error::MalformedRequest => "The request message was malformed"@,
            Error::OrderNotReady => "Finalize an order that is not ready to be finalized"@,
            Error::RateLimited => "Exceeds rate limit"@,
            Error::RejectedIdentifier => "Not issue certificates for the identifier"@,
            Error::InternalServerError => "Internal error"@,
            Error::TlsError => "TLS error during validation"@,
            Error::Unauthorized => "Insufficient authorization"@,
            Error::UnsupportedContact => "Unsupported protocol scheme"@,
            Error::UnsupportedIdentifier => "Unsupported type identifier"@,
            Error::UserActionRequired => "Visit the \"instance\" URL and take actions specified there"@,
            Error::FromUtf8Error => "Error reading the string"@,
            Error::FromReqwestError => "Error in reqwest"@,
            Error::FromRsaError => "Error in openssl"@,
            Error::FromSerdeError => "Error while de/encoding json"@,
            Error::FromToStrError => "Error writing header value"@,
            Error::FromIoError => "IO error"@,
            Error::NoHttpChallengePresent => "Currently just http challenges are allowed, so this error is raised if no http challenge is present"@,
            Error::NoWebServer => "There was no web server found"@,
            Error::Timeout => "The certificate authority did not finish in time"@,
        }
    }

    /// Maps the `type` member of a problem document to its kind; `None` for an
    /// identifier outside the protocol's registry.
    pub fn from_problem_type(urn: &str) -> (r: Option<Error>)
        ensures
            r == Error::spec_from_problem_type(urn@),
    {
        if same_text(urn, "urn:ietf:params:acme:error:accountDoesNotExist") {
            Some(Error::AccountDoesNotExist)
        } else if same_text(urn, "urn:ietf:params:acme:error:alreadyRevoked") {
            Some(Error::AlreadyRevokedCertificate)
        } else if same_text(urn, "urn:ietf:params:acme:error:badCSR") {
            Some(Error::BadCSR)
        } else if same_text(urn, "urn:ietf:params:acme:error:badNonce") {
            Some(Error::BadNonce)
        } else if same_text(urn, "urn:ietf:params:acme:error:badPublicKey") {
            Some(Error::BadPublicKey)
        } else if same_text(urn, "urn:ietf:params:acme:error:badRevocationReason") {
            Some(Error::BadRevocationReason)
        } else if same_text(urn, "urn:ietf:params:acme:error:badSignatureAlgorithm") {
            Some(Error::BadSignatureAlgorithm)
        } else if same_text(urn, "urn:ietf:params:acme:error:caa") {
            Some(Error::CaaError)
        } else if same_text(urn, "urn:ietf:params:acme:error:compound") {
            Some(Error::Compound)
        } else if same_text(urn, "urn:ietf:params:acme:error:connection") {
            Some(Error::Connection)
        } else if same_text(urn, "urn:ietf:params:acme:error:dns") {
            Some(Error::DnsError)
        } else if same_text(urn, "urn:ietf:params:acme:error:externalAccountRequired") {
            Some(Error::ExternalAccountRequired)
        } else if same_text(urn, "urn:ietf:params:acme:error:incorrectResponse") {
            Some(Error::IncorrectResponse)
        } else if same_text(urn, "urn:ietf:params:acme:error:invalidContact") {
            Some(Error::InvalidContact)
        } else if same_text(urn, "urn:ietf:params:acme:error:malformed") {
            Some(Error::MalformedRequest)
        } else if same_text(urn, "urn:ietf:params:acme:error:orderNotReady") {
            Some(Error::OrderNotReady)
        } else if same_text(urn, "urn:ietf:params:acme:error:rateLimited") {
            Some(Error::RateLimited)
        } else if same_text(urn, "urn:ietf:params:acme:error:rejectedIdentifier") {
            Some(Error::RejectedIdentifier)
        } else if same_text(urn, "urn:ietf:params:acme:error:serverInternal") {
            Some(Error::InternalServerError)
        } else if same_text(urn, "urn:ietf:params:acme:error:tls") {
            Some(Error::TlsError)
        } else if same_text(urn, "urn:ietf:params:acme:error:unauthorized") {
            Some(Error::Unauthorized)
        } else if same_text(urn, "urn:ietf:params:acme:error:unsupportedContact") {
            Some(Error::UnsupportedContact)
        } else if same_text(urn, "urn:ietf:params:acme:error:unsupportedIdentifier") {
            Some(Error::UnsupportedIdentifier)
        } else if same_text(urn, "urn:ietf:params:acme:error:userActionRequired") {
            Some(Error::UserActionRequired)
        } else {
            None
        }
    }

    /// The problem type identifier of a kind that the certificate authority reports;
    /// `None` for a local failure.
    pub fn problem_type(&self) -> (r: Option<String>)
        ensures
            r is Some <==> self.is_ca_problem(),
            r is Some ==> r.unwrap()@ == self.spec_problem_type(),
    {
        match self {
            Error::AccountDoesNotExist => Some(String::from_str("urn:ietf:params:acme:error:accountDoesNotExist")),
            Error::AlreadyRevokedCertificate => Some(String::from_str("urn:ietf:params:acme:error:alreadyRevoked")),
            Error::BadCSR => Some(String::from_str("urn:ietf:params:acme:error:badCSR")),
            Error::BadNonce => Some(String::from_str("urn:ietf:params:acme:error:badNonce")),
            Error::BadPublicKey => Some(String::from_str("urn:ietf:params:acme:error:badPublicKey")),
            Error::BadRevocationReason => Some(String::from_str("urn:ietf:params:acme:error:badRevocationReason")),
            Error::BadSignatureAlgorithm => Some(String::from_str("urn:ietf:params:acme:error:badSignatureAlgorithm")),
            Error::CaaError => Some(String::from_str("urn:ietf:params:acme:error:caa")),
            Error::Compound => Some(String::from_str("urn:ietf:params:acme:error:compound")),
            Error::Connection => Some(String::from_str("urn:ietf:params:acme:error:connection")),
            Error::DnsError => Some(String::from_str("urn:ietf:params:acme:error:dns")),
            Error::ExternalAccountRequired => Some(String::from_str("urn:ietf:params:acme:error:externalAccountRequired")),
            Error::IncorrectResponse => Some(String::from_str("urn:ietf:params:acme:error:incorrectResponse")),
            Error::InvalidContact => Some(String::from_str("urn:ietf:params:acme:error:invalidContact")),
            Error::MalformedRequest => Some(String::from_str("urn:ietf:params:acme:error:malformed")),
            Error::OrderNotReady => Some(String::from_str("urn:ietf:params:acme:error:orderNotReady")),
            Error::RateLimited => Some(String::from_str("urn:ietf:params:acme:error:rateLimited")),
            Error::RejectedIdentifier => Some(String::from_str("urn:ietf:params:acme:error:rejectedIdentifier")),
            Error::InternalServerError => Some(String::from_str("urn:ietf:params:acme:error:serverInternal")),
            Error::TlsError => Some(String::from_str("urn:ietf:params:acme:error:tls")),
            Error::Unauthorized => Some(String::from_str("urn:ietf:params:acme:error:unauthorized")),
            Error::UnsupportedContact => Some(String::from_str("urn:ietf:params:acme:error:unsupportedContact")),
            Error::UnsupportedIdentifier => Some(String::from_str("urn:ietf:params:acme:error:unsupportedIdentifier")),
            Error::UserActionRequired => Some(String::from_str("urn:ietf:params:acme:error:userActionRequired")),
            _ => None,
        }
    }

    /// The text shown to the user.
    pub fn message(&self) -> (r: String)
        ensures
            r@ == self.spec_message(),
    {
        match self {
            Error::AccountDoesNotExist => String::from_str("Account does not exist"),
            Error::AlreadyRevokedCertificate => String::from_str("Certificate has already been revoked"),
            Error::BadCSR => String::from_str("The CSR is unacceptable"),
            Error::BadNonce => String::from_str("Unacceptable anti-replay nonce"),
            Error::BadPublicKey => String::from_str("Server does not support PKey"),
            Error::BadRevocationReason => String::from_str("Revocation reason provided is not allowed"),
            Error::BadSignatureAlgorithm => String::from_str("Signing with an algorithm not supported"),
            Error::CaaError => String::from_str("CAA records forbid the CA from issuing a certificate"),
            Error::Compound => String::from_str("Specific error conditions are indicated in the \"subproblems\" array"),
            Error::Connection => String::from_str("Server could not connect to validation target"),
            Error::DnsError => String::from_str("Problem with a DNS query"),
            Error::ExternalAccountRequired => String::from_str("The request must include a value for the \"externalAccountBinding\" field"),
            Error::IncorrectResponse => String::from_str("Response received didn't match the challenge's requirements"),
            Error::InvalidContact => String::from_str("Invalid contact URL for account"),
            Error::MalformedRequest => String::from_str("The request message was malformed"),
            Error::OrderNotReady => String::from_str("Finalize an order that is not ready to be finalized"),
            Error::RateLimited => String::from_str("Exceeds rate limit"),
            Error::RejectedIdentifier => String::from_str("Not issue certificates for the identifier"),
            Error::InternalServerError => String::from_str("Internal error"),
            Error::TlsError => String::from_str("TLS error during validation"),
            Error::Unauthorized => String::from_str("Insufficient authorization"),
            Error::UnsupportedContact => String::from_str("Unsupported protocol scheme"),
            Error::UnsupportedIdentifier => String::from_str("Unsupported type identifier"),
            Error::UserActionRequired => String::from_str("Visit the \"instance\" URL and take actions specified there"),
            Error::FromUtf8Error => String::from_str("Error reading the string"),
            Error::FromReqwestError => String::from_str("Error in reqwest"),
            Error::FromRsaError => String::from_str("Error in openssl"),
            Error::FromSerdeError => String::from_str("Error while de/encoding json"),
            Error::FromToStrError => String::from_str("Error writing header value"),
            Error::FromIoError => String::from_str("IO error"),
            Error::NoHttpChallengePresent => String::from_str("Currently just http challenges are allowed, so this error is raised if no http challenge is present"),
            Error::NoWebServer => String::from_str("There was no web server found"),
            Error::Timeout => String::from_str("The certificate authority did not finish in time"),
        }
    }
}

/// The registry maps one to one: the kind that the problem type of a kind
/// stands for is that kind.
pub proof fn law_problem_types_one_to_one(kind: Error)
    requires
        kind.is_ca_problem(),
    ensures
        Error::spec_from_problem_type(kind.spec_problem_type()) == Some(kind),
{
    reveal_strlit("urn:ietf:params:acme:error:accountDoesNotExist");
    reveal_strlit("urn:ietf:params:acme:error:alreadyRevoked");
    reveal_strlit("urn:ietf:params:acme:error:badCSR");
    reveal_strlit("urn:ietf:params:acme:error:badNonce");
    reveal_strlit("urn:ietf:params:acme:error:badPublicKey");
    reveal_strlit("urn:ietf:params:acme:error:badRevocationReason");
    reveal_strlit("urn:ietf:params:acme:error:badSignatureAlgorithm");
    reveal_strlit("urn:ietf:params:acme:error:caa");
    reveal_strlit("urn:ietf:params:acme:error:compound");
    reveal_strlit("urn:ietf:params:acme:error:connection");
    reveal_strlit("urn:ietf:params:acme:error:dns");
    reveal_strlit("urn:ietf:params:acme:error:externalAccountRequired");
    reveal_strlit("urn:ietf:params:acme:error:incorrectResponse");
    reveal_strlit("urn:ietf:params:acme:error:invalidContact");
    reveal_strlit("urn:ietf:params:acme:error:malformed");
    reveal_strlit("urn:ietf:params:acme:error:orderNotReady");
    reveal_strlit("urn:ietf:params:acme:error:rateLimited");
    reveal_strlit("urn:ietf:params:acme:error:rejectedIdentifier");
    reveal_strlit("urn:ietf:params:acme:error:serverInternal");
    reveal_strlit("urn:ietf:params:acme:error:tls");
    reveal_strlit("urn:ietf:params:acme:error:unauthorized");
    reveal_strlit("urn:ietf:params:acme:error:unsupportedContact");
    reveal_strlit("urn:ietf:params:acme:error:unsupportedIdentifier");
    reveal_strlit("urn:ietf:params:acme:error:userActionRequired");
    assert("urn:ietf:params:acme:error:accountDoesNotExist"@.len() == 46);
    assert("urn:ietf:params:acme:error:alreadyRevoked"@.len() == 41);
    assert("urn:ietf:params:acme:error:badCSR"@.len() == 33);
    assert("urn:ietf:params:acme:error:badNonce"@.len() == 35);
    assert("urn:ietf:params:acme:error:badPublicKey"@.len() == 39);
    assert("urn:ietf:params:acme:error:badRevocationReason"@.len() == 46);
    assert("urn:ietf:params:acme:error:badSignatureAlgorithm"@.len() == 48);
    assert("urn:ietf:params:acme:error:caa"@.len() == 30);
    assert("urn:ietf:params:acme:error:compound"@.len() == 35);
    assert("urn:ietf:params:acme:error:connection"@.len() == 37);
    assert("urn:ietf:params:acme:error:dns"@.len() == 30);
    assert("urn:ietf:params:acme:error:externalAccountRequired"@.len() == 50);
    assert("urn:ietf:params:acme:error:incorrectResponse"@.len() == 44);
    assert("urn:ietf:params:acme:error:invalidContact"@.len() == 41);
    assert("urn:ietf:params:acme:error:malformed"@.len() == 36);
    assert("urn:ietf:params:acme:error:orderNotReady"@.len() == 40);
    assert("urn:ietf:params:acme:error:rateLimited"@.len() == 38);
    assert("urn:ietf:params:acme:error:rejectedIdentifier"@.len() == 45);
    assert("urn:ietf:params:acme:error:serverInternal"@.len() == 41);
    assert("urn:ietf:params:acme:error:tls"@.len() == 30);
    assert("urn:ietf:params:acme:error:unauthorized"@.len() == 39);
    assert("urn:ietf:params:acme:error:unsupportedContact"@.len() == 45);
    assert("urn:ietf:params:acme:error:unsupportedIdentifier"@.len() == 48);
    assert("urn:ietf:params:acme:error:userActionRequired"@.len() == 45);
    // Two identifiers of the same length differ in a character.
    assert("urn:ietf:params:acme:error:badRevocationReason"@[27] != "urn:ietf:params:acme:error:accountDoesNotExist"@[27]);
    assert("urn:ietf:params:acme:error:compound"@[27] != "urn:ietf:params:acme:error:badNonce"@[27]);
    assert("urn:ietf:params:acme:error:dns"@[27] != "urn:ietf:params:acme:error:caa"@[27]);
    assert("urn:ietf:params:acme:error:invalidContact"@[27] != "urn:ietf:params:acme:error:alreadyRevoked"@[27]);
    assert("urn:ietf:params:acme:error:serverInternal"@[27] != "urn:ietf:params:acme:error:alreadyRevoked"@[27]);
    assert("urn:ietf:params:acme:error:serverInternal"@[27] != "urn:ietf:params:acme:error:invalidContact"@[27]);
    assert("urn:ietf:params:acme:error:tls"@[27] != "urn:ietf:params:acme:error:caa"@[27]);
    assert("urn:ietf:params:acme:error:tls"@[27] != "urn:ietf:params:acme:error:dns"@[27]);
    assert("urn:ietf:params:acme:error:unauthorized"@[27] != "urn:ietf:params:acme:error:badPublicKey"@[27]);
    assert("urn:ietf:params:acme:error:unsupportedContact"@[27] != "urn:ietf:params:acme:error:rejectedIdentifier"@[27]);
    assert("urn:ietf:params:acme:error:unsupportedIdentifier"@[27] != "urn:ietf:params:acme:error:badSignatureAlgorithm"@[27]);
    assert("urn:ietf:params:acme:error:userActionRequired"@[27] != "urn:ietf:params:acme:error:rejectedIdentifier"@[27]);
    assert("urn:ietf:params:acme:error:userActionRequired"@[28] != "urn:ietf:params:acme:error:unsupportedContact"@[28]);
}

} // verus!
