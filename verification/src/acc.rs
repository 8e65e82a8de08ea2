//! The resources of the certificate authority (directory, account, order,
//! authorization, finalized order) and, for each exchange about them, the
//! request that opens it and what its reply yields.

use vstd::prelude::*;
use vstd::slice::slice_to_vec;
use vstd::string::StringSliceAdditionalSpecFns;
use vstd::utf8::encode_utf8;
use openssl::error::ErrorStack;
use crate::crypto::build_csr;
use crate::crypto::csr_der;
use crate::crypto::MAX_INPUT;
use crate::error::Error;
use crate::http::extract_payload_and_nonce;
use crate::http::extract_payload_location_and_nonce;
use crate::http::extract_payload_nonce_and_place;
use crate::http::Exchange;
use crate::http::ExchangeView;
use crate::http::KeyRef;
use crate::http::KeyRefView;
use crate::http::Method;
use crate::http::Nonce;
use crate::http::Payload;
use crate::http::PayloadView;
use crate::http::Reply;
use crate::http::Request;
use crate::text::same_text;
use crate::util::KeyPair;

verus! {

/// A chain of certificates in PEM, the certificate for the domain first.
pub type Certificate = String;

/// The state that the certificate authority reports for a resource.
#[derive(Clone, Copy, Debug, PartialEq, Eq, Structural)]
pub enum StatusType {
    Valid,
    Pending,
    Invalid,
    Ready,
    Processing,
}

/// What polling a resource leads to.
#[derive(Clone, Copy, Debug, PartialEq, Eq, Structural)]
pub enum Poll {
    /// The resource is valid: go on with the next step.
    Proceed,
    /// The resource is not settled yet: wait, then ask again.
    Again,
    /// Polling ends in this failure.
    Fail(Error),
}

impl StatusType {
    /// True for the states that a resource never leaves.
    pub open spec fn spec_is_final(self) -> bool {
        self == StatusType::Valid || self == StatusType::Invalid
    }

    /// True for the states that a resource never leaves.
    pub fn is_final(&self) -> (r: bool)
        ensures
            r == self.spec_is_final(),
    {
        match self {
            StatusType::Valid | StatusType::Invalid => true,
            _ => false,
        }
    }

    /// True when an order in this state can be found in state `then` at a
    /// later look: it advances from pending over ready and processing to
    /// valid, one state at a time, and can turn invalid from any state that
    /// is not final.
    pub open spec fn may_become(self, then: StatusType) -> bool {
        self == then || match self {
            StatusType::Pending => then == StatusType::Ready || then == StatusType::Invalid,
            StatusType::Ready => then == StatusType::Processing || then == StatusType::Invalid,
            StatusType::Processing => then == StatusType::Valid || then == StatusType::Invalid,
            StatusType::Valid | StatusType::Invalid => false,
        }
    }

    /// What to do after the `polls`-th look at an authorization, with at
    /// most `limit` looks allowed: valid goes on, pending asks again until
    /// the limit is reached and then times out, anything else is fatal.
    pub open spec fn spec_poll_authorization(self, polls: nat, limit: nat) -> Poll {
        match self {
            StatusType::Valid => Poll::Proceed,
            StatusType::Pending => if polls < limit {
                Poll::Again
            } else {
                Poll::Fail(Error::Timeout)
            },
            _ => Poll::Fail(Error::IncorrectResponse),
        }
    }

    /// What to do after the `polls`-th look at a finalized order: valid goes
    /// on, invalid is fatal, any other state asks again until the limit is
    /// reached and then times out.
    pub open spec fn spec_poll_order(self, polls: nat, limit: nat) -> Poll {
        match self {
            StatusType::Valid => Poll::Proceed,
            StatusType::Invalid => Poll::Fail(Error::BadCSR),
            _ => if polls < limit {
                Poll::Again
            } else {
                Poll::Fail(Error::Timeout)
            },
        }
    }

    /// The decision after a look at an authorization.
    pub fn poll_authorization(&self, polls: u32, limit: u32) -> (r: Poll)
        ensures
            r == self.spec_poll_authorization(polls as nat, limit as nat),
    {
        match self {
            StatusType::Valid => Poll::Proceed,
            StatusType::Pending => if polls < limit {
                Poll::Again
            } else {
                Poll::Fail(Error::Timeout)
            },
            _ => Poll::Fail(Error::IncorrectResponse),
        }
    }

    /// The decision after a look at a finalized order.
    pub fn poll_order(&self, polls: u32, limit: u32) -> (r: Poll)
        ensures
            r == self.spec_poll_order(polls as nat, limit as nat),
    {
        match self {
            StatusType::Valid => Poll::Proceed,
            StatusType::Invalid => Poll::Fail(Error::BadCSR),
            _ => if polls < limit {
                Poll::Again
            } else {
                Poll::Fail(Error::Timeout)
            },
        }
    }
}

/// Polling goes on only for a state that is not final, and a final state
/// stays what it is: once a look has found a resource valid or invalid, no
/// later look finds anything else, and none is taken.
pub proof fn law_final_states(status: StatusType, then: StatusType, polls: nat, limit: nat)
    ensures
        status.spec_poll_order(polls, limit) == Poll::Again ==> !status.spec_is_final(),
        status.spec_poll_authorization(polls, limit) == Poll::Again ==> !status.spec_is_final(),
        status.spec_is_final() && status.may_become(then) ==> then == status,
        status.spec_poll_order(polls, limit) == Poll::Proceed <==> status == StatusType::Valid,
        status.spec_poll_authorization(polls, limit) == Poll::Proceed <==> status
            == StatusType::Valid,
        status == StatusType::Invalid ==> status.spec_poll_order(polls, limit) is Fail
            && status.spec_poll_authorization(polls, limit) is Fail,
{
}

/// The endpoints of the certificate authority, and the nonce for the next request.
#[derive(Debug)]
pub struct Directory {
    pub new_nonce: String,
    pub new_account: String,
    pub new_order: String,
    pub revoke_cert: String,
    pub key_change: String,
    pub nonce: Nonce,
}

/// An account at the certificate authority.
#[derive(Debug)]
pub struct Account {
    pub status: String,
    pub contact: Option<Vec<String>>,
    pub terms_of_service_agreed: Option<bool>,
    pub orders: Option<Vec<String>>,
    /// The nonce for the next request.
    pub nonce: Nonce,
    /// The account's URL, by which later requests name the account key.
    pub account_location: String,
}

/// A request for one certificate.
#[derive(Debug)]
pub struct Order {
    pub status: StatusType,
    pub authorizations: Vec<String>,
    pub finalize: String,
    pub certificate: Option<String>,
    /// The order's own URL, where the reply that created it told one.
    pub location: Option<String>,
    /// The nonce for the next request.
    pub nonce: Nonce,
    /// A certificate signing request in DER that the caller brought along.
    pub optional_csr: Option<Vec<u8>>,
}

/// One way to prove control of a domain.
#[derive(Debug)]
pub struct Challenge {
    /// The challenge's type, such as `http-01`.
    pub kind: String,
    pub token: String,
    pub url: String,
    pub status: StatusType,
}

/// An authorization: the challenges that the certificate authority offers
/// for one domain.
#[derive(Debug)]
pub struct ChallengeAuthorisation {
    pub status: StatusType,
    pub challenges: Vec<Challenge>,
    /// The nonce for the next request.
    pub nonce: Nonce,
}

/// An order after it was finalized.
#[derive(Debug)]
pub struct UpdatedOrder {
    pub status: StatusType,
    pub certificate: Option<String>,
    /// The nonce for the next request.
    pub nonce: Nonce,
}

/// The request that reads the directory of a certificate authority.
pub fn directory_request(server_url: &str) -> (r: Request)
    ensures
        r.method == Method::Get,
        r.url@ == server_url@,
        r.content_type is None,
        r.accept is None,
        r.body@ == Seq::<char>::empty(),
{
    Request {
        method: Method::Get,
        url: server_url.to_owned(),
        content_type: None,
        accept: None,
        body: String::new(),
    }
}

/// The request that asks for a fresh nonce.
pub fn nonce_request(new_nonce_url: &str) -> (r: Request)
    ensures
        r.method == Method::Head,
        r.url@ == new_nonce_url@,
        r.content_type is None,
        r.accept is None,
        r.body@ == Seq::<char>::empty(),
{
    Request {
        method: Method::Head,
        url: new_nonce_url.to_owned(),
        content_type: None,
        accept: None,
        body: String::new(),
    }
}

/// What `Directory::fetch_dir` yields: the directory with the nonce of the
/// reply, or the failure of a reply of which only the nonce is needed.
pub open spec fn spec_fetch_dir(listing: Directory, head: Reply<()>) -> Result<Directory, Error> {
    match head.nonce_failure() {
        Some(e) => Err(e),
        None => Ok(Directory { nonce: head.carried_nonce(), ..listing }),
    }
}

/// What `Directory::create_account` yields: the account of the reply with
/// the reply's nonce and location, or the failure of the reply.
pub open spec fn spec_create_account(reply: Reply<Account>) -> Result<Account, Error> {
    match reply.failure_with_location() {
        Some(e) => Err(e),
        None => Ok(
            Account {
                nonce: reply.carried_nonce(),
                account_location: reply.carried_location(),
                ..reply.content()
            },
        ),
    }
}

/// What `Account::create_new_order` yields: the order of the reply with the
/// reply's nonce, its location where it has one, and the certificate signing
/// request that was brought along; or the failure of the reply.
pub open spec fn spec_create_new_order(reply: Reply<Order>, optional_csr: Option<Vec<u8>>) -> Result<
    Order,
    Error,
> {
    match reply.failure() {
        Some(e) => Err(e),
        None => Ok(
            Order {
                nonce: reply.carried_nonce(),
                optional_csr,
                location: reply.carried_place(),
                ..reply.content()
            },
        ),
    }
}

/// What `Order::fetch_auth_challenges` yields: the authorization of the
/// reply with the reply's nonce; the failure of the reply; or, for an
/// authorization that offers no challenge over HTTP, that failure.
pub open spec fn spec_fetch_auth_challenges(reply: Reply<ChallengeAuthorisation>) -> Result<
    ChallengeAuthorisation,
    Error,
> {
    match reply.failure() {
        Some(e) => Err(e),
        None => if http_index(reply.content().challenges@, 0) >= reply.content().challenges@.len() {
            Err(Error::NoHttpChallengePresent)
        } else {
            Ok(ChallengeAuthorisation { nonce: reply.carried_nonce(), ..reply.content() })
        },
    }
}

/// What `Order::finalize_order` yields: the finalized order of the reply
/// with the reply's nonce, or the failure of the reply.
pub open spec fn spec_finalize_order(reply: Reply<UpdatedOrder>) -> Result<UpdatedOrder, Error> {
    match reply.failure() {
        Some(e) => Err(e),
        None => Ok(UpdatedOrder { nonce: reply.carried_nonce(), ..reply.content() }),
    }
}

/// What `UpdatedOrder::download_certificate` yields: the body of the reply as
/// it came, or the failure of the reply.
pub open spec fn spec_download_certificate(reply: Reply<Certificate>) -> Result<
    Certificate,
    Error,
> {
    match reply.failure() {
        Some(e) => Err(e),
        None => Ok(reply.content()),
    }
}

impl Directory {
    /// A directory of which nothing is known yet.
    pub fn blank() -> (r: Directory)
        ensures
            r.new_nonce@ == Seq::<char>::empty(),
            r.new_account@ == Seq::<char>::empty(),
            r.new_order@ == Seq::<char>::empty(),
            r.revoke_cert@ == Seq::<char>::empty(),
            r.key_change@ == Seq::<char>::empty(),
            r.nonce@ == Seq::<char>::empty(),
    {
        Directory {
            new_nonce: String::new(),
            new_account: String::new(),
            new_order: String::new(),
            revoke_cert: String::new(),
            key_change: String::new(),
            nonce: String::new(),
        }
    }

    /// The exchange that creates an account with `email` as its contact.
    pub open spec fn spec_create_account_request(
        self,
        nonce: Seq<char>,
        email: Seq<char>,
    ) -> ExchangeView {
        ExchangeView {
            url: self.new_account@,
            nonce: nonce,
            key: KeyRefView::Embedded,
            payload: PayloadView::NewAccount { email: email },
            accept_chain: false,
        }
    }

    /// Completes the directory that was read with the first nonce, from the
    /// reply to the request for one. Fails with a bad nonce where the reply
    /// carries none.
    pub fn fetch_dir(listing: Directory, head: Reply<()>) -> (r: Result<Directory, Error>)
        ensures
            r == spec_fetch_dir(listing, head),
    {
        match head.into_nonce() {
            Ok(nonce) => Ok(Directory { nonce, ..listing }),
            Err(e) => Err(e),
        }
    }

    /// The exchange that creates an account: to the new-account endpoint,
    /// with the public key in the header and the e-mail address as contact.
    /// It spends `nonce`, the one of the last reply.
    pub fn create_account_request(&self, nonce: &str, email: &str) -> (r: Exchange)
        ensures
            r@ == self.spec_create_account_request(nonce@, email@),
    {
        Exchange {
            url: self.new_account.clone(),
            nonce: nonce.to_owned(),
            key: KeyRef::Embedded,
            payload: Payload::NewAccount { email: email.to_owned() },
            accept_chain: false,
        }
    }

    /// The account that the reply to `create_account_request` describes,
    /// with the nonce and the location that the reply carries.
    pub fn create_account(&self, reply: Reply<Account>) -> (r: Result<Account, Error>)
        ensures
            r == spec_create_account(reply),
    {
        match extract_payload_location_and_nonce(reply) {
            Ok(found) => Ok(Account { nonce: found.0, account_location: found.2, ..found.1 }),
            Err(e) => Err(e),
        }
    }
}

impl Account {
    /// An account of which nothing is known yet.
    pub fn blank() -> (r: Account)
        ensures
            r.account_location@ == Seq::<char>::empty(),
            r.nonce@ == Seq::<char>::empty(),
    {
        Account {
            status: String::new(),
            contact: None,
            terms_of_service_agreed: None,
            orders: None,
            nonce: String::new(),
            account_location: String::new(),
        }
    }

    /// The exchange that orders a certificate for `domain`.
    pub open spec fn spec_create_new_order_request(
        self,
        nonce: Seq<char>,
        new_order_url: Seq<char>,
        domain: Seq<char>,
    ) -> ExchangeView {
        ExchangeView {
            url: new_order_url,
            nonce: nonce,
            key: KeyRefView::Kid(self.account_location@),
            payload: PayloadView::NewOrder { domain: domain },
            accept_chain: false,
        }
    }

    /// The exchange that orders a certificate for `domain`.
    pub fn create_new_order_request(&self, nonce: &str, new_order_url: &str, domain: &str) -> (r:
        Exchange)
        ensures
            r@ == self.spec_create_new_order_request(nonce@, new_order_url@, domain@),
    {
        Exchange {
            url: new_order_url.to_owned(),
            nonce: nonce.to_owned(),
            key: KeyRef::Kid(self.account_location.clone()),
            payload: Payload::NewOrder { domain: domain.to_owned() },
            accept_chain: false,
        }
    }

    /// The order that the reply to `create_new_order_request` describes, with
    /// the reply's nonce, the order's URL where the reply tells it, and the
    /// certificate signing request that the caller brought along.
    pub fn create_new_order(&self, reply: Reply<Order>, optional_csr: Option<Vec<u8>>) -> (r:
        Result<Order, Error>)
        ensures
            r == spec_create_new_order(reply, optional_csr),
    {
        match extract_payload_nonce_and_place(reply) {
            Ok(found) => Ok(Order { nonce: found.0, optional_csr, location: found.2, ..found.1 }),
            Err(e) => Err(e),
        }
    }
}

/// True for a challenge that is answered over HTTP.
pub open spec fn is_http(c: Challenge) -> bool {
    c.kind@ == "http-01"@
}

/// Index of the first challenge at or after `from` that is answered over
/// HTTP; the number of challenges where there is none.
pub open spec fn http_index(challenges: Seq<Challenge>, from: int) -> int
    decreases challenges.len() - from,
{
    if from < 0 || from >= challenges.len() {
        challenges.len() as int
    } else if is_http(challenges[from]) {
        from
    } else {
        http_index(challenges, from + 1)
    }
}

/// `http_index` is the first index from `from` on at which a challenge over
/// HTTP stands.
pub proof fn lemma_http_index(challenges: Seq<Challenge>, from: int)
    requires
        0 <= from <= challenges.len(),
    ensures
        from <= http_index(challenges, from) <= challenges.len(),
        http_index(challenges, from) < challenges.len() ==> is_http(
            challenges[http_index(challenges, from)],
        ),
        forall|j: int| from <= j < http_index(challenges, from) ==> !is_http(challenges[j]),
    decreases challenges.len() - from,
{
    if from < challenges.len() && !is_http(challenges[from]) {
        lemma_http_index(challenges, from + 1);
    }
}

impl ChallengeAuthorisation {
    /// The first challenge of the authorization that is answered over HTTP.
    /// Fails where the authorization offers none.
    pub fn http_challenge(&self) -> (r: Result<&Challenge, Error>)
        ensures
            r matches Ok(c) ==> http_index(self.challenges@, 0) < self.challenges@.len() && *c
                == self.challenges@[http_index(self.challenges@, 0)],
            r matches Err(e) ==> e == Error::NoHttpChallengePresent && http_index(
                self.challenges@,
                0,
            ) == self.challenges@.len(),
    {
        let n = self.challenges.len();
        let mut i: usize = 0;
        while i < n
            invariant
                i <= n,
                n == self.challenges@.len(),
                http_index(self.challenges@, 0) == http_index(self.challenges@, i as int),
            decreases n - i,
        {
            if same_text(self.challenges[i].kind.as_str(), "http-01") {
                return Ok(&self.challenges[i]);
            }
            i = i + 1;
        }
        Err(Error::NoHttpChallengePresent)
    }
}

/// An exchange that reads a resource, or tells that a challenge is ready:
/// an empty payload, posted to the resource's URL in the name of the account.
pub open spec fn spec_read(url: Seq<char>, nonce: Seq<char>, account_url: Seq<char>) -> ExchangeView {
    ExchangeView {
        url: url,
        nonce: nonce,
        key: KeyRefView::Kid(account_url),
        payload: PayloadView::Empty,
        accept_chain: false,
    }
}

impl Challenge {
    /// A challenge of which nothing is known yet.
    pub fn blank() -> (r: Challenge)
        ensures
            r.url@ == Seq::<char>::empty(),
            r.token@ == Seq::<char>::empty(),
    {
        Challenge {
            kind: String::new(),
            token: String::new(),
            url: String::new(),
            status: StatusType::Pending,
        }
    }

    /// A copy of the challenge.
    pub fn copy(&self) -> (r: Challenge)
        ensures
            r == *self,
    {
        Challenge {
            kind: self.kind.clone(),
            token: self.token.clone(),
            url: self.url.clone(),
            status: self.status,
        }
    }

    /// The exchange that tells that the challenge can be looked at.
    pub open spec fn spec_ready_request(self, account_url: Seq<char>, nonce: Seq<char>) -> ExchangeView {
        spec_read(self.url@, nonce, account_url)
    }

    /// The exchange that tells the certificate authority that the challenge
    /// can be looked at: an empty payload, posted to the challenge's own URL.
    pub fn ready_request(&self, account_url: &str, nonce: &str) -> (r: Exchange)
        ensures
            r@ == self.spec_ready_request(account_url@, nonce@),
    {
        Exchange {
            url: self.url.clone(),
            nonce: nonce.to_owned(),
            key: KeyRef::Kid(account_url.to_owned()),
            payload: Payload::Empty,
            accept_chain: false,
        }
    }
}

/// The certificate signing request for a name and a key pair in PEM: the one
/// that OpenSSL builds, where the keys and the name are short enough to be
/// handed to it and it builds one.
pub open spec fn spec_csr_for(private_pem: Seq<u8>, public_pem: Seq<u8>, common_name: Seq<char>) -> Option<
    Seq<u8>,
> {
    if private_pem.len() > MAX_INPUT || public_pem.len() > MAX_INPUT || encode_utf8(
        common_name,
    ).len() > MAX_INPUT {
        None
    } else {
        csr_der(private_pem, public_pem, common_name)
    }
}

/// The certificate signing request that finalizes an order: the one that
/// was brought along; where none was, the one that is built for the domain
/// from the key pair, if one is.
pub open spec fn spec_choose_csr(
    brought: Option<Seq<u8>>,
    private_pem: Seq<u8>,
    public_pem: Seq<u8>,
    domain: Seq<char>,
) -> Option<Seq<u8>> {
    match brought {
        Some(csr) => Some(csr),
        None => spec_csr_for(private_pem, public_pem, domain),
    }
}

impl Order {
    /// An order of which nothing is known yet.
    pub fn blank() -> (r: Order)
        ensures
            r.authorizations@.len() == 0,
            r.finalize@ == Seq::<char>::empty(),
            r.certificate is None,
            r.location is None,
            r.optional_csr is None,
            r.nonce@ == Seq::<char>::empty(),
    {
        Order {
            status: StatusType::Pending,
            authorizations: Vec::new(),
            finalize: String::new(),
            certificate: None,
            location: None,
            nonce: String::new(),
            optional_csr: None,
        }
    }

    /// The exchange that reads the order's first authorization, or the
    /// failure where the order names none.
    pub open spec fn spec_fetch_auth_challenges_request(
        self,
        nonce: Seq<char>,
        account_url: Seq<char>,
    ) -> Result<ExchangeView, Error> {
        if self.authorizations@.len() == 0 {
            Err(Error::NoHttpChallengePresent)
        } else {
            Ok(spec_read(self.authorizations@[0]@, nonce, account_url))
        }
    }

    /// The exchange that reads the order's first authorization: an empty
    /// payload, posted to its URL. It spends `nonce`, the one of the last
    /// reply. Fails where the order names no authorization.
    pub fn fetch_auth_challenges_request(&self, nonce: &str, account_url: &str) -> (r: Result<
        Exchange,
        Error,
    >)
        ensures
            match self.spec_fetch_auth_challenges_request(nonce@, account_url@) {
                Ok(v) => r matches Ok(x) && x@ == v,
                Err(e) => r matches Err(x) && x == e,
            },
    {
        if self.authorizations.len() == 0 {
            return Err(Error::NoHttpChallengePresent);
        }
        Ok(
            Exchange {
                url: self.authorizations[0].clone(),
                nonce: nonce.to_owned(),
                key: KeyRef::Kid(account_url.to_owned()),
                payload: Payload::Empty,
                accept_chain: false,
            },
        )
    }

    /// The exchange that reads the order itself, or the failure where the
    /// URL of the order is not known.
    pub open spec fn spec_poll_request(self, nonce: Seq<char>, account_url: Seq<char>) -> Result<
        ExchangeView,
        Error,
    > {
        match self.location {
            Some(url) => Ok(spec_read(url@, nonce, account_url)),
            None => Err(Error::IncorrectResponse),
        }
    }

    /// The exchange that looks at the order after it was finalized: an empty
    /// payload, posted to the order's own URL. It spends `nonce`. Fails as an
    /// incorrect response where the reply that created the order told no URL.
    pub fn poll_request(&self, nonce: &str, account_url: &str) -> (r: Result<Exchange, Error>)
        ensures
            match self.spec_poll_request(nonce@, account_url@) {
                Ok(v) => r matches Ok(x) && x@ == v,
                Err(e) => r matches Err(x) && x == e,
            },
    {
        match &self.location {
            Some(url) => Ok(
                Exchange {
                    url: url.clone(),
                    nonce: nonce.to_owned(),
                    key: KeyRef::Kid(account_url.to_owned()),
                    payload: Payload::Empty,
                    accept_chain: false,
                },
            ),
            None => Err(Error::IncorrectResponse),
        }
    }

    /// The authorization that the reply to `fetch_auth_challenges_request`
    /// describes, with the reply's nonce. Fails where the authorization
    /// offers no challenge over HTTP.
    pub fn fetch_auth_challenges(&self, reply: Reply<ChallengeAuthorisation>) -> (r: Result<
        ChallengeAuthorisation,
        Error,
    >)
        ensures
            r == spec_fetch_auth_challenges(reply),
    {
        match extract_payload_and_nonce(reply) {
            Ok(found) => {
                let authorization = ChallengeAuthorisation { nonce: found.0, ..found.1 };
                let missing = match authorization.http_challenge() {
                    Ok(_) => None,
                    Err(e) => Some(e),
                };
                match missing {
                    None => Ok(authorization),
                    Some(e) => Err(e),
                }
            },
            Err(e) => Err(e),
        }
    }

    /// What `request_csr` returns for each outcome of building the request.
    pub fn csr_from(built: Result<Vec<u8>, ErrorStack>) -> (r: Result<Vec<u8>, Error>)
        ensures
            match built {
                Ok(der) => r matches Ok(d) && d == der,
                Err(_) => r matches Err(e) && e == Error::FromRsaError,
            },
    {
        match built {
            Ok(der) => Ok(der),
            Err(_) => Err(Error::FromRsaError),
        }
    }

    /// The certificate signing request that `request_csr` gives: the one that
    /// OpenSSL builds, where the keys and the name are short enough to be
    /// handed to it and it builds one.
    pub open spec fn spec_request_csr(keypair: KeyPair, common_name: Seq<char>) -> Option<
        Seq<u8>,
    > {
        spec_csr_for(keypair.private_pem@, keypair.public_pem@, common_name)
    }

    /// Builds the certificate signing request for `common_name` and the
    /// public key of `keypair`, signed by its private key, in DER. It
    /// succeeds wherever OpenSSL builds the request; a key or a name that is
    /// too long to be handed to it, or that it refuses, is a crypto failure.
    pub fn request_csr(keypair: &KeyPair, common_name: &str) -> (r: Result<Vec<u8>, Error>)
        ensures
            match Order::spec_request_csr(*keypair, common_name@) {
                Some(der) => r matches Ok(d) && d@ == der,
                None => r matches Err(e) && e == Error::FromRsaError,
            },
    {
        if keypair.private_pem.len() > MAX_INPUT || keypair.public_pem.len() > MAX_INPUT
            || common_name.as_bytes().len() > MAX_INPUT {
            return Err(Error::FromRsaError);
        }
        Order::csr_from(
            build_csr(keypair.private_pem.as_slice(), keypair.public_pem.as_slice(), common_name),
        )
    }

    /// The certificate signing request that finalizes the order: the one that
    /// came with the order; where none came, the one that is built for
    /// `domain` from `cert_keypair`, if one is.
    pub open spec fn spec_csr(self, cert_keypair: KeyPair, domain: Seq<char>) -> Option<Seq<u8>> {
        spec_choose_csr(
            match self.optional_csr {
                Some(csr) => Some(csr@),
                None => None,
            },
            cert_keypair.private_pem@,
            cert_keypair.public_pem@,
            domain,
        )
    }

    /// The exchange that finalizes the order with the given certificate
    /// signing request.
    pub open spec fn spec_finalize_request(
        self,
        account_url: Seq<char>,
        nonce: Seq<char>,
        csr: Seq<u8>,
    ) -> ExchangeView {
        ExchangeView {
            url: self.finalize@,
            nonce: nonce,
            key: KeyRefView::Kid(account_url),
            payload: PayloadView::Finalize { csr: csr },
            accept_chain: true,
        }
    }

    /// The exchange that finalizes the order: posted to the order's finalize
    /// URL, asking for a PEM certificate chain. The certificate signing
    /// request is the one that came with the order; where none came, it is
    /// built for `domain` from `cert_keypair`, and a failure to build it is a
    /// crypto failure.
    pub fn finalize_order_request(
        &self,
        account_url: &str,
        new_nonce: Nonce,
        cert_keypair: &KeyPair,
        domain: &str,
    ) -> (r: Result<Exchange, Error>)
        ensures
            match self.spec_csr(*cert_keypair, domain@) {
                Some(csr) => r matches Ok(x) && x@ == self.spec_finalize_request(
                    account_url@,
                    new_nonce@,
                    csr,
                ),
                None => r matches Err(e) && e == Error::FromRsaError,
            },
    {
        let csr = match &self.optional_csr {
            Some(csr) => slice_to_vec(csr.as_slice()),
            None => match Order::request_csr(cert_keypair, domain) {
                Ok(csr) => csr,
                Err(e) => {
                    return Err(e);
                },
            },
        };
        Ok(
            Exchange {
                url: self.finalize.clone(),
                nonce: new_nonce,
                key: KeyRef::Kid(account_url.to_owned()),
                payload: Payload::Finalize { csr },
                accept_chain: true,
            },
        )
    }

    /// The finalized order that the reply to `finalize_order_request`
    /// describes, with the reply's nonce.
    pub fn finalize_order(reply: Reply<UpdatedOrder>) -> (r: Result<UpdatedOrder, Error>)
        ensures
            r == spec_finalize_order(reply),
    {
        match extract_payload_and_nonce(reply) {
            Ok(found) => Ok(UpdatedOrder { nonce: found.0, ..found.1 }),
            Err(e) => Err(e),
        }
    }
}

impl UpdatedOrder {
    /// A finalized order of which nothing is known yet.
    pub fn blank() -> (r: UpdatedOrder)
        ensures
            r.certificate is None,
            r.nonce@ == Seq::<char>::empty(),
    {
        UpdatedOrder { status: StatusType::Pending, certificate: None, nonce: String::new() }
    }

    /// The exchange that downloads the certificate, or the failure where the
    /// order has no certificate yet.
    pub open spec fn spec_download_request(self, nonce: Seq<char>, account_url: Seq<char>) -> Result<
        ExchangeView,
        Error,
    > {
        match self.certificate {
            Some(url) => Ok(spec_read(url@, nonce, account_url)),
            None => Err(Error::OrderNotReady),
        }
    }

    /// The exchange that downloads the certificate: an empty payload, posted
    /// to the certificate's URL. It spends `nonce`. Fails where the order has
    /// no certificate yet.
    pub fn download_certificate_request(&self, nonce: &str, account_url: &str) -> (r: Result<
        Exchange,
        Error,
    >)
        ensures
            match self.spec_download_request(nonce@, account_url@) {
                Ok(v) => r matches Ok(x) && x@ == v,
                Err(e) => r matches Err(x) && x == e,
            },
    {
        match &self.certificate {
            Some(url) => Ok(
                Exchange {
                    url: url.clone(),
                    nonce: nonce.to_owned(),
                    key: KeyRef::Kid(account_url.to_owned()),
                    payload: Payload::Empty,
                    accept_chain: false,
                },
            ),
            None => Err(Error::OrderNotReady),
        }
    }

    /// The certificate chain that the reply to `download_certificate_request`
    /// carries, as it came.
    pub fn download_certificate(&self, reply: Reply<Certificate>) -> (r: Result<Certificate, Error>)
        ensures
            r == spec_download_certificate(reply),
    {
        match extract_payload_and_nonce(reply) {
            Ok(found) => Ok(found.1),
            Err(e) => Err(e),
        }
    }
}

} // verus!
