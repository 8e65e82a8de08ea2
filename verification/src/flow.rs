//! The session that obtains a certificate: which request follows which reply.
//!
//! The session does no input or output. It is told what happened (`Event`)
//! and answers what to do next (`Action`); whoever drives it sends the
//! requests, runs the responder and waits. The session holds the resources
//! as they came (directory, account, order, challenge, finalized order). It
//! takes them from the replies with their own handlers, and builds every
//! signed request with their own builders from what it holds, so that a
//! request can be built again with a fresh nonce.

use vstd::prelude::*;
use vstd::slice::slice_to_vec;
use crate::acc::http_index;
use crate::acc::spec_create_account;
use crate::acc::spec_create_new_order;
use crate::acc::spec_download_certificate;
use crate::acc::spec_fetch_auth_challenges;
use crate::acc::spec_fetch_dir;
use crate::acc::spec_finalize_order;
use crate::acc::spec_choose_csr;
use crate::acc::spec_read;
use crate::acc::Account;
use crate::acc::Certificate;
use crate::acc::Challenge;
use crate::acc::ChallengeAuthorisation;
use crate::acc::Directory;
use crate::acc::Order;
use crate::acc::Poll;
use crate::acc::StatusType;
use crate::acc::UpdatedOrder;
use crate::error::Error;
use crate::http::extract_payload_and_nonce;
use crate::http::Exchange;
use crate::http::ExchangeView;
use crate::http::Header;
use crate::http::KeyRefView;
use crate::http::Method;
use crate::http::PayloadView;
use crate::http::Reply;
use crate::responder::challenge_path;
use crate::responder::spec_challenge_path;
use crate::util::key_authorization;
use crate::util::KeyPair;
use crate::util::spec_key_authorization;

verus! {

/// Where a session stands: what it waits for.
#[derive(Clone, Copy, Debug, PartialEq, Eq, Structural)]
pub enum Phase {
    /// Nothing was asked yet.
    Start,
    /// The directory was asked for.
    Listing,
    /// The first nonce was asked for.
    FirstNonce,
    /// The account is being created.
    Account,
    /// The order is being created.
    Order,
    /// The authorization is read for the first time.
    Authorization,
    /// The responder is being started.
    Responder,
    /// The answer to the challenge is being published by other means.
    Publishing,
    /// The certificate authority is told that the challenge is ready.
    Ready,
    /// The authorization is looked at.
    PollAuthorization,
    /// A pause before the authorization is looked at again.
    AuthorizationWait,
    /// The responder is being stopped, the authorization being valid.
    Teardown,
    /// The order is being finalized.
    Finalize,
    /// A pause before the order is looked at again.
    OrderWait,
    /// The order is looked at.
    PollOrder,
    /// The certificate is being downloaded.
    Certificate,
    /// A fresh nonce was asked for, the last one having been refused.
    Renonce,
    /// The responder is being stopped, the session having failed.
    Abort,
    /// The certificate is there.
    Done,
    /// The session failed.
    Failed,
}

/// The kinds of replies that a session waits for.
#[derive(Clone, Copy, Debug, PartialEq, Eq, Structural)]
pub enum Awaited {
    /// The directory, as the body of the reply.
    Listing,
    /// A nonce, in the header of a reply without a body.
    Nonce,
    /// The account.
    Account,
    /// The order.
    Order,
    /// The authorization.
    Authorization,
    /// The challenge.
    Challenge,
    /// The order after it was finalized.
    Finalized,
    /// The certificate chain, as text.
    Certificate,
}

impl Phase {
    /// The kind of reply that a session in this phase waits for, if it waits
    /// for a reply.
    pub fn awaits(self) -> (r: Option<Awaited>)
        ensures
            r == match self {
                Phase::Listing => Some(Awaited::Listing),
                Phase::FirstNonce | Phase::Renonce => Some(Awaited::Nonce),
                Phase::Account => Some(Awaited::Account),
                Phase::Order => Some(Awaited::Order),
                Phase::Authorization | Phase::PollAuthorization => Some(Awaited::Authorization),
                Phase::Ready => Some(Awaited::Challenge),
                Phase::Finalize | Phase::PollOrder => Some(Awaited::Finalized),
                Phase::Certificate => Some(Awaited::Certificate),
                _ => None,
            },
            r is Some <==> self.is_signed() || self == Phase::Listing || self == Phase::FirstNonce
                || self == Phase::Renonce,
    {
        match self {
            Phase::Listing => Some(Awaited::Listing),
            Phase::FirstNonce | Phase::Renonce => Some(Awaited::Nonce),
            Phase::Account => Some(Awaited::Account),
            Phase::Order => Some(Awaited::Order),
            Phase::Authorization | Phase::PollAuthorization => Some(Awaited::Authorization),
            Phase::Ready => Some(Awaited::Challenge),
            Phase::Finalize | Phase::PollOrder => Some(Awaited::Finalized),
            Phase::Certificate => Some(Awaited::Certificate),
            _ => None,
        }
    }

    /// True for the phases in which the reply to a signed request is awaited.
    pub open spec fn is_signed(self) -> bool {
        self == Phase::Account || self == Phase::Order || self == Phase::Authorization || self
            == Phase::Ready || self == Phase::PollAuthorization || self == Phase::Finalize || self
            == Phase::PollOrder || self == Phase::Certificate
    }

    /// True for the two phases in which a session ends.
    pub open spec fn is_terminal(self) -> bool {
        self == Phase::Done || self == Phase::Failed
    }
}

/// What a session is asked to obtain, and how patiently.
#[derive(Debug)]
pub struct Config {
    /// The URL of the certificate authority's directory.
    pub server_url: String,
    /// The e-mail address of the account's contact.
    pub email: String,
    /// The domain that the certificate is for.
    pub domain: String,
    /// The thumbprint of the account key.
    pub thumbprint: String,
    /// A certificate signing request in DER that the caller brings along,
    /// if there is one.
    pub optional_csr: Option<Vec<u8>>,
    /// The key pair of the certificate, from which the certificate signing
    /// request is built where none is brought along.
    pub cert_keypair: KeyPair,
    /// True when the session serves the challenge by a responder of its own.
    pub standalone: bool,
    /// How often an authorization, and how often an order, is looked at
    /// before the session gives up.
    pub poll_limit: u32,
    /// Seconds between two looks.
    pub poll_interval: u32,
    /// How often in all a fresh nonce is fetched after one was refused.
    pub nonce_retry_limit: u32,
}

/// The state of a session.
#[derive(Debug)]
pub struct Session {
    pub config: Config,
    pub phase: Phase,
    /// The phase to go back to once a fresh nonce is there.
    pub resume: Phase,
    /// The nonce that the next signed request spends.
    pub nonce: String,
    /// The directory, as it was read.
    pub directory: Directory,
    /// The account, as it was created.
    pub account: Account,
    /// The order, as it was created.
    pub order: Order,
    /// The challenge over HTTP that was picked.
    pub challenge: Challenge,
    /// The order as the last look after finalizing found it.
    pub updated: UpdatedOrder,
    /// Looks at the resource that is being polled, so far.
    pub polls: u32,
    /// Fresh nonces fetched after a refusal, so far.
    pub nonce_retries: u32,
    pub responder_running: bool,
    /// Why the session failed or is about to.
    pub failure: Option<Error>,
    /// The certificate chain, once it is there.
    pub certificate: String,
}

/// The mathematical value of a `Session`.
pub struct SessionView {
    pub server_url: Seq<char>,
    pub email: Seq<char>,
    pub domain: Seq<char>,
    pub thumbprint: Seq<char>,
    pub optional_csr: Option<Seq<u8>>,
    pub cert_private: Seq<u8>,
    pub cert_public: Seq<u8>,
    pub standalone: bool,
    pub poll_limit: u32,
    pub poll_interval: u32,
    pub nonce_retry_limit: u32,
    pub phase: Phase,
    pub resume: Phase,
    pub nonce: Seq<char>,
    pub new_nonce_url: Seq<char>,
    pub new_account_url: Seq<char>,
    pub new_order_url: Seq<char>,
    pub account_url: Seq<char>,
    pub order_url: Option<Seq<char>>,
    /// The first authorization of the order, if it names one.
    pub authorization_url: Option<Seq<char>>,
    pub finalize_url: Seq<char>,
    /// The certificate signing request that came with the order.
    pub order_csr: Option<Seq<u8>>,
    pub challenge_url: Seq<char>,
    pub challenge_token: Seq<char>,
    pub certificate_url: Option<Seq<char>>,
    pub polls: u32,
    pub nonce_retries: u32,
    pub responder_running: bool,
    pub failure: Option<Error>,
    pub certificate: Seq<char>,
}

/// The bytes that an optional byte string holds.
pub open spec fn bytes_view(bytes: Option<Vec<u8>>) -> Option<Seq<u8>> {
    match bytes {
        Some(b) => Some(b@),
        None => None,
    }
}

/// The text that an optional text holds.
pub open spec fn text_view(text: Option<String>) -> Option<Seq<char>> {
    match text {
        Some(t) => Some(t@),
        None => None,
    }
}

impl View for Session {
    type V = SessionView;

    open spec fn view(&self) -> SessionView {
        SessionView {
            server_url: self.config.server_url@,
            email: self.config.email@,
            domain: self.config.domain@,
            thumbprint: self.config.thumbprint@,
            optional_csr: bytes_view(self.config.optional_csr),
            cert_private: self.config.cert_keypair.private_pem@,
            cert_public: self.config.cert_keypair.public_pem@,
            standalone: self.config.standalone,
            poll_limit: self.config.poll_limit,
            poll_interval: self.config.poll_interval,
            nonce_retry_limit: self.config.nonce_retry_limit,
            phase: self.phase,
            resume: self.resume,
            nonce: self.nonce@,
            new_nonce_url: self.directory.new_nonce@,
            new_account_url: self.directory.new_account@,
            new_order_url: self.directory.new_order@,
            account_url: self.account.account_location@,
            order_url: text_view(self.order.location),
            authorization_url: if self.order.authorizations@.len() > 0 {
                Some(self.order.authorizations@[0]@)
            } else {
                None
            },
            finalize_url: self.order.finalize@,
            order_csr: bytes_view(self.order.optional_csr),
            challenge_url: self.challenge.url@,
            challenge_token: self.challenge.token@,
            certificate_url: text_view(self.updated.certificate),
            polls: self.polls,
            nonce_retries: self.nonce_retries,
            responder_running: self.responder_running,
            failure: self.failure,
            certificate: self.certificate@,
        }
    }
}

/// What happened since the session was last asked.
#[derive(Debug)]
pub enum Event {
    /// The session is to begin.
    Begin,
    /// The reply to the request for the directory.
    Listing(Reply<Directory>),
    /// The reply to a request for a nonce.
    Nonce(Reply<()>),
    /// The reply to the request that creates the account.
    Account(Reply<Account>),
    /// The reply to the request that creates the order.
    Order(Reply<Order>),
    /// The reply to a request that reads the authorization.
    Authorization(Reply<ChallengeAuthorisation>),
    /// The reply to the request that tells that the challenge is ready.
    Challenge(Reply<Challenge>),
    /// The reply to the request that finalizes the order, or to one that
    /// reads the order afterwards.
    Finalized(Reply<UpdatedOrder>),
    /// The reply to the request that downloads the certificate.
    Certificate(Reply<Certificate>),
    /// The responder runs.
    ResponderStarted,
    /// The responder could not be started.
    ResponderFailed,
    /// The answer to the challenge was published by other means.
    Published,
    /// The responder was stopped.
    ResponderStopped,
    /// The pause is over.
    Waited,
    /// The request could not be signed.
    Unsigned(Error),
}

/// What is to be done next.
#[derive(Debug)]
pub enum Action {
    /// Send this request unsigned, and report the reply.
    Fetch { method: Method, url: String },
    /// Sign this exchange with the account key, send it, and report the reply.
    Send(Exchange),
    /// Start the responder, with this body under this path.
    StartResponder { path: String, body: String },
    /// Publish this body under this path of the domain by other means; the
    /// session has no responder of its own.
    Publish { path: String, body: String },
    /// Stop the responder.
    StopResponder,
    /// Wait for this many seconds.
    Wait { seconds: u32 },
    /// The session ended with this certificate chain.
    Done(Certificate),
    /// The session ended in this failure.
    Fail(Error),
}

/// The mathematical value of an `Action`.
pub enum ActionView {
    Fetch { method: Method, url: Seq<char> },
    Send(ExchangeView),
    StartResponder { path: Seq<char>, body: Seq<char> },
    Publish { path: Seq<char>, body: Seq<char> },
    StopResponder,
    Wait { seconds: u32 },
    Done(Seq<char>),
    Fail(Error),
}

impl View for Action {
    type V = ActionView;

    open spec fn view(&self) -> ActionView {
        match self {
            Action::Fetch { method, url } => ActionView::Fetch { method: *method, url: url@ },
            Action::Send(x) => ActionView::Send(x@),
            Action::StartResponder { path, body } => ActionView::StartResponder {
                path: path@,
                body: body@,
            },
            Action::Publish { path, body } => ActionView::Publish { path: path@, body: body@ },
            Action::StopResponder => ActionView::StopResponder,
            Action::Wait { seconds } => ActionView::Wait { seconds: *seconds },
            Action::Done(c) => ActionView::Done(c@),
            Action::Fail(e) => ActionView::Fail(*e),
        }
    }
}

impl ActionView {
    /// The request that the action sends, if it sends one: its method and
    /// its URL. A signed request is a POST.
    pub open spec fn request(self) -> Option<(Method, Seq<char>)> {
        match self {
            ActionView::Fetch { method, url } => Some((method, url)),
            ActionView::Send(x) => Some((Method::Post, x.url)),
            _ => None,
        }
    }

    /// True for the actions that send a request.
    pub open spec fn is_request(self) -> bool {
        self is Fetch || self is Send
    }
}

/// The state in which a session starts.
pub open spec fn spec_initial(config: Config) -> SessionView {
    SessionView {
        server_url: config.server_url@,
        email: config.email@,
        domain: config.domain@,
        thumbprint: config.thumbprint@,
        optional_csr: bytes_view(config.optional_csr),
        cert_private: config.cert_keypair.private_pem@,
        cert_public: config.cert_keypair.public_pem@,
        standalone: config.standalone,
        poll_limit: config.poll_limit,
        poll_interval: config.poll_interval,
        nonce_retry_limit: config.nonce_retry_limit,
        phase: Phase::Start,
        resume: Phase::Start,
        nonce: Seq::empty(),
        new_nonce_url: Seq::empty(),
        new_account_url: Seq::empty(),
        new_order_url: Seq::empty(),
        account_url: Seq::empty(),
        order_url: None,
        authorization_url: None,
        finalize_url: Seq::empty(),
        order_csr: None,
        challenge_url: Seq::empty(),
        challenge_token: Seq::empty(),
        certificate_url: None,
        polls: 0,
        nonce_retries: 0,
        responder_running: false,
        failure: None,
        certificate: Seq::empty(),
    }
}

/// The signed exchange of the phase in which a session stands, as the
/// builder of the resource at hand gives it, or the failure for which there
/// is none: the order names no authorization, no certificate signing request
/// can be built, or the URL of the order or of the certificate is not known.
/// The exchange spends the session's nonce, and names the key by the
/// account's URL in every phase but the one that creates the account.
pub open spec fn spec_exchange(s: SessionView) -> Result<ExchangeView, Error> {
    match s.phase {
        Phase::Account => Ok(
            ExchangeView {
                url: s.new_account_url,
                nonce: s.nonce,
                key: KeyRefView::Embedded,
                payload: PayloadView::NewAccount { email: s.email },
                accept_chain: false,
            },
        ),
        Phase::Order => Ok(
            ExchangeView {
                url: s.new_order_url,
                nonce: s.nonce,
                key: KeyRefView::Kid(s.account_url),
                payload: PayloadView::NewOrder { domain: s.domain },
                accept_chain: false,
            },
        ),
        Phase::Authorization | Phase::PollAuthorization => match s.authorization_url {
            Some(url) => Ok(spec_read(url, s.nonce, s.account_url)),
            None => Err(Error::NoHttpChallengePresent),
        },
        Phase::Ready => Ok(spec_read(s.challenge_url, s.nonce, s.account_url)),
        Phase::Finalize => match spec_choose_csr(
            s.order_csr,
            s.cert_private,
            s.cert_public,
            s.domain,
        ) {
            Some(csr) => Ok(
                ExchangeView {
                    url: s.finalize_url,
                    nonce: s.nonce,
                    key: KeyRefView::Kid(s.account_url),
                    payload: PayloadView::Finalize { csr: csr },
                    accept_chain: true,
                },
            ),
            None => Err(Error::FromRsaError),
        },
        Phase::PollOrder => match s.order_url {
            Some(url) => Ok(spec_read(url, s.nonce, s.account_url)),
            None => Err(Error::IncorrectResponse),
        },
        _ => match s.certificate_url {
            Some(url) => Ok(spec_read(url, s.nonce, s.account_url)),
            None => Err(Error::OrderNotReady),
        },
    }
}

/// The session fails with `e`: at once where no responder runs, after the
/// responder was stopped where one does.
pub open spec fn spec_fail(s: SessionView, e: Error) -> (SessionView, ActionView) {
    if s.responder_running {
        (SessionView { phase: Phase::Abort, failure: Some(e), ..s }, ActionView::StopResponder)
    } else {
        (SessionView { phase: Phase::Failed, failure: Some(e), ..s }, ActionView::Fail(e))
    }
}

/// The session sends the signed exchange of its phase, or fails where there
/// is none.
pub open spec fn spec_send(s: SessionView) -> (SessionView, ActionView) {
    match spec_exchange(s) {
        Ok(x) => (s, ActionView::Send(x)),
        Err(e) => spec_fail(s, e),
    }
}

/// A signed exchange failed with `e`. Where the certificate authority
/// refused the nonce and the session may still try again, a fresh nonce is
/// fetched and the phase kept to go back to; otherwise the session fails.
pub open spec fn spec_refused(s: SessionView, bad_nonce: bool, e: Error) -> (
    SessionView,
    ActionView,
) {
    if bad_nonce && s.nonce_retries < s.nonce_retry_limit {
        (
            SessionView {
                phase: Phase::Renonce,
                resume: s.phase,
                nonce_retries: (s.nonce_retries + 1) as u32,
                ..s
            },
            ActionView::Fetch { method: Method::Head, url: s.new_nonce_url },
        )
    } else {
        spec_fail(s, e)
    }
}

/// After the directory was read: ask for the first nonce.
pub open spec fn spec_listing(s: SessionView, reply: Reply<Directory>) -> (
    SessionView,
    ActionView,
) {
    match reply.body_failure() {
        Some(e) => spec_fail(s, e),
        None => (
            SessionView {
                phase: Phase::FirstNonce,
                new_nonce_url: reply.content().new_nonce@,
                new_account_url: reply.content().new_account@,
                new_order_url: reply.content().new_order@,
                ..s
            },
            ActionView::Fetch { method: Method::Head, url: reply.content().new_nonce@ },
        ),
    }
}

/// After a nonce came: go on with the phase `then`.
pub open spec fn spec_nonce(s: SessionView, reply: Reply<()>, then: Phase) -> (
    SessionView,
    ActionView,
) {
    match reply.nonce_failure() {
        Some(e) => spec_fail(s, e),
        None => spec_send(SessionView { phase: then, nonce: reply.nonce_text(), ..s }),
    }
}

/// After the account was created: order the certificate, in the name of the
/// account that `Directory::create_account` yields.
pub open spec fn spec_account(s: SessionView, reply: Reply<Account>) -> (SessionView, ActionView) {
    match spec_create_account(reply) {
        Err(e) => spec_refused(s, reply.is_bad_nonce(), e),
        Ok(account) => spec_send(
            SessionView {
                phase: Phase::Order,
                nonce: account.nonce@,
                account_url: account.account_location@,
                ..s
            },
        ),
    }
}

/// After the order was created: read the first authorization of the order
/// that `Account::create_new_order` yields, which takes along the
/// certificate signing request that the caller brought.
pub open spec fn spec_order(s: SessionView, reply: Reply<Order>) -> (SessionView, ActionView) {
    match spec_create_new_order(reply, None) {
        Err(e) => spec_refused(s, reply.is_bad_nonce(), e),
        Ok(order) => spec_send(
            SessionView {
                phase: Phase::Authorization,
                nonce: order.nonce@,
                authorization_url: if order.authorizations@.len() > 0 {
                    Some(order.authorizations@[0]@)
                } else {
                    None
                },
                finalize_url: order.finalize@,
                order_url: text_view(order.location),
                order_csr: s.optional_csr,
                ..s
            },
        ),
    }
}

/// After the authorization was read: pick the first challenge over HTTP of
/// the authorization that `Order::fetch_auth_challenges` yields, then have
/// its answer served, by the responder of the session or by other means.
pub open spec fn spec_authorization(s: SessionView, reply: Reply<ChallengeAuthorisation>) -> (
    SessionView,
    ActionView,
) {
    match spec_fetch_auth_challenges(reply) {
        Err(e) => spec_refused(s, reply.is_bad_nonce(), e),
        Ok(authorization) => {
            let challenges = authorization.challenges@;
            let i = http_index(challenges, 0);
            let u = SessionView {
                nonce: authorization.nonce@,
                challenge_url: challenges[i].url@,
                challenge_token: challenges[i].token@,
                ..s
            };
            if s.standalone {
                (
                    SessionView { phase: Phase::Responder, ..u },
                    ActionView::StartResponder {
                        path: spec_challenge_path(u.challenge_token),
                        body: spec_key_authorization(u.challenge_token, u.thumbprint),
                    },
                )
            } else {
                (
                    SessionView { phase: Phase::Publishing, ..u },
                    ActionView::Publish {
                        path: spec_challenge_path(u.challenge_token),
                        body: spec_key_authorization(u.challenge_token, u.thumbprint),
                    },
                )
            }
        },
    }
}

/// After the certificate authority was told that the challenge is ready:
/// look at the authorization for the first time.
pub open spec fn spec_ready(s: SessionView, reply: Reply<Challenge>) -> (SessionView, ActionView) {
    match reply.failure() {
        Some(e) => spec_refused(s, reply.is_bad_nonce(), e),
        None => spec_send(
            SessionView { phase: Phase::PollAuthorization, nonce: reply.nonce_text(), polls: 1, ..s },
        ),
    }
}

/// After a look at the authorization: go on where it is valid (stopping the
/// responder first where one runs), pause where it is pending, fail otherwise.
pub open spec fn spec_poll_authorization(s: SessionView, reply: Reply<ChallengeAuthorisation>) -> (
    SessionView,
    ActionView,
) {
    match reply.failure() {
        Some(e) => spec_refused(s, reply.is_bad_nonce(), e),
        None => {
            let t = SessionView { nonce: reply.nonce_text(), ..s };
            match reply.content().status.spec_poll_authorization(
                s.polls as nat,
                s.poll_limit as nat,
            ) {
                Poll::Proceed => if s.responder_running {
                    (SessionView { phase: Phase::Teardown, ..t }, ActionView::StopResponder)
                } else {
                    spec_send(SessionView { phase: Phase::Finalize, ..t })
                },
                Poll::Again => (
                    SessionView { phase: Phase::AuthorizationWait, ..t },
                    ActionView::Wait { seconds: s.poll_interval },
                ),
                Poll::Fail(e) => spec_fail(t, e),
            }
        },
    }
}

/// After the order was finalized or looked at: with the finalized order that
/// `Order::finalize_order` yields, download the certificate where the order
/// is valid, pause where it is not settled, fail otherwise.
/// `polls` is the number of looks so far.
pub open spec fn spec_finalized(s: SessionView, reply: Reply<UpdatedOrder>, polls: u32) -> (
    SessionView,
    ActionView,
) {
    match spec_finalize_order(reply) {
        Err(e) => spec_refused(s, reply.is_bad_nonce(), e),
        Ok(order) => {
            let t = SessionView {
                nonce: order.nonce@,
                polls: polls,
                certificate_url: text_view(order.certificate),
                ..s
            };
            match order.status.spec_poll_order(polls as nat, s.poll_limit as nat) {
                Poll::Proceed => spec_send(SessionView { phase: Phase::Certificate, ..t }),
                Poll::Again => if s.order_url is Some {
                    (
                        SessionView { phase: Phase::OrderWait, ..t },
                        ActionView::Wait { seconds: s.poll_interval },
                    )
                } else {
                    spec_fail(t, Error::IncorrectResponse)
                },
                Poll::Fail(e) => spec_fail(t, e),
            }
        },
    }
}

/// After the certificate was downloaded: the session is done, with the
/// chain that `UpdatedOrder::download_certificate` yields.
pub open spec fn spec_certificate(s: SessionView, reply: Reply<Certificate>) -> (
    SessionView,
    ActionView,
) {
    match spec_download_certificate(reply) {
        Err(e) => spec_refused(s, reply.is_bad_nonce(), e),
        Ok(chain) => (
            SessionView { phase: Phase::Done, nonce: reply.nonce_text(), certificate: chain@, ..s },
            ActionView::Done(chain@),
        ),
    }
}

/// After a pause: look again, and count the look.
pub open spec fn spec_waited(s: SessionView, then: Phase) -> (SessionView, ActionView) {
    spec_send(SessionView { phase: then, polls: (s.polls + 1) as u32, ..s })
}

/// What a session that has not ended, and is not about to fail, does when
/// `event` happens.
pub open spec fn spec_dispatch(s: SessionView, event: Event) -> (SessionView, ActionView) {
    match event {
        Event::Unsigned(e) => spec_fail(s, e),
        Event::Begin => if s.phase == Phase::Start {
            (
                SessionView { phase: Phase::Listing, ..s },
                ActionView::Fetch { method: Method::Get, url: s.server_url },
            )
        } else {
            spec_fail(s, Error::IncorrectResponse)
        },
        Event::Listing(reply) => if s.phase == Phase::Listing {
            spec_listing(s, reply)
        } else {
            spec_fail(s, Error::IncorrectResponse)
        },
        Event::Nonce(reply) => if s.phase == Phase::FirstNonce {
            spec_nonce(s, reply, Phase::Account)
        } else if s.phase == Phase::Renonce {
            spec_nonce(s, reply, s.resume)
        } else {
            spec_fail(s, Error::IncorrectResponse)
        },
        Event::Account(reply) => if s.phase == Phase::Account {
            spec_account(s, reply)
        } else {
            spec_fail(s, Error::IncorrectResponse)
        },
        Event::Order(reply) => if s.phase == Phase::Order {
            spec_order(s, reply)
        } else {
            spec_fail(s, Error::IncorrectResponse)
        },
        Event::Authorization(reply) => if s.phase == Phase::Authorization {
            spec_authorization(s, reply)
        } else if s.phase == Phase::PollAuthorization {
            spec_poll_authorization(s, reply)
        } else {
            spec_fail(s, Error::IncorrectResponse)
        },
        Event::Challenge(reply) => if s.phase == Phase::Ready {
            spec_ready(s, reply)
        } else {
            spec_fail(s, Error::IncorrectResponse)
        },
        Event::Finalized(reply) => if s.phase == Phase::Finalize {
            spec_finalized(s, reply, 0)
        } else if s.phase == Phase::PollOrder {
            spec_finalized(s, reply, s.polls)
        } else {
            spec_fail(s, Error::IncorrectResponse)
        },
        Event::Certificate(reply) => if s.phase == Phase::Certificate {
            spec_certificate(s, reply)
        } else {
            spec_fail(s, Error::IncorrectResponse)
        },
        Event::ResponderStarted => if s.phase == Phase::Responder {
            spec_send(SessionView { phase: Phase::Ready, responder_running: true, ..s })
        } else {
            spec_fail(s, Error::IncorrectResponse)
        },
        Event::ResponderFailed => if s.phase == Phase::Responder {
            spec_fail(s, Error::NoWebServer)
        } else {
            spec_fail(s, Error::IncorrectResponse)
        },
        Event::Published => if s.phase == Phase::Publishing {
            spec_send(SessionView { phase: Phase::Ready, ..s })
        } else {
            spec_fail(s, Error::IncorrectResponse)
        },
        Event::ResponderStopped => if s.phase == Phase::Teardown {
            spec_send(SessionView { phase: Phase::Finalize, responder_running: false, ..s })
        } else {
            spec_fail(s, Error::IncorrectResponse)
        },
        Event::Waited => if s.phase == Phase::AuthorizationWait && s.polls < u32::MAX {
            spec_waited(s, Phase::PollAuthorization)
        } else if s.phase == Phase::OrderWait && s.polls < u32::MAX {
            spec_waited(s, Phase::PollOrder)
        } else {
            spec_fail(s, Error::IncorrectResponse)
        },
    }
}

/// What a session in state `s` does when `event` happens, and the state in
/// which that leaves it. An event that the phase does not wait for, and a
/// request that could not be signed, fail the session; a session that ended
/// repeats how it ended.
pub open spec fn next(s: SessionView, event: Event) -> (SessionView, ActionView) {
    match s.phase {
        Phase::Done => (s, ActionView::Done(s.certificate)),
        Phase::Failed => (
            s,
            ActionView::Fail(
                match s.failure {
                    Some(e) => e,
                    None => Error::IncorrectResponse,
                },
            ),
        ),
        Phase::Abort => match event {
            Event::ResponderStopped => (
                SessionView { phase: Phase::Failed, responder_running: false, ..s },
                ActionView::Fail(
                    match s.failure {
                        Some(e) => e,
                        None => Error::IncorrectResponse,
                    },
                ),
            ),
            _ => (s, ActionView::StopResponder),
        },
        _ => spec_dispatch(s, event),
    }
}

/// Looks at an authorization, and at an order, that a session allows itself
/// where nothing else is asked for.
pub const POLL_LIMIT: u32 = 10;

/// Seconds between two looks, where nothing else is asked for.
pub const POLL_INTERVAL: u32 = 2;

/// Fresh nonces that a session fetches after refusals, where nothing else is
/// asked for.
pub const NONCE_RETRY_LIMIT: u32 = 3;

impl Config {
    /// The task with the usual patience.
    pub fn new(
        server_url: String,
        email: String,
        domain: String,
        thumbprint: String,
        optional_csr: Option<Vec<u8>>,
        cert_keypair: KeyPair,
        standalone: bool,
    ) -> (r: Config)
        ensures
            r == (Config {
                server_url,
                email,
                domain,
                thumbprint,
                optional_csr,
                cert_keypair,
                standalone,
                poll_limit: POLL_LIMIT,
                poll_interval: POLL_INTERVAL,
                nonce_retry_limit: NONCE_RETRY_LIMIT,
            }),
    {
        Config {
            server_url,
            email,
            domain,
            thumbprint,
            optional_csr,
            cert_keypair,
            standalone,
            poll_limit: POLL_LIMIT,
            poll_interval: POLL_INTERVAL,
            nonce_retry_limit: NONCE_RETRY_LIMIT,
        }
    }
}

impl Session {
    /// A session that has not begun, for the given task.
    pub fn new(config: Config) -> (r: Session)
        ensures
            r@ == spec_initial(config),
            r.config == config,
            inv(r@),
    {
        Session {
            config,
            phase: Phase::Start,
            resume: Phase::Start,
            nonce: String::new(),
            directory: Directory::blank(),
            account: Account::blank(),
            order: Order::blank(),
            challenge: Challenge::blank(),
            updated: UpdatedOrder::blank(),
            polls: 0,
            nonce_retries: 0,
            responder_running: false,
            failure: None,
            certificate: String::new(),
        }
    }

    /// The signed exchange of the phase in which the session stands, built
    /// by the builder of the resource at hand with the session's nonce.
    pub fn exchange(&self) -> (r: Result<Exchange, Error>)
        ensures
            match spec_exchange(self@) {
                Ok(v) => r matches Ok(x) && x@ == v,
                Err(e) => r matches Err(x) && x == e,
            },
    {
        let nonce = self.nonce.as_str();
        let account_url = self.account.account_location.as_str();
        match self.phase {
            Phase::Account => Ok(
                self.directory.create_account_request(nonce, self.config.email.as_str()),
            ),
            Phase::Order => Ok(
                self.account.create_new_order_request(
                    nonce,
                    self.directory.new_order.as_str(),
                    self.config.domain.as_str(),
                ),
            ),
            Phase::Authorization | Phase::PollAuthorization => {
                self.order.fetch_auth_challenges_request(nonce, account_url)
            },
            Phase::Ready => Ok(self.challenge.ready_request(account_url, nonce)),
            Phase::Finalize => self.order.finalize_order_request(
                account_url,
                self.nonce.clone(),
                &self.config.cert_keypair,
                self.config.domain.as_str(),
            ),
            Phase::PollOrder => self.order.poll_request(nonce, account_url),
            _ => self.updated.download_certificate_request(nonce, account_url),
        }
    }

    fn fail(&mut self, e: Error) -> (act: Action)
        ensures
            (final(self)@, act@) == spec_fail(old(self)@, e),
    {
        self.failure = Some(e);
        if self.responder_running {
            self.phase = Phase::Abort;
            Action::StopResponder
        } else {
            self.phase = Phase::Failed;
            Action::Fail(e)
        }
    }

    fn send(&mut self) -> (act: Action)
        ensures
            (final(self)@, act@) == spec_send(old(self)@),
    {
        match self.exchange() {
            Ok(x) => Action::Send(x),
            Err(e) => self.fail(e),
        }
    }

    fn refused(&mut self, bad_nonce: bool, e: Error) -> (act: Action)
        ensures
            (final(self)@, act@) == spec_refused(old(self)@, bad_nonce, e),
    {
        if bad_nonce && self.nonce_retries < self.config.nonce_retry_limit {
            self.resume = self.phase;
            self.phase = Phase::Renonce;
            self.nonce_retries = self.nonce_retries + 1;
            Action::Fetch { method: Method::Head, url: self.directory.new_nonce.clone() }
        } else {
            self.fail(e)
        }
    }

    fn on_listing(&mut self, reply: Reply<Directory>) -> (act: Action)
        ensures
            (final(self)@, act@) == spec_listing(old(self)@, reply),
    {
        match reply.into_body() {
            Ok(listing) => {
                let url = listing.new_nonce.clone();
                self.phase = Phase::FirstNonce;
                self.directory = listing;
                Action::Fetch { method: Method::Head, url }
            },
            Err(e) => self.fail(e),
        }
    }

    fn on_nonce(&mut self, reply: Reply<()>, then: Phase) -> (act: Action)
        ensures
            (final(self)@, act@) == spec_nonce(old(self)@, reply, then),
    {
        match reply.into_nonce() {
            Ok(nonce) => {
                self.phase = then;
                self.nonce = nonce;
                self.send()
            },
            Err(e) => self.fail(e),
        }
    }

    fn on_account(&mut self, reply: Reply<Account>) -> (act: Action)
        ensures
            (final(self)@, act@) == spec_account(old(self)@, reply),
    {
        let bad_nonce = reply.reports_bad_nonce();
        match self.directory.create_account(reply) {
            Ok(account) => {
                self.phase = Phase::Order;
                self.nonce = account.nonce.clone();
                self.account = account;
                self.send()
            },
            Err(e) => self.refused(bad_nonce, e),
        }
    }

    fn on_order(&mut self, reply: Reply<Order>) -> (act: Action)
        ensures
            (final(self)@, act@) == spec_order(old(self)@, reply),
    {
        let bad_nonce = reply.reports_bad_nonce();
        let brought = match &self.config.optional_csr {
            Some(csr) => Some(slice_to_vec(csr.as_slice())),
            None => None,
        };
        match self.account.create_new_order(reply, brought) {
            Ok(order) => {
                self.phase = Phase::Authorization;
                self.nonce = order.nonce.clone();
                self.order = order;
                self.send()
            },
            Err(e) => self.refused(bad_nonce, e),
        }
    }

    fn on_authorization(&mut self, reply: Reply<ChallengeAuthorisation>) -> (act: Action)
        ensures
            (final(self)@, act@) == spec_authorization(old(self)@, reply),
    {
        let bad_nonce = reply.reports_bad_nonce();
        match self.order.fetch_auth_challenges(reply) {
            Ok(authorization) => {
                match authorization.http_challenge() {
                    Ok(challenge) => {
                        self.challenge = challenge.copy();
                        self.nonce = authorization.nonce;
                        let path = challenge_path(self.challenge.token.as_str());
                        let body = key_authorization(
                            self.challenge.token.as_str(),
                            self.config.thumbprint.as_str(),
                        );
                        if self.config.standalone {
                            self.phase = Phase::Responder;
                            Action::StartResponder { path, body }
                        } else {
                            self.phase = Phase::Publishing;
                            Action::Publish { path, body }
                        }
                    },
                    Err(e) => self.fail(e),
                }
            },
            Err(e) => self.refused(bad_nonce, e),
        }
    }

    fn on_ready(&mut self, reply: Reply<Challenge>) -> (act: Action)
        ensures
            (final(self)@, act@) == spec_ready(old(self)@, reply),
    {
        let bad_nonce = reply.reports_bad_nonce();
        match extract_payload_and_nonce(reply) {
            Ok(found) => {
                self.phase = Phase::PollAuthorization;
                self.nonce = found.0;
                self.polls = 1;
                self.send()
            },
            Err(e) => self.refused(bad_nonce, e),
        }
    }

    fn on_poll_authorization(&mut self, reply: Reply<ChallengeAuthorisation>) -> (act: Action)
        ensures
            (final(self)@, act@) == spec_poll_authorization(old(self)@, reply),
    {
        let bad_nonce = reply.reports_bad_nonce();
        match extract_payload_and_nonce(reply) {
            Ok(found) => {
                self.nonce = found.0;
                match found.1.status.poll_authorization(self.polls, self.config.poll_limit) {
                    Poll::Proceed => {
                        if self.responder_running {
                            self.phase = Phase::Teardown;
                            Action::StopResponder
                        } else {
                            self.phase = Phase::Finalize;
                            self.send()
                        }
                    },
                    Poll::Again => {
                        self.phase = Phase::AuthorizationWait;
                        Action::Wait { seconds: self.config.poll_interval }
                    },
                    Poll::Fail(e) => self.fail(e),
                }
            },
            Err(e) => self.refused(bad_nonce, e),
        }
    }

    fn on_finalized(&mut self, reply: Reply<UpdatedOrder>, polls: u32) -> (act: Action)
        ensures
            (final(self)@, act@) == spec_finalized(old(self)@, reply, polls),
    {
        let bad_nonce = reply.reports_bad_nonce();
        match Order::finalize_order(reply) {
            Ok(updated) => {
                let decision = updated.status.poll_order(polls, self.config.poll_limit);
                self.nonce = updated.nonce.clone();
                self.polls = polls;
                self.updated = updated;
                match decision {
                    Poll::Proceed => {
                        self.phase = Phase::Certificate;
                        self.send()
                    },
                    Poll::Again => {
                        if self.order.location.is_some() {
                            self.phase = Phase::OrderWait;
                            Action::Wait { seconds: self.config.poll_interval }
                        } else {
                            self.fail(Error::IncorrectResponse)
                        }
                    },
                    Poll::Fail(e) => self.fail(e),
                }
            },
            Err(e) => self.refused(bad_nonce, e),
        }
    }

    fn on_certificate(&mut self, reply: Reply<Certificate>) -> (act: Action)
        ensures
            (final(self)@, act@) == spec_certificate(old(self)@, reply),
    {
        let bad_nonce = reply.reports_bad_nonce();
        let nonce = match &reply {
            Reply::Success { replay_nonce: Header::Text(n), .. } => n.clone(),
            _ => String::new(),
        };
        match self.updated.download_certificate(reply) {
            Ok(chain) => {
                self.phase = Phase::Done;
                self.nonce = nonce;
                self.certificate = chain.clone();
                Action::Done(chain)
            },
            Err(e) => self.refused(bad_nonce, e),
        }
    }

    fn on_waited(&mut self, then: Phase) -> (act: Action)
        requires
            old(self).polls < u32::MAX,
        ensures
            (final(self)@, act@) == spec_waited(old(self)@, then),
    {
        self.phase = then;
        self.polls = self.polls + 1;
        self.send()
    }

    fn ended(&self) -> (e: Error)
        ensures
            e == match self.failure {
                Some(e) => e,
                None => Error::IncorrectResponse,
            },
    {
        match self.failure {
            Some(e) => e,
            None => Error::IncorrectResponse,
        }
    }

    fn when_begin(&mut self) -> (act: Action)
        ensures
            (final(self)@, act@) == if old(self).phase == Phase::Start {
                (
                    SessionView { phase: Phase::Listing, ..old(self)@ },
                    ActionView::Fetch { method: Method::Get, url: old(self)@.server_url },
                )
            } else {
                spec_fail(old(self)@, Error::IncorrectResponse)
            },
    {
        if self.phase == Phase::Start {
            self.phase = Phase::Listing;
            Action::Fetch { method: Method::Get, url: self.config.server_url.clone() }
        } else {
            self.fail(Error::IncorrectResponse)
        }
    }

    fn when_listing(&mut self, reply: Reply<Directory>) -> (act: Action)
        ensures
            (final(self)@, act@) == if old(self).phase == Phase::Listing {
                spec_listing(old(self)@, reply)
            } else {
                spec_fail(old(self)@, Error::IncorrectResponse)
            },
    {
        if self.phase == Phase::Listing {
            self.on_listing(reply)
        } else {
            self.fail(Error::IncorrectResponse)
        }
    }

    fn when_nonce(&mut self, reply: Reply<()>) -> (act: Action)
        ensures
            (final(self)@, act@) == if old(self).phase == Phase::FirstNonce {
                spec_nonce(old(self)@, reply, Phase::Account)
            } else if old(self).phase == Phase::Renonce {
                spec_nonce(old(self)@, reply, old(self).resume)
            } else {
                spec_fail(old(self)@, Error::IncorrectResponse)
            },
    {
        if self.phase == Phase::FirstNonce {
            self.on_nonce(reply, Phase::Account)
        } else if self.phase == Phase::Renonce {
            let then = self.resume;
            self.on_nonce(reply, then)
        } else {
            self.fail(Error::IncorrectResponse)
        }
    }

    fn when_account(&mut self, reply: Reply<Account>) -> (act: Action)
        ensures
            (final(self)@, act@) == if old(self).phase == Phase::Account {
                spec_account(old(self)@, reply)
            } else {
                spec_fail(old(self)@, Error::IncorrectResponse)
            },
    {
        if self.phase == Phase::Account {
            self.on_account(reply)
        } else {
            self.fail(Error::IncorrectResponse)
        }
    }

    fn when_order(&mut self, reply: Reply<Order>) -> (act: Action)
        ensures
            (final(self)@, act@) == if old(self).phase == Phase::Order {
                spec_order(old(self)@, reply)
            } else {
                spec_fail(old(self)@, Error::IncorrectResponse)
            },
    {
        if self.phase == Phase::Order {
            self.on_order(reply)
        } else {
            self.fail(Error::IncorrectResponse)
        }
    }

    fn when_authorization(&mut self, reply: Reply<ChallengeAuthorisation>) -> (act: Action)
        ensures
            (final(self)@, act@) == if old(self).phase == Phase::Authorization {
                spec_authorization(old(self)@, reply)
            } else if old(self).phase == Phase::PollAuthorization {
                spec_poll_authorization(old(self)@, reply)
            } else {
                spec_fail(old(self)@, Error::IncorrectResponse)
            },
    {
        if self.phase == Phase::Authorization {
            self.on_authorization(reply)
        } else if self.phase == Phase::PollAuthorization {
            self.on_poll_authorization(reply)
        } else {
            self.fail(Error::IncorrectResponse)
        }
    }

    fn when_challenge(&mut self, reply: Reply<Challenge>) -> (act: Action)
        ensures
            (final(self)@, act@) == if old(self).phase == Phase::Ready {
                spec_ready(old(self)@, reply)
            } else {
                spec_fail(old(self)@, Error::IncorrectResponse)
            },
    {
        if self.phase == Phase::Ready {
            self.on_ready(reply)
        } else {
            self.fail(Error::IncorrectResponse)
        }
    }

    fn when_finalized(&mut self, reply: Reply<UpdatedOrder>) -> (act: Action)
        ensures
            (final(self)@, act@) == if old(self).phase == Phase::Finalize {
                spec_finalized(old(self)@, reply, 0)
            } else if old(self).phase == Phase::PollOrder {
                spec_finalized(old(self)@, reply, old(self).polls)
            } else {
                spec_fail(old(self)@, Error::IncorrectResponse)
            },
    {
        if self.phase == Phase::Finalize {
            self.on_finalized(reply, 0)
        } else if self.phase == Phase::PollOrder {
            let polls = self.polls;
            self.on_finalized(reply, polls)
        } else {
            self.fail(Error::IncorrectResponse)
        }
    }

    fn when_certificate(&mut self, reply: Reply<Certificate>) -> (act: Action)
        ensures
            (final(self)@, act@) == if old(self).phase == Phase::Certificate {
                spec_certificate(old(self)@, reply)
            } else {
                spec_fail(old(self)@, Error::IncorrectResponse)
            },
    {
        if self.phase == Phase::Certificate {
            self.on_certificate(reply)
        } else {
            self.fail(Error::IncorrectResponse)
        }
    }

    fn when_responder_started(&mut self) -> (act: Action)
        ensures
            (final(self)@, act@) == if old(self).phase == Phase::Responder {
                spec_send(
                    SessionView { phase: Phase::Ready, responder_running: true, ..old(self)@ },
                )
            } else {
                spec_fail(old(self)@, Error::IncorrectResponse)
            },
    {
        if self.phase == Phase::Responder {
            self.phase = Phase::Ready;
            self.responder_running = true;
            self.send()
        } else {
            self.fail(Error::IncorrectResponse)
        }
    }

    fn when_responder_failed(&mut self) -> (act: Action)
        ensures
            (final(self)@, act@) == if old(self).phase == Phase::Responder {
                spec_fail(old(self)@, Error::NoWebServer)
            } else {
                spec_fail(old(self)@, Error::IncorrectResponse)
            },
    {
        if self.phase == Phase::Responder {
            self.fail(Error::NoWebServer)
        } else {
            self.fail(Error::IncorrectResponse)
        }
    }

    fn when_published(&mut self) -> (act: Action)
        ensures
            (final(self)@, act@) == if old(self).phase == Phase::Publishing {
                spec_send(SessionView { phase: Phase::Ready, ..old(self)@ })
            } else {
                spec_fail(old(self)@, Error::IncorrectResponse)
            },
    {
        if self.phase == Phase::Publishing {
            self.phase = Phase::Ready;
            self.send()
        } else {
            self.fail(Error::IncorrectResponse)
        }
    }

    fn when_responder_stopped(&mut self) -> (act: Action)
        ensures
            (final(self)@, act@) == if old(self).phase == Phase::Teardown {
                spec_send(
                    SessionView { phase: Phase::Finalize, responder_running: false, ..old(self)@ },
                )
            } else {
                spec_fail(old(self)@, Error::IncorrectResponse)
            },
    {
        if self.phase == Phase::Teardown {
            self.phase = Phase::Finalize;
            self.responder_running = false;
            self.send()
        } else {
            self.fail(Error::IncorrectResponse)
        }
    }

    fn when_waited(&mut self) -> (act: Action)
        ensures
            (final(self)@, act@) == if old(self).phase == Phase::AuthorizationWait && old(self).polls < u32::MAX {
                spec_waited(old(self)@, Phase::PollAuthorization)
            } else if old(self).phase == Phase::OrderWait && old(self).polls < u32::MAX {
                spec_waited(old(self)@, Phase::PollOrder)
            } else {
                spec_fail(old(self)@, Error::IncorrectResponse)
            },
    {
        if self.phase == Phase::AuthorizationWait && self.polls < u32::MAX {
            self.on_waited(Phase::PollAuthorization)
        } else if self.phase == Phase::OrderWait && self.polls < u32::MAX {
            self.on_waited(Phase::PollOrder)
        } else {
            self.fail(Error::IncorrectResponse)
        }
    }

    fn dispatch(&mut self, event: Event) -> (act: Action)
        ensures
            (final(self)@, act@) == spec_dispatch(old(self)@, event),
    {
        match event {
            Event::Unsigned(e) => self.fail(e),
            Event::Begin => self.when_begin(),
            Event::Listing(reply) => self.when_listing(reply),
            Event::Nonce(reply) => self.when_nonce(reply),
            Event::Account(reply) => self.when_account(reply),
            Event::Order(reply) => self.when_order(reply),
            Event::Authorization(reply) => self.when_authorization(reply),
            Event::Challenge(reply) => self.when_challenge(reply),
            Event::Finalized(reply) => self.when_finalized(reply),
            Event::Certificate(reply) => self.when_certificate(reply),
            Event::ResponderStarted => self.when_responder_started(),
            Event::ResponderFailed => self.when_responder_failed(),
            Event::Published => self.when_published(),
            Event::ResponderStopped => self.when_responder_stopped(),
            Event::Waited => self.when_waited(),
        }
    }

    /// Takes in what happened and tells what to do next.
    pub fn step(&mut self, event: Event) -> (act: Action)
        ensures
            (final(self)@, act@) == next(old(self)@, event),
            inv(old(self)@) ==> inv(final(self)@),
    {
        proof {
            lemma_step(self@, event);
        }
        match self.phase {
            Phase::Done => Action::Done(self.certificate.clone()),
            Phase::Failed => Action::Fail(self.ended()),
            Phase::Abort => match event {
                Event::ResponderStopped => {
                    self.phase = Phase::Failed;
                    self.responder_running = false;
                    Action::Fail(self.ended())
                },
                _ => Action::StopResponder,
            },
            _ => self.dispatch(event),
        }
    }
}

impl Event {
    /// True when the event is a successful reply, to a request that spends or
    /// seeds a nonce, that has no replay-nonce header.
    pub open spec fn lacks_nonce(self) -> bool {
        match self {
            Event::Nonce(r) => r.lacks_nonce(),
            Event::Account(r) => r.lacks_nonce(),
            Event::Order(r) => r.lacks_nonce(),
            Event::Authorization(r) => r.lacks_nonce(),
            Event::Challenge(r) => r.lacks_nonce(),
            Event::Finalized(r) => r.lacks_nonce(),
            Event::Certificate(r) => r.lacks_nonce(),
            _ => false,
        }
    }

    /// The nonce that the event brings: the one of its reply, where the event
    /// is a successful reply, to a request that spends or seeds a nonce, that
    /// carries one.
    pub open spec fn nonce(self) -> Option<Seq<char>> {
        match self {
            Event::Nonce(r) => r.nonce_option(),
            Event::Account(r) => r.nonce_option(),
            Event::Order(r) => r.nonce_option(),
            Event::Authorization(r) => r.nonce_option(),
            Event::Challenge(r) => r.nonce_option(),
            Event::Finalized(r) => r.nonce_option(),
            Event::Certificate(r) => r.nonce_option(),
            _ => None,
        }
    }

    /// True when the event is the one that a session in `phase` waits for.
    pub open spec fn awaited_in(self, phase: Phase) -> bool {
        match self {
            Event::Begin => phase == Phase::Start,
            Event::Listing(_) => phase == Phase::Listing,
            Event::Nonce(_) => phase == Phase::FirstNonce || phase == Phase::Renonce,
            Event::Account(_) => phase == Phase::Account,
            Event::Order(_) => phase == Phase::Order,
            Event::Authorization(_) => phase == Phase::Authorization || phase
                == Phase::PollAuthorization,
            Event::Challenge(_) => phase == Phase::Ready,
            Event::Finalized(_) => phase == Phase::Finalize || phase == Phase::PollOrder,
            Event::Certificate(_) => phase == Phase::Certificate,
            Event::ResponderStarted | Event::ResponderFailed => phase == Phase::Responder,
            Event::Published => phase == Phase::Publishing,
            Event::ResponderStopped => phase == Phase::Teardown || phase == Phase::Abort,
            Event::Waited => phase == Phase::AuthorizationWait || phase == Phase::OrderWait,
            Event::Unsigned(_) => false,
        }
    }
}

/// What holds of every state that a session reaches: a responder runs only
/// while the challenge is being validated or the responder is being stopped,
/// a pause is made only while looks are left, and a session that failed or is
/// about to fail knows why.
pub open spec fn inv(s: SessionView) -> bool {
    &&& s.responder_running ==> s.phase == Phase::Ready || s.phase == Phase::PollAuthorization
        || s.phase == Phase::AuthorizationWait || s.phase == Phase::Teardown || s.phase
        == Phase::Abort || (s.phase == Phase::Renonce && (s.resume == Phase::Ready || s.resume
        == Phase::PollAuthorization))
    &&& s.phase == Phase::Renonce ==> s.resume.is_signed()
    &&& s.phase == Phase::AuthorizationWait || s.phase == Phase::OrderWait ==> s.polls
        < s.poll_limit
    &&& s.phase == Phase::PollAuthorization || s.phase == Phase::PollOrder || (s.phase
        == Phase::Renonce && (s.resume == Phase::PollAuthorization || s.resume
        == Phase::PollOrder)) ==> s.polls <= s.poll_limit || s.polls <= 1
    &&& s.phase == Phase::Failed || s.phase == Phase::Abort ==> s.failure is Some
    &&& s.nonce_retries <= s.nonce_retry_limit
}

/// Fresh nonces that a session may still fetch after refusals.
pub open spec fn retries_left(s: SessionView) -> nat {
    if s.nonce_retries <= s.nonce_retry_limit {
        (s.nonce_retry_limit - s.nonce_retries) as nat
    } else {
        0
    }
}

/// Looks that a session may still take at what it is polling.
pub open spec fn polls_left(s: SessionView) -> nat {
    if s.polls <= s.poll_limit {
        (s.poll_limit - s.polls) as nat
    } else {
        0
    }
}

/// How far a session is from its end, counted in steps that it can still
/// take without fetching a fresh nonce after a refusal.
pub open spec fn rank(s: SessionView) -> nat {
    let limit = s.poll_limit as nat;
    match s.phase {
        Phase::Done | Phase::Failed => 0,
        Phase::Abort => 1,
        Phase::Certificate => 2,
        Phase::OrderWait => 3 + 2 * polls_left(s),
        Phase::PollOrder => 4 + 2 * polls_left(s),
        Phase::Finalize => 5 + 2 * limit,
        Phase::Teardown => 6 + 2 * limit,
        Phase::AuthorizationWait => 7 + 2 * limit + 2 * polls_left(s),
        Phase::PollAuthorization => 8 + 2 * limit + 2 * polls_left(s),
        Phase::Ready => 9 + 4 * limit,
        Phase::Responder | Phase::Publishing => 10 + 4 * limit,
        Phase::Authorization => 11 + 4 * limit,
        Phase::Order => 12 + 4 * limit,
        Phase::Account => 13 + 4 * limit,
        Phase::FirstNonce => 14 + 4 * limit,
        Phase::Listing => 15 + 4 * limit,
        Phase::Start => 16 + 4 * limit,
        Phase::Renonce => 17 + 4 * limit,
    }
}

/// True when `t` is nearer to the end of the session than `s`: fewer fresh
/// nonces are left to fetch, or as many and the rank is lower.
pub open spec fn advances(s: SessionView, t: SessionView) -> bool {
    retries_left(t) < retries_left(s) || (retries_left(t) == retries_left(s) && rank(t) < rank(s))
}

/// True when two states are states of sessions with the same task.
pub open spec fn same_task(s: SessionView, t: SessionView) -> bool {
    &&& t.server_url == s.server_url
    &&& t.email == s.email
    &&& t.domain == s.domain
    &&& t.thumbprint == s.thumbprint
    &&& t.optional_csr == s.optional_csr
    &&& t.cert_private == s.cert_private
    &&& t.cert_public == s.cert_public
    &&& t.standalone == s.standalone
    &&& t.poll_limit == s.poll_limit
    &&& t.poll_interval == s.poll_interval
    &&& t.nonce_retry_limit == s.nonce_retry_limit
}

/// What the laws below say of one step from `s` to `t` with action `a`, on
/// an event that brings the nonce `nonce` or lacks one (`lacking`).
spec fn sound(
    s: SessionView,
    lacking: bool,
    nonce: Option<Seq<char>>,
    t: SessionView,
    a: ActionView,
) -> bool {
    &&& inv(s) ==> inv(t)
    &&& same_task(s, t)
    &&& a matches ActionView::Send(x) ==> spec_exchange(t) == Ok::<ExchangeView, Error>(x)
    &&& nonce matches Some(n) ==> a is Send ==> t.nonce == n
    &&& nonce is None ==> t.nonce == s.nonce
    &&& lacking ==> !a.is_request() && t.failure == Some(Error::BadNonce) && (t.phase
        == Phase::Failed || t.phase == Phase::Abort)
    &&& t.responder_running == s.responder_running
    &&& a is Done || a is Fail ==> t.phase.is_terminal()
    &&& a is Done || a is Fail ==> inv(s) ==> !t.responder_running
    &&& t.phase.is_terminal() ==> inv(s) ==> a is Done || a is Fail
    &&& inv(s) && !s.phase.is_terminal() && s.phase != Phase::Abort ==> advances(s, t)
}

proof fn lemma_fail(s: SessionView, e: Error)
    requires
        !s.phase.is_terminal(),
    ensures
        sound(s, false, None, spec_fail(s, e).0, spec_fail(s, e).1),
        spec_fail(s, e).0.failure == Some(e),
        spec_fail(s, e).0.phase == Phase::Failed || spec_fail(s, e).0.phase == Phase::Abort,
        !spec_fail(s, e).1.is_request(),
{
}

proof fn lemma_refused(s: SessionView, bad_nonce: bool, e: Error)
    requires
        s.phase.is_signed(),
    ensures
        sound(s, false, None, spec_refused(s, bad_nonce, e).0, spec_refused(s, bad_nonce, e).1),
        !bad_nonce ==> spec_refused(s, bad_nonce, e) == spec_fail(s, e),
{
}

proof fn lemma_listing(s: SessionView, r: Reply<Directory>)
    requires
        s.phase == Phase::Listing,
    ensures
        sound(s, false, None, spec_listing(s, r).0, spec_listing(s, r).1),
{
}

proof fn lemma_nonce(s: SessionView, r: Reply<()>, then: Phase)
    requires
        s.phase == Phase::FirstNonce && then == Phase::Account || s.phase == Phase::Renonce
            && then == s.resume,
    ensures
        sound(s, r.lacks_nonce(), r.nonce_option(), spec_nonce(s, r, then).0, spec_nonce(s, r, then).1),
{
}

proof fn lemma_account(s: SessionView, r: Reply<Account>)
    requires
        s.phase == Phase::Account,
    ensures
        sound(s, r.lacks_nonce(), r.nonce_option(), spec_account(s, r).0, spec_account(s, r).1),
{
}

proof fn lemma_order(s: SessionView, r: Reply<Order>)
    requires
        s.phase == Phase::Order,
    ensures
        sound(s, r.lacks_nonce(), r.nonce_option(), spec_order(s, r).0, spec_order(s, r).1),
{
}

proof fn lemma_authorization(s: SessionView, r: Reply<ChallengeAuthorisation>)
    requires
        s.phase == Phase::Authorization,
    ensures
        sound(
            s,
            r.lacks_nonce(),
            r.nonce_option(),
            spec_authorization(s, r).0,
            spec_authorization(s, r).1,
        ),
{
}

proof fn lemma_ready(s: SessionView, r: Reply<Challenge>)
    requires
        s.phase == Phase::Ready,
    ensures
        sound(s, r.lacks_nonce(), r.nonce_option(), spec_ready(s, r).0, spec_ready(s, r).1),
{
}

proof fn lemma_poll_authorization(s: SessionView, r: Reply<ChallengeAuthorisation>)
    requires
        s.phase == Phase::PollAuthorization,
    ensures
        sound(
            s,
            r.lacks_nonce(),
            r.nonce_option(),
            spec_poll_authorization(s, r).0,
            spec_poll_authorization(s, r).1,
        ),
{
}

proof fn lemma_finalized(s: SessionView, r: Reply<UpdatedOrder>, polls: u32)
    requires
        s.phase == Phase::Finalize && polls == 0 || s.phase == Phase::PollOrder && polls
            == s.polls,
    ensures
        sound(
            s,
            r.lacks_nonce(),
            r.nonce_option(),
            spec_finalized(s, r, polls).0,
            spec_finalized(s, r, polls).1,
        ),
{
}

proof fn lemma_certificate(s: SessionView, r: Reply<Certificate>)
    requires
        s.phase == Phase::Certificate,
    ensures
        sound(
            s,
            r.lacks_nonce(),
            r.nonce_option(),
            spec_certificate(s, r).0,
            spec_certificate(s, r).1,
        ),
{
}

proof fn lemma_waited(s: SessionView, then: Phase)
    requires
        s.polls < u32::MAX,
        s.phase == Phase::AuthorizationWait && then == Phase::PollAuthorization || s.phase
            == Phase::OrderWait && then == Phase::PollOrder,
    ensures
        sound(s, false, None, spec_waited(s, then).0, spec_waited(s, then).1),
{
}

proof fn lemma_step(s: SessionView, event: Event)
    ensures
        inv(s) ==> inv(next(s, event).0),
        same_task(s, next(s, event).0),
        next(s, event).1 matches ActionView::Send(x) ==> spec_exchange(next(s, event).0)
            == Ok::<ExchangeView, Error>(x),
        event.nonce() matches Some(n) ==> next(s, event).1 is Send ==> next(s, event).0.nonce == n,
        event.nonce() is None ==> next(s, event).0.nonce == s.nonce,
        event.lacks_nonce() ==> !next(s, event).1.is_request(),
        event.lacks_nonce() && event.awaited_in(s.phase) ==> next(s, event).0.failure == Some(
            Error::BadNonce,
        ) && (next(s, event).0.phase == Phase::Failed || next(s, event).0.phase == Phase::Abort),
        s.responder_running && !next(s, event).0.responder_running ==> event is ResponderStopped,
        !s.responder_running && next(s, event).0.responder_running ==> event is ResponderStarted,
        next(s, event).1 is Done || next(s, event).1 is Fail ==> next(s, event).0.phase.is_terminal(),
        inv(s) ==> next(s, event).1 is Done || next(s, event).1 is Fail ==> !next(
            s,
            event,
        ).0.responder_running,
        inv(s) ==> next(s, event).0.phase.is_terminal() ==> next(s, event).1 is Done || next(
            s,
            event,
        ).1 is Fail,
        s.phase.is_terminal() ==> next(s, event).0 == s && !next(s, event).1.is_request(),
        inv(s) && !s.phase.is_terminal() && (s.phase == Phase::Abort ==> event is ResponderStopped)
            ==> advances(s, next(s, event).0),
{
    if s.phase.is_terminal() || s.phase == Phase::Abort {
    } else {
        lemma_fail(s, Error::IncorrectResponse);
        match event {
            Event::Unsigned(e) => {
                lemma_fail(s, e);
            },
            Event::Begin => {},
            Event::Listing(r) => {
                if s.phase == Phase::Listing {
                    lemma_listing(s, r);
                }
            },
            Event::Nonce(r) => {
                if s.phase == Phase::FirstNonce {
                    lemma_nonce(s, r, Phase::Account);
                } else if s.phase == Phase::Renonce {
                    lemma_nonce(s, r, s.resume);
                }
            },
            Event::Account(r) => {
                if s.phase == Phase::Account {
                    lemma_account(s, r);
                }
            },
            Event::Order(r) => {
                if s.phase == Phase::Order {
                    lemma_order(s, r);
                }
            },
            Event::Authorization(r) => {
                if s.phase == Phase::Authorization {
                    lemma_authorization(s, r);
                } else if s.phase == Phase::PollAuthorization {
                    lemma_poll_authorization(s, r);
                }
            },
            Event::Challenge(r) => {
                if s.phase == Phase::Ready {
                    lemma_ready(s, r);
                }
            },
            Event::Finalized(r) => {
                if s.phase == Phase::Finalize {
                    lemma_finalized(s, r, 0);
                } else if s.phase == Phase::PollOrder {
                    lemma_finalized(s, r, s.polls);
                }
            },
            Event::Certificate(r) => {
                if s.phase == Phase::Certificate {
                    lemma_certificate(s, r);
                }
            },
            Event::ResponderStarted => {},
            Event::ResponderFailed => {
                lemma_fail(s, Error::NoWebServer);
            },
            Event::Published => {},
            Event::ResponderStopped => {},
            Event::Waited => {
                if s.phase == Phase::AuthorizationWait && s.polls < u32::MAX {
                    lemma_waited(s, Phase::PollAuthorization);
                } else if s.phase == Phase::OrderWait && s.polls < u32::MAX {
                    lemma_waited(s, Phase::PollOrder);
                }
            },
        }
    }
}

/// A session starts in a state of which `inv` holds.
pub proof fn law_initial_inv(config: Config)
    ensures
        inv(spec_initial(config)),
{
}

/// `inv` holds after every step from a state of which it holds, and the
/// task of the session does not change.
pub proof fn law_inv_preserved(s: SessionView, event: Event)
    requires
        inv(s),
    ensures
        inv(next(s, event).0),
        same_task(s, next(s, event).0),
{
    lemma_step(s, event);
}

/// Every signed request is the exchange of the state that the step leaves,
/// and spends the nonce that this state holds.
pub proof fn law_request_spends_session_nonce(s: SessionView, event: Event)
    ensures
        next(s, event).1 matches ActionView::Send(x) ==> spec_exchange(next(s, event).0)
            == Ok::<ExchangeView, Error>(x) && x.nonce == next(s, event).0.nonce,
{
    lemma_step(s, event);
}

/// The session sends what the builders of the resources build. In each
/// phase the exchange of the session, or the failure for which there is
/// none, is what the builder for that step gives for the resource that the
/// session holds, with the session's nonce.
pub proof fn law_session_sends_what_the_builders_build(s: Session)
    ensures
        s.phase == Phase::Account ==> spec_exchange(s@) == Ok::<ExchangeView, Error>(
            s.directory.spec_create_account_request(s.nonce@, s.config.email@),
        ),
        s.phase == Phase::Order ==> spec_exchange(s@) == Ok::<ExchangeView, Error>(
            s.account.spec_create_new_order_request(
                s.nonce@,
                s.directory.new_order@,
                s.config.domain@,
            ),
        ),
        s.phase == Phase::Authorization || s.phase == Phase::PollAuthorization ==> spec_exchange(
            s@,
        ) == s.order.spec_fetch_auth_challenges_request(s.nonce@, s.account.account_location@),
        s.phase == Phase::Ready ==> spec_exchange(s@) == Ok::<ExchangeView, Error>(
            s.challenge.spec_ready_request(s.account.account_location@, s.nonce@),
        ),
        s.phase == Phase::Finalize ==> spec_exchange(s@) == match s.order.spec_csr(
            s.config.cert_keypair,
            s.config.domain@,
        ) {
            Some(csr) => Ok::<ExchangeView, Error>(
                s.order.spec_finalize_request(s.account.account_location@, s.nonce@, csr),
            ),
            None => Err::<ExchangeView, Error>(Error::FromRsaError),
        },
        s.phase == Phase::PollOrder ==> spec_exchange(s@) == s.order.spec_poll_request(
            s.nonce@,
            s.account.account_location@,
        ),
        s.phase == Phase::Certificate ==> spec_exchange(s@) == s.updated.spec_download_request(
            s.nonce@,
            s.account.account_location@,
        ),
{
}

/// The session takes from the replies what the handlers of the resources
/// take. The first nonce is the one of the directory that
/// `Directory::fetch_dir` yields; the account, the order, the authorization,
/// the finalized order and the certificate are those that the handlers
/// yield, and a failure of a handler is the failure of the session, but for
/// the one retry after a refused nonce.
pub proof fn law_session_follows_the_handlers(s: SessionView, listing: Directory, event: Event)
    requires
        !s.phase.is_terminal(),
        s.phase != Phase::Abort,
        event.awaited_in(s.phase),
    ensures
        s.phase == Phase::FirstNonce ==> (event matches Event::Nonce(head) ==> next(s, event)
            == match spec_fetch_dir(listing, head) {
            Ok(directory) => spec_send(
                SessionView { phase: Phase::Account, nonce: directory.nonce@, ..s },
            ),
            Err(e) => spec_fail(s, e),
        }),
        event matches Event::Account(reply) ==> (match spec_create_account(reply) {
            Ok(account) => next(s, event).0.nonce == account.nonce@ && next(s, event).0.account_url
                == account.account_location@ && next(s, event).1 is Send,
            Err(e) => next(s, event) == spec_refused(s, reply.is_bad_nonce(), e),
        }),
        event matches Event::Order(reply) ==> (match spec_create_new_order(reply, None) {
            Ok(order) => next(s, event).0.nonce == order.nonce@ && next(s, event).0.finalize_url
                == order.finalize@ && next(s, event).0.order_csr == s.optional_csr && (
            order.authorizations@.len() > 0 ==> next(s, event).0.authorization_url == Some(
                order.authorizations@[0]@,
            ) && next(s, event).1 is Send),
            Err(e) => next(s, event) == spec_refused(s, reply.is_bad_nonce(), e),
        }),
        s.phase == Phase::Authorization ==> (event matches Event::Authorization(reply) ==> (
        match spec_fetch_auth_challenges(reply) {
            Ok(authorization) => next(s, event).0.nonce == authorization.nonce@ && !next(
                s,
                event,
            ).0.phase.is_terminal(),
            Err(e) => next(s, event) == spec_refused(s, reply.is_bad_nonce(), e),
        })),
        event matches Event::Finalized(reply) ==> (match spec_finalize_order(reply) {
            Ok(order) => next(s, event).0.nonce == order.nonce@,
            Err(e) => next(s, event) == spec_refused(s, reply.is_bad_nonce(), e),
        }),
        event matches Event::Certificate(reply) ==> (match spec_download_certificate(reply) {
            Ok(chain) => next(s, event).1 == ActionView::Done(chain@),
            Err(e) => next(s, event) == spec_refused(s, reply.is_bad_nonce(), e),
        }),
{
}

/// The state after a step.
pub open spec fn after(s: SessionView, event: Event) -> SessionView {
    next(s, event).0
}

/// The course of an issuance in which nothing fails. A session without a
/// responder of its own, whose order names an authorization and has a URL,
/// whose authorization offers a challenge over HTTP and is valid at the first
/// look, and whose order is not settled when it is finalized and valid at the
/// first look, sends ten requests, in this order and no other: it reads the
/// directory, asks for a nonce, creates the account and the order, reads the
/// authorization, tells that the challenge is ready, looks at the
/// authorization, finalizes the order, looks at the order, and downloads the
/// certificate. Between them it hands out the answer to publish and pauses
/// once, and it ends with the chain that came.
pub proof fn law_issuance_takes_ten_requests(
    config: Config,
    listing: Reply<Directory>,
    first: Reply<()>,
    account: Reply<Account>,
    order: Reply<Order>,
    authorization: Reply<ChallengeAuthorisation>,
    challenge: Reply<Challenge>,
    look: Reply<ChallengeAuthorisation>,
    finalized: Reply<UpdatedOrder>,
    settled: Reply<UpdatedOrder>,
    certificate: Reply<Certificate>,
)
    requires
        !config.standalone,
        config.poll_limit >= 1,
        spec_choose_csr(
            bytes_view(config.optional_csr),
            config.cert_keypair.private_pem@,
            config.cert_keypair.public_pem@,
            config.domain@,
        ) is Some,
        listing.body_failure() is None,
        first.nonce_failure() is None,
        spec_create_account(account) is Ok,
        spec_create_new_order(order, None) is Ok,
        order.content().authorizations@.len() > 0,
        order.location_text() is Some,
        spec_fetch_auth_challenges(authorization) is Ok,
        challenge.failure() is None,
        look.failure() is None,
        look.content().status == StatusType::Valid,
        spec_finalize_order(finalized) is Ok,
        !finalized.content().status.spec_is_final(),
        spec_finalize_order(settled) is Ok,
        settled.content().status == StatusType::Valid,
        settled.content().certificate is Some,
        spec_download_certificate(certificate) is Ok,
    ensures
        ({
            let s0 = spec_initial(config);
            let s1 = after(s0, Event::Begin);
            let s2 = after(s1, Event::Listing(listing));
            let s3 = after(s2, Event::Nonce(first));
            let s4 = after(s3, Event::Account(account));
            let s5 = after(s4, Event::Order(order));
            let s6 = after(s5, Event::Authorization(authorization));
            let s7 = after(s6, Event::Published);
            let s8 = after(s7, Event::Challenge(challenge));
            let s9 = after(s8, Event::Authorization(look));
            let s10 = after(s9, Event::Finalized(finalized));
            let s11 = after(s10, Event::Waited);
            let s12 = after(s11, Event::Finalized(settled));
            let account_url = account.location_text().unwrap();
            &&& next(s0, Event::Begin).1.request() == Some((Method::Get, config.server_url@))
            &&& next(s1, Event::Listing(listing)).1.request() == Some(
                (Method::Head, listing.content().new_nonce@),
            )
            &&& next(s2, Event::Nonce(first)).1 == ActionView::Send(
                ExchangeView {
                    url: listing.content().new_account@,
                    nonce: first.nonce_text(),
                    key: KeyRefView::Embedded,
                    payload: PayloadView::NewAccount { email: config.email@ },
                    accept_chain: false,
                },
            )
            &&& next(s3, Event::Account(account)).1 == ActionView::Send(
                ExchangeView {
                    url: listing.content().new_order@,
                    nonce: account.nonce_text(),
                    key: KeyRefView::Kid(account_url),
                    payload: PayloadView::NewOrder { domain: config.domain@ },
                    accept_chain: false,
                },
            )
            &&& next(s4, Event::Order(order)).1 == ActionView::Send(
                spec_read(order.content().authorizations@[0]@, order.nonce_text(), account_url),
            )
            &&& next(s5, Event::Authorization(authorization)).1 is Publish
            &&& next(s6, Event::Published).1 == ActionView::Send(
                spec_read(s6.challenge_url, authorization.nonce_text(), account_url),
            )
            &&& s6.challenge_url == authorization.content().challenges@[http_index(
                authorization.content().challenges@,
                0,
            )].url@
            &&& next(s7, Event::Challenge(challenge)).1 == ActionView::Send(
                spec_read(
                    order.content().authorizations@[0]@,
                    challenge.nonce_text(),
                    account_url,
                ),
            )
            &&& next(s8, Event::Authorization(look)).1 == ActionView::Send(
                ExchangeView {
                    url: order.content().finalize@,
                    nonce: look.nonce_text(),
                    key: KeyRefView::Kid(account_url),
                    payload: PayloadView::Finalize {
                        csr: spec_choose_csr(
                            bytes_view(config.optional_csr),
                            config.cert_keypair.private_pem@,
                            config.cert_keypair.public_pem@,
                            config.domain@,
                        ).unwrap(),
                    },
                    accept_chain: true,
                },
            )
            &&& next(s9, Event::Finalized(finalized)).1 == (ActionView::Wait {
                seconds: config.poll_interval,
            })
            &&& next(s10, Event::Waited).1 == ActionView::Send(
                spec_read(order.location_text().unwrap(), finalized.nonce_text(), account_url),
            )
            &&& next(s11, Event::Finalized(settled)).1 == ActionView::Send(
                spec_read(
                    settled.content().certificate.unwrap()@,
                    settled.nonce_text(),
                    account_url,
                ),
            )
            &&& next(s12, Event::Certificate(certificate)).1 == ActionView::Done(
                certificate.content()@,
            )
            &&& after(s12, Event::Certificate(certificate)).phase == Phase::Done
        }),
{
    let s0 = spec_initial(config);
    let s1 = after(s0, Event::Begin);
    assert(s1.phase == Phase::Listing);
    let s2 = after(s1, Event::Listing(listing));
    assert(s2.phase == Phase::FirstNonce);
    let s3 = after(s2, Event::Nonce(first));
    assert(s3.phase == Phase::Account);
    let s4 = after(s3, Event::Account(account));
    assert(s4.phase == Phase::Order);
    let s5 = after(s4, Event::Order(order));
    assert(s5.phase == Phase::Authorization);
    let s6 = after(s5, Event::Authorization(authorization));
    assert(s6.phase == Phase::Publishing);
    let s7 = after(s6, Event::Published);
    assert(s7.phase == Phase::Ready);
    let s8 = after(s7, Event::Challenge(challenge));
    assert(s8.phase == Phase::PollAuthorization && s8.polls == 1 && !s8.responder_running);
    let s9 = after(s8, Event::Authorization(look));
    assert(s9.phase == Phase::Finalize);
    let s10 = after(s9, Event::Finalized(finalized));
    assert(s10.phase == Phase::OrderWait && s10.polls == 0);
    let s11 = after(s10, Event::Waited);
    assert(s11.phase == Phase::PollOrder && s11.polls == 1);
    let s12 = after(s11, Event::Finalized(settled));
    assert(s12.phase == Phase::Certificate);
}

/// Only the request that creates the account carries the public key; every
/// other signed request names the key by the account's URL. Only the request
/// that finalizes the order asks for a certificate chain.
pub proof fn law_key_reference(s: SessionView, event: Event)
    ensures
        next(s, event).1 matches ActionView::Send(x) ==> {
            &&& x.key is Embedded <==> next(s, event).0.phase == Phase::Account
            &&& x.key matches KeyRefView::Kid(url) ==> url == next(s, event).0.account_url
            &&& x.accept_chain <==> next(s, event).0.phase == Phase::Finalize
            &&& x.payload is Finalize <==> next(s, event).0.phase == Phase::Finalize
        },
{
    lemma_step(s, event);
}

/// Nonce propagation. A signed request that answers a reply spends the nonce
/// that this reply carried; and an event that carries no nonce leaves the
/// session's nonce as it was, so that the next signed request still spends
/// the nonce of the last reply that carried one.
pub proof fn law_nonce_propagation(s: SessionView, event: Event)
    ensures
        event.nonce() matches Some(n) ==> (next(s, event).1 matches ActionView::Send(x) ==> x.nonce
            == n),
        event.nonce() is None ==> next(s, event).0.nonce == s.nonce,
{
    lemma_step(s, event);
}

/// The one retry. Where the certificate authority refuses the nonce of a
/// signed request and the session may still try again, the session asks for
/// a fresh nonce; once it has one, it sends the request that was refused
/// once more, the same in everything but the nonce, and stands again in the
/// phase in which it stood.
pub proof fn law_retry_repeats_request(s: SessionView, refusal: Event, fresh: Reply<()>)
    requires
        s.phase.is_signed(),
        next(s, refusal).0.phase == Phase::Renonce,
        fresh.nonce_failure() is None,
        spec_exchange(s) is Ok,
    ensures
        next(s, refusal).1 == (ActionView::Fetch { method: Method::Head, url: s.new_nonce_url }),
        next(next(s, refusal).0, Event::Nonce(fresh)).1 == ActionView::Send(
            ExchangeView { nonce: fresh.nonce_text(), ..spec_exchange(s)->Ok_0 },
        ),
        next(next(s, refusal).0, Event::Nonce(fresh)).0.phase == s.phase,
        next(next(s, refusal).0, Event::Nonce(fresh)).0.nonce_retries == s.nonce_retries + 1,
{
}

/// A reply without a replay-nonce header is followed by no request; where
/// the session waited for this reply, it fails with a bad nonce.
pub proof fn law_missing_nonce(s: SessionView, event: Event)
    requires
        event.lacks_nonce(),
    ensures
        !next(s, event).1.is_request(),
        event.awaited_in(s.phase) ==> next(s, event).0.failure == Some(Error::BadNonce) && (next(
            s,
            event,
        ).0.phase == Phase::Failed || next(s, event).0.phase == Phase::Abort),
{
    lemma_step(s, event);
}

/// The responder starts and stops running only when the session is told
/// so, and a session never ends while its responder runs: whenever the
/// action is to end, with a certificate or a failure, the responder was
/// stopped before.
pub proof fn law_responder_stopped(s: SessionView, event: Event)
    requires
        inv(s),
    ensures
        s.responder_running && !next(s, event).0.responder_running ==> event is ResponderStopped,
        !s.responder_running && next(s, event).0.responder_running ==> event is ResponderStarted,
        next(s, event).1 is Done || next(s, event).1 is Fail <==> next(s, event).0.phase.is_terminal(),
        next(s, event).0.phase.is_terminal() ==> !next(s, event).0.responder_running,
{
    lemma_step(s, event);
}

/// Every step brings a session nearer to its end: it lowers the number of
/// fresh nonces that are left to fetch, or keeps that number and lowers the
/// rank. Both are natural numbers, so no session runs for ever, however the
/// certificate authority replies; in particular each resource is looked at
/// no more often than the limit allows. While a failed session waits for its
/// responder to stop, only the news that it stopped is such a step.
pub proof fn law_progress(s: SessionView, event: Event)
    requires
        inv(s),
        !s.phase.is_terminal(),
        s.phase == Phase::Abort ==> event is ResponderStopped,
    ensures
        advances(s, next(s, event).0),
{
    lemma_step(s, event);
}

/// A session that ended stays as it is and asks for no further request.
pub proof fn law_ended_is_final(s: SessionView, event: Event)
    requires
        s.phase.is_terminal(),
    ensures
        next(s, event).0 == s,
        !next(s, event).1.is_request(),
{
    lemma_step(s, event);
}

/// Polling is bounded and ends on the first state that is final. A look at
/// an authorization that finds it neither valid nor pending, and a look at
/// an order that finds it invalid, fails the session without a further
/// request; a pause is made only while the number of looks is under the limit.
pub proof fn law_polling(s: SessionView, event: Event)
    ensures
        s.phase == Phase::PollAuthorization ==> (event matches Event::Authorization(r) ==> r.failure()
            is None ==> {
            &&& r.content().status != StatusType::Valid && r.content().status
                != StatusType::Pending ==> !next(s, event).1.is_request() && next(
                s,
                event,
            ).0.failure == Some(Error::IncorrectResponse)
            &&& next(s, event).1 is Wait ==> r.content().status == StatusType::Pending && s.polls
                < s.poll_limit
            &&& r.content().status == StatusType::Pending && s.polls >= s.poll_limit ==> next(
                s,
                event,
            ).0.failure == Some(Error::Timeout)
        }),
        s.phase == Phase::PollOrder || s.phase == Phase::Finalize ==> (event matches Event::Finalized(
            r,
        ) ==> r.failure() is None ==> {
            &&& r.content().status == StatusType::Invalid ==> !next(s, event).1.is_request() && next(
                s,
                event,
            ).0.failure == Some(Error::BadCSR)
            &&& next(s, event).1 is Wait ==> r.content().status != StatusType::Valid && next(
                s,
                event,
            ).0.polls < s.poll_limit
        }),
{
}

} // verus!
