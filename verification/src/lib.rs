//! Client-side logic of an automated certificate issuance protocol (ACME,
//! RFC 8555): request signing, reply handling and the session that orders
//! the exchanges for one certificate.
//!
//! The library does no input or output. `flow` holds the session, which is
//! told what happened and answers what to do next; `acc` the resources of
//! the certificate authority and the exchanges about them; `http` the
//! exchanges and replies as plain values; `util` the signing layer; `codec`
//! the base64url encoding; `json` the documents that are signed; `crypto`
//! what is left to OpenSSL; `responder` the answers of the challenge
//! responder; `error` the failures; `cli` the rules on the arguments of the
//! command line; `text` helpers on texts.

pub mod acc;
pub mod cli;
pub mod codec;
pub mod crypto;
pub mod error;
pub mod flow;
pub mod http;
pub mod json;
pub mod responder;
pub mod text;
pub mod util;
