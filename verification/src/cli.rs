//! The rules that the arguments of the command line must meet.

use vstd::prelude::*;

verus! {

/// Where the key pair of the certificate comes from.
#[derive(Clone, Copy, Debug, PartialEq, Eq, Structural)]
pub enum KeySource {
    /// Both halves are read from the files that were named.
    Files,
    /// A fresh pair is generated.
    Generated,
}

/// Why a combination of arguments is refused.
#[derive(Clone, Copy, Debug, PartialEq, Eq, Structural)]
pub enum Usage {
    /// A certificate signing request was named without both halves of the
    /// key pair that signed it.
    RequestWithoutKeys,
    /// One half of the key pair was named without the other.
    HalfAKeyPair,
    /// The standalone responder was asked for while port 80 is taken.
    PortTaken,
}

/// What the arguments say about the key pair, given which of them are
/// there. A certificate signing request needs both key files; one key file
/// without the other is refused; without key files a pair is generated.
pub open spec fn spec_key_source(request: bool, private_key: bool, public_key: bool) -> Result<
    KeySource,
    Usage,
> {
    if request && !(private_key && public_key) {
        Err(Usage::RequestWithoutKeys)
    } else if private_key && public_key {
        Ok(KeySource::Files)
    } else if private_key || public_key {
        Err(Usage::HalfAKeyPair)
    } else {
        Ok(KeySource::Generated)
    }
}

/// Where the key pair comes from, or why the arguments are refused.
pub fn key_source(request: bool, private_key: bool, public_key: bool) -> (r: Result<
    KeySource,
    Usage,
>)
    ensures
        r == spec_key_source(request, private_key, public_key),
{
    if request && !(private_key && public_key) {
        Err(Usage::RequestWithoutKeys)
    } else if private_key && public_key {
        Ok(KeySource::Files)
    } else if private_key || public_key {
        Err(Usage::HalfAKeyPair)
    } else {
        Ok(KeySource::Generated)
    }
}

/// Whether the session may serve the challenge itself: refused where the
/// responder is asked for and port 80 is already taken.
pub fn standalone_allowed(standalone: bool, port_taken: bool) -> (r: Result<bool, Usage>)
    ensures
        standalone && port_taken ==> r == Err::<bool, Usage>(Usage::PortTaken),
        !(standalone && port_taken) ==> r == Ok::<bool, Usage>(standalone),
{
    if standalone && port_taken {
        Err(Usage::PortTaken)
    } else {
        Ok(standalone)
    }
}

/// A request for a certificate is never accepted with fewer than two key
/// files, and files are read only where both are named.
pub proof fn law_key_source(request: bool, private_key: bool, public_key: bool)
    ensures
        spec_key_source(request, private_key, public_key) == Ok::<KeySource, Usage>(
            KeySource::Files,
        ) <==> private_key && public_key,
        request && spec_key_source(request, private_key, public_key) is Ok ==> private_key
            && public_key,
{
}

} // verus!
