//! RSA keys in PEM form and the operations on them that OpenSSL performs.
//!
//! Nothing in this file is proved: each function states what is believed of
//! the OpenSSL calls in its body. What they compute is named, not described.

use vstd::prelude::*;
use vstd::string::StringSliceAdditionalSpecFns;
use openssl::error::ErrorStack;
use openssl::hash::MessageDigest;
use openssl::nid::Nid;
use openssl::pkey::PKey;
use openssl::rsa::Padding;
use openssl::rsa::Rsa;
use openssl::sign::Signer;
use openssl::x509::X509NameBuilder;
use openssl::x509::X509ReqBuilder;

verus! {

/// The error that OpenSSL reports.
#[verifier::external_type_specification]
#[verifier::external_body]
pub struct ExErrorStack(ErrorStack);

/// Longest input that OpenSSL's readers accept.
pub const MAX_INPUT: usize = 0x7fff_ffff;

/// Width in bits of the keys that `generate_pem` makes.
pub const KEY_WIDTH: u32 = 2048;

/// The RSASSA-PKCS1-v1_5 signature with SHA-256 that the RSA private key in
/// `private_pem` gives to `message`; `None` where OpenSSL reads no such key
/// from `private_pem` or refuses to sign with it.
pub uninterp spec fn rsa_sha256_signature(private_pem: Seq<u8>, message: Seq<u8>) -> Option<
    Seq<u8>,
>;

/// The modulus of the RSA key in `private_pem`, big-endian without leading
/// zeros; `None` where OpenSSL reads no such key from `private_pem`.
pub uninterp spec fn rsa_modulus(private_pem: Seq<u8>) -> Option<Seq<u8>>;

/// The public exponent of the RSA key in `private_pem`, big-endian without
/// leading zeros; `None` where OpenSSL reads no such key from `private_pem`.
pub uninterp spec fn rsa_public_exponent(private_pem: Seq<u8>) -> Option<Seq<u8>>;

/// The public half of the RSA key in `private_pem`, as a public key in PEM;
/// `None` where OpenSSL reads no such key from `private_pem`.
pub uninterp spec fn rsa_public_pem(private_pem: Seq<u8>) -> Option<Seq<u8>>;

/// Number of bits of a number that is written big-endian without leading zeros.
pub open spec fn bit_length(number: Seq<u8>) -> nat {
    if number.len() == 0 {
        0
    } else {
        let first = number[0];
        ((number.len() - 1) * 8 + if first >= 128 {
            8int
        } else if first >= 64 {
            7int
        } else if first >= 32 {
            6int
        } else if first >= 16 {
            5int
        } else if first >= 8 {
            4int
        } else if first >= 4 {
            3int
        } else if first >= 2 {
            2int
        } else if first >= 1 {
            1int
        } else {
            0int
        }) as nat
    }
}

/// Width of the RSA key in `private_pem`: the number of bits of its modulus.
pub open spec fn key_bits(private_pem: Seq<u8>) -> Option<nat> {
    match rsa_modulus(private_pem) {
        Some(n) => Some(bit_length(n)),
        None => None,
    }
}

/// The SHA-256 digest of `data`.
pub uninterp spec fn sha256_digest(data: Seq<u8>) -> Seq<u8>;

/// The DER encoding of the PKCS#10 request with subject `CN = common_name` for
/// the key in `public_pem`, signed with SHA-256 by the RSA key in
/// `private_pem`; `None` where OpenSSL reads no such keys, refuses the name
/// or refuses to sign.
pub uninterp spec fn csr_der(
    private_pem: Seq<u8>,
    public_pem: Seq<u8>,
    common_name: Seq<char>,
) -> Option<Seq<u8>>;

/// Reads the key with `Rsa::private_key_from_pem_passphrase` and an empty
/// passphrase, so that nobody is asked for one; wraps it with
/// `PKey::from_rsa` and signs with a `Signer` for SHA-256 set to PKCS#1
/// padding (`Signer::new`, `set_rsa_padding`, `update`, `sign_to_vec`).
/// Believed: whether a signature comes back, and which, depends on the key
/// and the message alone.
#[verifier::external_body]
pub(crate) fn rsa_sign(private_pem: &[u8], message: &[u8]) -> (r: Result<Vec<u8>, ErrorStack>)
    requires
        private_pem@.len() <= MAX_INPUT,
    ensures
        match r {
            Ok(signature) => rsa_sha256_signature(private_pem@, message@) == Some(signature@),
            Err(_) => rsa_sha256_signature(private_pem@, message@) is None,
        },
{
    let key = PKey::from_rsa(Rsa::private_key_from_pem_passphrase(private_pem, b"")?)?;
    let mut signer = Signer::new(MessageDigest::sha256(), &key)?;
    signer.set_rsa_padding(Padding::PKCS1)?;
    signer.update(message)?;
    signer.sign_to_vec()
}

/// Reads the key with `Rsa::private_key_from_pem_passphrase` and an empty
/// passphrase, and returns `n().to_vec()`. Believed: whether the key is
/// read, and the bytes, depend on `private_pem` alone.
#[verifier::external_body]
pub(crate) fn rsa_n(private_pem: &[u8]) -> (r: Result<Vec<u8>, ErrorStack>)
    requires
        private_pem@.len() <= MAX_INPUT,
    ensures
        match r {
            Ok(n) => rsa_modulus(private_pem@) == Some(n@),
            Err(_) => rsa_modulus(private_pem@) is None,
        },
{
    Ok(Rsa::private_key_from_pem_passphrase(private_pem, b"")?.n().to_vec())
}

/// Reads the key with `Rsa::private_key_from_pem_passphrase` and an empty
/// passphrase, and returns `e().to_vec()`. Believed: whether the key is
/// read, and the bytes, depend on `private_pem` alone.
#[verifier::external_body]
pub(crate) fn rsa_e(private_pem: &[u8]) -> (r: Result<Vec<u8>, ErrorStack>)
    requires
        private_pem@.len() <= MAX_INPUT,
    ensures
        match r {
            Ok(e) => rsa_public_exponent(private_pem@) == Some(e@),
            Err(_) => rsa_public_exponent(private_pem@) is None,
        },
{
    Ok(Rsa::private_key_from_pem_passphrase(private_pem, b"")?.e().to_vec())
}

/// Calls `openssl::sha::sha256`. Believed: the digest depends on the data
/// alone; it has 32 bytes, as the array that the call returns.
#[verifier::external_body]
pub(crate) fn sha256(data: &[u8]) -> (r: Vec<u8>)
    ensures
        r@ == sha256_digest(data@),
        r@.len() == 32,
{
    openssl::sha::sha256(data).to_vec()
}

/// Builds a certificate signing request with `X509ReqBuilder` (`set_pubkey`,
/// `set_subject_name`, `sign`, `build`) and a name from `X509NameBuilder`
/// (`append_entry_by_nid` with the common name, `build`), and returns
/// `to_der()`. The private key is read as in `rsa_sign`, the public key with
/// `PKey::public_key_from_pem_passphrase` and an empty passphrase, so that
/// nobody is asked for one. Believed: whether a request comes back, and its
/// bytes, depend on the two keys and the name alone.
/// `X509NameBuilder::build` encodes the name and reads it back, and would
/// panic if that failed; it is reached only with a name whose one entry
/// OpenSSL accepted.
#[verifier::external_body]
pub(crate) fn build_csr(private_pem: &[u8], public_pem: &[u8], common_name: &str) -> (r: Result<
    Vec<u8>,
    ErrorStack,
>)
    requires
        private_pem@.len() <= MAX_INPUT,
        public_pem@.len() <= MAX_INPUT,
        common_name.spec_bytes().len() <= MAX_INPUT,
    ensures
        match r {
            Ok(der) => csr_der(private_pem@, public_pem@, common_name@) == Some(der@),
            Err(_) => csr_der(private_pem@, public_pem@, common_name@) is None,
        },
{
    let mut request = X509ReqBuilder::new()?;
    let mut name = X509NameBuilder::new()?;
    let private = PKey::from_rsa(Rsa::private_key_from_pem_passphrase(private_pem, b"")?)?;
    let public = PKey::public_key_from_pem_passphrase(public_pem, b"")?;
    name.append_entry_by_nid(Nid::COMMONNAME, common_name)?;
    request.set_pubkey(&public)?;
    request.set_subject_name(&name.build())?;
    request.sign(&private, MessageDigest::sha256())?;
    request.build().to_der()
}

/// Makes a key with `Rsa::generate` and returns `private_key_to_pem()` of
/// it. The key is random. Believed of every key that comes back: it has the
/// size that was asked for, that is, its modulus has `bits` bits.
#[verifier::external_body]
pub(crate) fn generate_pem(bits: u32) -> (r: Result<Vec<u8>, ErrorStack>)
    ensures
        r matches Ok(pem) ==> key_bits(pem@) == Some(bits as nat),
{
    Rsa::generate(bits)?.private_key_to_pem()
}

/// Reads the key with `Rsa::private_key_from_pem_passphrase` and an empty
/// passphrase, and returns `public_key_to_pem()` of it. Believed: whether
/// the key is read and written, and the bytes, depend on `private_pem` alone.
#[verifier::external_body]
pub(crate) fn rsa_public(private_pem: &[u8]) -> (r: Result<Vec<u8>, ErrorStack>)
    requires
        private_pem@.len() <= MAX_INPUT,
    ensures
        match r {
            Ok(pem) => rsa_public_pem(private_pem@) == Some(pem@),
            Err(_) => rsa_public_pem(private_pem@) is None,
        },
{
    Rsa::private_key_from_pem_passphrase(private_pem, b"")?.public_key_to_pem()
}

} // verus!
