use vstd::prelude::*;

use crate::scheme::KeyFormat;
use ::rsa::RsaPrivateKey;
use ::rsa::pkcs1::DecodeRsaPrivateKey as _;
use ::rsa::pkcs8::DecodePrivateKey as _;
use ::signature::Signer as _;
use ::signature::RandomizedSigner as _;
use ::signature::SignatureEncoding as _;

verus! {

#[verifier::external_type_specification]
#[verifier::external_body]
pub struct ExRsaPrivateKey(rsa::RsaPrivateKey);

/// Whether the RSA constructor accepts these bytes as a PKCS#1 document.
pub uninterp spec fn rsa_pkcs1_accepts(der: Seq<u8>) -> bool;

/// Whether the RSA constructor accepts these bytes as a PKCS#8 document.
pub uninterp spec fn rsa_pkcs8_accepts(der: Seq<u8>) -> bool;

/// The RSASSA-PKCS1-v1_5 signature with SHA-256 over `msg` under the key
/// decoded from `(fmt, der)`; `None` when the primitive rejects the request.
pub uninterp spec fn rsa_pkcs1_sha256_sig(fmt: KeyFormat, der: Seq<u8>, msg: Seq<u8>) -> Option<
    Seq<u8>,
>;

/// The RSASSA-PKCS1-v1_5 signature with SHA-384 over `msg` under the key
/// decoded from `(fmt, der)`; `None` when the primitive rejects the request.
pub uninterp spec fn rsa_pkcs1_sha384_sig(fmt: KeyFormat, der: Seq<u8>, msg: Seq<u8>) -> Option<
    Seq<u8>,
>;

/// The RSASSA-PKCS1-v1_5 signature with SHA-512 over `msg` under the key
/// decoded from `(fmt, der)`; `None` when the primitive rejects the request.
pub uninterp spec fn rsa_pkcs1_sha512_sig(fmt: KeyFormat, der: Seq<u8>, msg: Seq<u8>) -> Option<
    Seq<u8>,
>;

/// The modulus byte length (rsa::traits::PublicKeyParts::size) of the key
/// decoded from `(fmt, der)`: every PSS signature under that key is padded to
/// exactly this many bytes.
pub uninterp spec fn rsa_sig_len(fmt: KeyFormat, der: Seq<u8>) -> nat;

/// An RSA private key, decoded once at construction and then shared
/// read-only. The ghost field records which encoding it was decoded from.
pub struct RsaSigningKey {
    inner: RsaPrivateKey,
    src: Ghost<(KeyFormat, Seq<u8>)>,
}

impl RsaSigningKey {
    /// The container format and bytes this key was decoded from.
    pub closed spec fn key_source(&self) -> (KeyFormat, Seq<u8>) {
        self.src@
    }
}

/// Relies on rsa::RsaPrivateKey::from_pkcs1_der (through
/// rsa::pkcs1::DecodeRsaPrivateKey): decoding a PKCS#1 DER document is a
/// deterministic function of the bytes, and the empty input, which holds no
/// DER document, is always rejected.
#[verifier::external_body]
fn decode_pkcs1(der: &[u8]) -> (r: Option<::rsa::RsaPrivateKey>)
    ensures
        r.is_some() == rsa_pkcs1_accepts(der@),
        der@.len() == 0 ==> r is None,
{
    RsaPrivateKey::from_pkcs1_der(der).ok()
}

/// Relies on rsa::RsaPrivateKey::from_pkcs8_der (through
/// rsa::pkcs8::DecodePrivateKey): decoding a PKCS#8 DER document is a
/// deterministic function of the bytes, and the empty input, which holds no
/// DER document, is always rejected.
#[verifier::external_body]
fn decode_pkcs8(der: &[u8]) -> (r: Option<::rsa::RsaPrivateKey>)
    ensures
        r.is_some() == rsa_pkcs8_accepts(der@),
        der@.len() == 0 ==> r is None,
{
    RsaPrivateKey::from_pkcs8_der(der).ok()
}

/// Decode an RSA key from a PKCS#1 document, recording its source.
pub(crate) fn parse_pkcs1(der: &[u8]) -> (r: Option<RsaSigningKey>)
    ensures
        r.is_some() == rsa_pkcs1_accepts(der@),
        der@.len() == 0 ==> r is None,
        r matches Some(k) ==> k.key_source() == (KeyFormat::Pkcs1, der@),
{
    match decode_pkcs1(der) {
        Some(inner) => Some(RsaSigningKey { inner, src: Ghost((KeyFormat::Pkcs1, der@)) }),
        None => None,
    }
}

/// Decode an RSA key from a PKCS#8 document, recording its source.
pub(crate) fn parse_pkcs8(der: &[u8]) -> (r: Option<RsaSigningKey>)
    ensures
        r.is_some() == rsa_pkcs8_accepts(der@),
        der@.len() == 0 ==> r is None,
        r matches Some(k) ==> k.key_source() == (KeyFormat::Pkcs8, der@),
{
    match decode_pkcs8(der) {
        Some(inner) => Some(RsaSigningKey { inner, src: Ghost((KeyFormat::Pkcs8, der@)) }),
        None => None,
    }
}

/// Relies on rsa::pkcs1v15::SigningKey::<Sha256>::try_sign: RSASSA-PKCS1-v1_5
/// signing draws no randomness, so the signature, or the primitive's
/// rejection, is a function of the key and the message alone.
#[verifier::external_body]
pub(crate) fn sign_pkcs1_sha256(key: &RsaSigningKey, msg: &[u8]) -> (r: Option<Vec<u8>>)
    ensures
        crate::opt_sig_view(r) == rsa_pkcs1_sha256_sig(
            key.key_source().0,
            key.key_source().1,
            msg@,
        ),
{
    let sk = ::rsa::pkcs1v15::SigningKey::<sha2::Sha256>::new(key.inner.clone());
    match sk.try_sign(msg) {
        Ok(sig) => Some(sig.to_vec()),
        Err(_) => None,
    }
}

/// Relies on rsa::pkcs1v15::SigningKey::<Sha384>::try_sign: RSASSA-PKCS1-v1_5
/// signing draws no randomness, so the signature, or the primitive's
/// rejection, is a function of the key and the message alone.
#[verifier::external_body]
pub(crate) fn sign_pkcs1_sha384(key: &RsaSigningKey, msg: &[u8]) -> (r: Option<Vec<u8>>)
    ensures
        crate::opt_sig_view(r) == rsa_pkcs1_sha384_sig(
            key.key_source().0,
            key.key_source().1,
            msg@,
        ),
{
    let sk = ::rsa::pkcs1v15::SigningKey::<sha2::Sha384>::new(key.inner.clone());
    match sk.try_sign(msg) {
        Ok(sig) => Some(sig.to_vec()),
        Err(_) => None,
    }
}

/// Relies on rsa::pkcs1v15::SigningKey::<Sha512>::try_sign: RSASSA-PKCS1-v1_5
/// signing draws no randomness, so the signature, or the primitive's
/// rejection, is a function of the key and the message alone.
#[verifier::external_body]
pub(crate) fn sign_pkcs1_sha512(key: &RsaSigningKey, msg: &[u8]) -> (r: Option<Vec<u8>>)
    ensures
        crate::opt_sig_view(r) == rsa_pkcs1_sha512_sig(
            key.key_source().0,
            key.key_source().1,
            msg@,
        ),
{
    let sk = ::rsa::pkcs1v15::SigningKey::<sha2::Sha512>::new(key.inner.clone());
    match sk.try_sign(msg) {
        Ok(sig) => Some(sig.to_vec()),
        Err(_) => None,
    }
}

/// Relies on rsa::pss::BlindedSigningKey::<Sha256>::try_sign_with_rng with the
/// operating-system randomness source: every call draws fresh randomness, so
/// nothing is promised of the signature bytes beyond their length, to which
/// the primitive pads every signature (the key's modulus byte length).
#[verifier::external_body]
pub(crate) fn sign_pss_sha256(key: &RsaSigningKey, msg: &[u8]) -> (r: Option<Vec<u8>>)
    ensures
        r matches Some(s) ==> s@.len() == rsa_sig_len(key.key_source().0, key.key_source().1),
{
    let sk = ::rsa::pss::BlindedSigningKey::<sha2::Sha256>::new(key.inner.clone());
    match sk.try_sign_with_rng(&mut rand_core::OsRng, msg) {
        Ok(sig) => Some(sig.to_vec()),
        Err(_) => None,
    }
}

/// Relies on rsa::pss::BlindedSigningKey::<Sha384>::try_sign_with_rng with the
/// operating-system randomness source: every call draws fresh randomness, so
/// nothing is promised of the signature bytes beyond their length, to which
/// the primitive pads every signature (the key's modulus byte length).
#[verifier::external_body]
pub(crate) fn sign_pss_sha384(key: &RsaSigningKey, msg: &[u8]) -> (r: Option<Vec<u8>>)
    ensures
        r matches Some(s) ==> s@.len() == rsa_sig_len(key.key_source().0, key.key_source().1),
{
    let sk = ::rsa::pss::BlindedSigningKey::<sha2::Sha384>::new(key.inner.clone());
    match sk.try_sign_with_rng(&mut rand_core::OsRng, msg) {
        Ok(sig) => Some(sig.to_vec()),
        Err(_) => None,
    }
}

/// Relies on rsa::pss::BlindedSigningKey::<Sha512>::try_sign_with_rng with the
/// operating-system randomness source: every call draws fresh randomness, so
/// nothing is promised of the signature bytes beyond their length, to which
/// the primitive pads every signature (the key's modulus byte length).
#[verifier::external_body]
pub(crate) fn sign_pss_sha512(key: &RsaSigningKey, msg: &[u8]) -> (r: Option<Vec<u8>>)
    ensures
        r matches Some(s) ==> s@.len() == rsa_sig_len(key.key_source().0, key.key_source().1),
{
    let sk = ::rsa::pss::BlindedSigningKey::<sha2::Sha512>::new(key.inner.clone());
    match sk.try_sign_with_rng(&mut rand_core::OsRng, msg) {
        Ok(sig) => Some(sig.to_vec()),
        Err(_) => None,
    }
}

} // verus!
