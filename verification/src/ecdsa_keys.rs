use vstd::prelude::*;

use crate::scheme::KeyFormat;
use ::elliptic_curve::pkcs8::DecodePrivateKey as _;
use ::signature::RandomizedSigner as _;
use ::signature::SignatureEncoding as _;

verus! {

/// Whether the P-256 constructor accepts these bytes as a SEC1 document.
pub uninterp spec fn p256_sec1_accepts(der: Seq<u8>) -> bool;

/// Whether the P-256 constructor accepts these bytes as a PKCS#8 document.
pub uninterp spec fn p256_pkcs8_accepts(der: Seq<u8>) -> bool;

/// Whether the P-384 constructor accepts these bytes as a SEC1 document.
pub uninterp spec fn p384_sec1_accepts(der: Seq<u8>) -> bool;

/// Whether the P-384 constructor accepts these bytes as a PKCS#8 document.
pub uninterp spec fn p384_pkcs8_accepts(der: Seq<u8>) -> bool;

/// An ECDSA P-256 private key, decoded once at construction and then shared
/// read-only: the secret scalar as big-endian bytes. The ghost field records
/// which encoding the key was decoded from.
pub struct EcdsaSigningKeyP256 {
    scalar: Vec<u8>,
    src: Ghost<(KeyFormat, Seq<u8>)>,
}

impl EcdsaSigningKeyP256 {
    /// The container format and bytes this key was decoded from.
    pub closed spec fn key_source(&self) -> (KeyFormat, Seq<u8>) {
        self.src@
    }
}

/// An ECDSA P-384 private key, decoded once at construction and then shared
/// read-only: the secret scalar as big-endian bytes. The ghost field records
/// which encoding the key was decoded from.
pub struct EcdsaSigningKeyP384 {
    scalar: Vec<u8>,
    src: Ghost<(KeyFormat, Seq<u8>)>,
}

impl EcdsaSigningKeyP384 {
    /// The container format and bytes this key was decoded from.
    pub closed spec fn key_source(&self) -> (KeyFormat, Seq<u8>) {
        self.src@
    }
}

/// Relies on elliptic_curve::SecretKey::<NistP256>::from_sec1_der: decoding a
/// SEC1 DER document is a deterministic function of the bytes. The decoded
/// key is handed back as its secret scalar bytes (SecretKey::to_bytes).
#[verifier::external_body]
fn decode_p256_sec1(der: &[u8]) -> (r: Option<Vec<u8>>)
    ensures
        r.is_some() == p256_sec1_accepts(der@),
        der@.len() == 0 ==> r is None,
{
    p256::SecretKey::from_sec1_der(der).ok().map(|k| k.to_bytes().to_vec())
}

/// Relies on elliptic_curve::SecretKey::<NistP256>::from_pkcs8_der (through
/// pkcs8::DecodePrivateKey), which also checks the curve identifier: decoding
/// is a deterministic function of the bytes. The decoded key is handed back
/// as its secret scalar bytes (SecretKey::to_bytes).
#[verifier::external_body]
fn decode_p256_pkcs8(der: &[u8]) -> (r: Option<Vec<u8>>)
    ensures
        r.is_some() == p256_pkcs8_accepts(der@),
        der@.len() == 0 ==> r is None,
{
    p256::SecretKey::from_pkcs8_der(der).ok().map(|k| k.to_bytes().to_vec())
}

/// Relies on elliptic_curve::SecretKey::<NistP384>::from_sec1_der: decoding a
/// SEC1 DER document is a deterministic function of the bytes. The decoded
/// key is handed back as its secret scalar bytes (SecretKey::to_bytes).
#[verifier::external_body]
fn decode_p384_sec1(der: &[u8]) -> (r: Option<Vec<u8>>)
    ensures
        r.is_some() == p384_sec1_accepts(der@),
        der@.len() == 0 ==> r is None,
{
    p384::SecretKey::from_sec1_der(der).ok().map(|k| k.to_bytes().to_vec())
}

/// Relies on elliptic_curve::SecretKey::<NistP384>::from_pkcs8_der (through
/// pkcs8::DecodePrivateKey), which also checks the curve identifier: decoding
/// is a deterministic function of the bytes. The decoded key is handed back
/// as its secret scalar bytes (SecretKey::to_bytes).
#[verifier::external_body]
fn decode_p384_pkcs8(der: &[u8]) -> (r: Option<Vec<u8>>)
    ensures
        r.is_some() == p384_pkcs8_accepts(der@),
        der@.len() == 0 ==> r is None,
{
    p384::SecretKey::from_pkcs8_der(der).ok().map(|k| k.to_bytes().to_vec())
}

/// Decode a P-256 key from a SEC1 document, recording its source.
pub(crate) fn parse_p256_sec1(der: &[u8]) -> (r: Option<EcdsaSigningKeyP256>)
    ensures
        r.is_some() == p256_sec1_accepts(der@),
        der@.len() == 0 ==> r is None,
        r matches Some(k) ==> k.key_source() == (KeyFormat::Sec1, der@),
{
    match decode_p256_sec1(der) {
        Some(scalar) => Some(
            EcdsaSigningKeyP256 { scalar, src: Ghost((KeyFormat::Sec1, der@)) },
        ),
        None => None,
    }
}

/// Decode a P-256 key from a PKCS#8 document, recording its source.
pub(crate) fn parse_p256_pkcs8(der: &[u8]) -> (r: Option<EcdsaSigningKeyP256>)
    ensures
        r.is_some() == p256_pkcs8_accepts(der@),
        der@.len() == 0 ==> r is None,
        r matches Some(k) ==> k.key_source() == (KeyFormat::Pkcs8, der@),
{
    match decode_p256_pkcs8(der) {
        Some(scalar) => Some(
            EcdsaSigningKeyP256 { scalar, src: Ghost((KeyFormat::Pkcs8, der@)) },
        ),
        None => None,
    }
}

/// Decode a P-384 key from a SEC1 document, recording its source.
pub(crate) fn parse_p384_sec1(der: &[u8]) -> (r: Option<EcdsaSigningKeyP384>)
    ensures
        r.is_some() == p384_sec1_accepts(der@),
        der@.len() == 0 ==> r is None,
        r matches Some(k) ==> k.key_source() == (KeyFormat::Sec1, der@),
{
    match decode_p384_sec1(der) {
        Some(scalar) => Some(
            EcdsaSigningKeyP384 { scalar, src: Ghost((KeyFormat::Sec1, der@)) },
        ),
        None => None,
    }
}

/// Decode a P-384 key from a PKCS#8 document, recording its source.
pub(crate) fn parse_p384_pkcs8(der: &[u8]) -> (r: Option<EcdsaSigningKeyP384>)
    ensures
        r.is_some() == p384_pkcs8_accepts(der@),
        der@.len() == 0 ==> r is None,
        r matches Some(k) ==> k.key_source() == (KeyFormat::Pkcs8, der@),
{
    match decode_p384_pkcs8(der) {
        Some(scalar) => Some(
            EcdsaSigningKeyP384 { scalar, src: Ghost((KeyFormat::Pkcs8, der@)) },
        ),
        None => None,
    }
}

/// Relies on ecdsa::SigningKey::<NistP256>::try_sign_with_rng with the
/// operating-system randomness source: each call hedges the nonce with fresh
/// randomness, so nothing is promised of the signature bytes beyond their
/// fixed 64-byte encoding (32-byte r and s values).
#[verifier::external_body]
pub(crate) fn sign_p256(key: &EcdsaSigningKeyP256, msg: &[u8]) -> (r: Option<Vec<u8>>)
    ensures
        r matches Some(s) ==> s@.len() == 64,
{
    let sk = match p256::ecdsa::SigningKey::from_slice(&key.scalar) {
        Ok(sk) => sk,
        Err(_) => return None,
    };
    let sig: Result<p256::ecdsa::Signature, signature::Error> = sk.try_sign_with_rng(
        &mut rand_core::OsRng,
        msg,
    );
    match sig {
        Ok(s) => Some(s.to_vec()),
        Err(_) => None,
    }
}

/// Relies on ecdsa::SigningKey::<NistP384>::try_sign_with_rng with the
/// operating-system randomness source: each call hedges the nonce with fresh
/// randomness, so nothing is promised of the signature bytes beyond their
/// fixed 96-byte encoding (48-byte r and s values).
#[verifier::external_body]
pub(crate) fn sign_p384(key: &EcdsaSigningKeyP384, msg: &[u8]) -> (r: Option<Vec<u8>>)
    ensures
        r matches Some(s) ==> s@.len() == 96,
{
    let sk = match p384::ecdsa::SigningKey::from_slice(&key.scalar) {
        Ok(sk) => sk,
        Err(_) => return None,
    };
    let sig: Result<p384::ecdsa::Signature, signature::Error> = sk.try_sign_with_rng(
        &mut rand_core::OsRng,
        msg,
    );
    match sig {
        Ok(s) => Some(s.to_vec()),
        Err(_) => None,
    }
}

} // verus!
