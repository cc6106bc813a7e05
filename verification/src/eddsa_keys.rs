use vstd::prelude::*;

use crate::scheme::KeyFormat;
use ::ed25519_dalek::pkcs8::DecodePrivateKey as _;
use ::signature::Signer as _;
use ::signature::SignatureEncoding as _;

verus! {

#[verifier::external_type_specification]
#[verifier::external_body]
pub struct ExEd25519SigningKey(ed25519_dalek::SigningKey);

/// Whether the Ed25519 constructor accepts these bytes as a PKCS#8 document.
pub uninterp spec fn ed25519_pkcs8_accepts(der: Seq<u8>) -> bool;

/// The Ed25519 signature over `msg` under the key decoded from the PKCS#8
/// document `der`. Ed25519 signing is deterministic and never fails.
pub uninterp spec fn ed25519_sig(der: Seq<u8>, msg: Seq<u8>) -> Seq<u8>;

/// An Ed25519 private key, decoded once at construction and then shared
/// read-only. The ghost field records the PKCS#8 bytes it was decoded from.
pub struct Ed25519SigningKey {
    inner: ed25519_dalek::SigningKey,
    src: Ghost<Seq<u8>>,
}

impl Ed25519SigningKey {
    /// The PKCS#8 bytes this key was decoded from.
    pub closed spec fn key_source(&self) -> Seq<u8> {
        self.src@
    }
}

/// Relies on ed25519_dalek::SigningKey::from_pkcs8_der (through
/// pkcs8::DecodePrivateKey): decoding a PKCS#8 DER document is a
/// deterministic function of the bytes, and the empty input, which holds no
/// DER document, is always rejected.
#[verifier::external_body]
fn decode_ed25519_pkcs8(der: &[u8]) -> (r: Option<ed25519_dalek::SigningKey>)
    ensures
        r.is_some() == ed25519_pkcs8_accepts(der@),
        der@.len() == 0 ==> r is None,
{
    ed25519_dalek::SigningKey::from_pkcs8_der(der).ok()
}

/// Decode an Ed25519 key from a PKCS#8 document, recording its source.
pub(crate) fn parse_ed25519_pkcs8(der: &[u8]) -> (r: Option<Ed25519SigningKey>)
    ensures
        r.is_some() == ed25519_pkcs8_accepts(der@),
        der@.len() == 0 ==> r is None,
        r matches Some(k) ==> k.key_source() == der@,
{
    match decode_ed25519_pkcs8(der) {
        Some(inner) => Some(Ed25519SigningKey { inner, src: Ghost(der@) }),
        None => None,
    }
}

/// Relies on ed25519_dalek::SigningKey::sign: Ed25519 signing is
/// deterministic — the signature is a function of the key and message alone —
/// it never fails, and every signature is 64 bytes.
#[verifier::external_body]
pub(crate) fn sign_ed25519(key: &Ed25519SigningKey, msg: &[u8]) -> (r: Vec<u8>)
    ensures
        r@ == ed25519_sig(key.key_source(), msg@),
        r@.len() == 64,
{
    let sig: ed25519_dalek::Signature = key.inner.sign(msg);
    sig.to_vec()
}

} // verus!
