use vstd::prelude::*;

use std::sync::Arc;

use crate::Error;
use crate::ecdsa_keys::{
    EcdsaSigningKeyP256, EcdsaSigningKeyP384, p256_pkcs8_accepts, p256_sec1_accepts,
    p384_pkcs8_accepts, p384_sec1_accepts, parse_p256_pkcs8, parse_p256_sec1, parse_p384_pkcs8,
    parse_p384_sec1, sign_p256, sign_p384,
};
use crate::eddsa_keys::{
    Ed25519SigningKey, ed25519_pkcs8_accepts, ed25519_sig, parse_ed25519_pkcs8, sign_ed25519,
};
use crate::rsa_keys::{
    RsaSigningKey, parse_pkcs1, parse_pkcs8, rsa_pkcs1_accepts, rsa_pkcs1_sha256_sig,
    rsa_pkcs1_sha384_sig, rsa_pkcs1_sha512_sig, rsa_pkcs8_accepts, rsa_sig_len,
    sign_pkcs1_sha256, sign_pkcs1_sha384, sign_pkcs1_sha512, sign_pss_sha256, sign_pss_sha384,
    sign_pss_sha512,
};
use crate::scheme::{
    AlgorithmFamily, KeyFormat, PrivateKeyEncoding, SignatureScheme, first_match,
    is_deterministic_scheme, is_rsa_pss_scheme, lemma_schemes_of_contains, scheme_family,
    schemes_of,
};

verus! {

/// One decoded private key of some supported algorithm family.
pub(crate) enum KeyInner {
    Rsa(RsaSigningKey),
    EcdsaP256(EcdsaSigningKeyP256),
    EcdsaP384(EcdsaSigningKeyP384),
    Ed25519(Ed25519SigningKey),
}

impl KeyInner {
    pub(crate) open spec fn family(&self) -> AlgorithmFamily {
        match *self {
            KeyInner::Rsa(_) => AlgorithmFamily::Rsa,
            KeyInner::EcdsaP256(_) => AlgorithmFamily::EcdsaP256,
            KeyInner::EcdsaP384(_) => AlgorithmFamily::EcdsaP384,
            KeyInner::Ed25519(_) => AlgorithmFamily::Ed25519,
        }
    }

    pub(crate) open spec fn key_source(&self) -> (KeyFormat, Seq<u8>) {
        match *self {
            KeyInner::Rsa(k) => k.key_source(),
            KeyInner::EcdsaP256(k) => k.key_source(),
            KeyInner::EcdsaP384(k) => k.key_source(),
            KeyInner::Ed25519(k) => (KeyFormat::Pkcs8, k.key_source()),
        }
    }
}

/// Whether the RSA constructor accepts the encoding `(fmt, der)`.
pub open spec fn rsa_accepts(fmt: KeyFormat, der: Seq<u8>) -> bool {
    match fmt {
        KeyFormat::Pkcs1 => rsa_pkcs1_accepts(der),
        KeyFormat::Sec1 => false,
        KeyFormat::Pkcs8 => rsa_pkcs8_accepts(der),
    }
}

/// Whether the ECDSA P-256 constructor accepts the encoding `(fmt, der)`.
pub open spec fn p256_accepts(fmt: KeyFormat, der: Seq<u8>) -> bool {
    match fmt {
        KeyFormat::Pkcs1 => false,
        KeyFormat::Sec1 => p256_sec1_accepts(der),
        KeyFormat::Pkcs8 => p256_pkcs8_accepts(der),
    }
}

/// Whether the ECDSA P-384 constructor accepts the encoding `(fmt, der)`.
pub open spec fn p384_accepts(fmt: KeyFormat, der: Seq<u8>) -> bool {
    match fmt {
        KeyFormat::Pkcs1 => false,
        KeyFormat::Sec1 => p384_sec1_accepts(der),
        KeyFormat::Pkcs8 => p384_pkcs8_accepts(der),
    }
}

/// Whether the Ed25519 constructor accepts the encoding `(fmt, der)`.
pub open spec fn ed25519_accepts(fmt: KeyFormat, der: Seq<u8>) -> bool {
    match fmt {
        KeyFormat::Pkcs1 => false,
        KeyFormat::Sec1 => false,
        KeyFormat::Pkcs8 => ed25519_pkcs8_accepts(der),
    }
}

/// The family the ECDSA-only dispatcher resolves `(fmt, der)` to: P-256
/// first, then P-384.
pub open spec fn ecdsa_resolved_family(fmt: KeyFormat, der: Seq<u8>) -> Option<AlgorithmFamily> {
    if p256_accepts(fmt, der) {
        Some(AlgorithmFamily::EcdsaP256)
    } else if p384_accepts(fmt, der) {
        Some(AlgorithmFamily::EcdsaP384)
    } else {
        None
    }
}

/// The family the EdDSA-only dispatcher resolves `(fmt, der)` to.
pub open spec fn eddsa_resolved_family(fmt: KeyFormat, der: Seq<u8>) -> Option<AlgorithmFamily> {
    if ed25519_accepts(fmt, der) {
        Some(AlgorithmFamily::Ed25519)
    } else {
        None
    }
}

/// The family the full dispatcher resolves `(fmt, der)` to, trying RSA first,
/// then ECDSA P-256, then ECDSA P-384, then Ed25519, in that fixed order.
pub open spec fn resolved_family(fmt: KeyFormat, der: Seq<u8>) -> Option<AlgorithmFamily> {
    if rsa_accepts(fmt, der) {
        Some(AlgorithmFamily::Rsa)
    } else if p256_accepts(fmt, der) {
        Some(AlgorithmFamily::EcdsaP256)
    } else if p384_accepts(fmt, der) {
        Some(AlgorithmFamily::EcdsaP384)
    } else if ed25519_accepts(fmt, der) {
        Some(AlgorithmFamily::Ed25519)
    } else {
        None
    }
}

/// Whether family `fam`'s constructor accepts the encoding `(fmt, der)`.
pub open spec fn family_accepts(fam: AlgorithmFamily, fmt: KeyFormat, der: Seq<u8>) -> bool {
    match fam {
        AlgorithmFamily::Rsa => rsa_accepts(fmt, der),
        AlgorithmFamily::EcdsaP256 => p256_accepts(fmt, der),
        AlgorithmFamily::EcdsaP384 => p384_accepts(fmt, der),
        AlgorithmFamily::Ed25519 => ed25519_accepts(fmt, der),
    }
}

/// The signature a deterministic scheme produces over `msg` under the key
/// decoded from `(fmt, der)`; `None` when the primitive rejects the request
/// or the scheme is randomized.
pub open spec fn det_signature(
    scheme: SignatureScheme,
    fmt: KeyFormat,
    der: Seq<u8>,
    msg: Seq<u8>,
) -> Option<Seq<u8>> {
    match scheme {
        SignatureScheme::RsaPkcs1Sha256 => rsa_pkcs1_sha256_sig(fmt, der, msg),
        SignatureScheme::RsaPkcs1Sha384 => rsa_pkcs1_sha384_sig(fmt, der, msg),
        SignatureScheme::RsaPkcs1Sha512 => rsa_pkcs1_sha512_sig(fmt, der, msg),
        SignatureScheme::Ed25519 => Some(ed25519_sig(der, msg)),
        _ => None,
    }
}

/// A handle to one signing key: it owns the decoded key (shared,
/// reference-counted, immutable) and reports which signature schemes the key
/// services.
pub struct SigningKeyHandle {
    key: Arc<KeyInner>,
}

/// The adapter for deterministic signing: one shared key bound to one
/// deterministic scheme.
pub struct GenericSigner {
    key: Arc<KeyInner>,
    scheme: SignatureScheme,
}

/// The adapter for randomized signing: one shared key bound to one randomized
/// scheme; each `sign` call draws fresh randomness.
pub struct GenericRandomizedSigner {
    key: Arc<KeyInner>,
    scheme: SignatureScheme,
}

/// A signer produced by `choose_signer`: bound to one key and one scheme of
/// the handle's supported set.
pub enum Signer {
    Deterministic(GenericSigner),
    Randomized(GenericRandomizedSigner),
}

impl SigningKeyHandle {
    /// The algorithm family this handle's key resolved to.
    pub closed spec fn family(&self) -> AlgorithmFamily {
        (*self.key).family()
    }

    /// The container format and bytes this handle's key was decoded from.
    pub closed spec fn key_source(&self) -> (KeyFormat, Seq<u8>) {
        (*self.key).key_source()
    }

    /// The algorithm family this handle's key resolved to.
    pub fn algorithm(&self) -> (r: AlgorithmFamily)
        ensures
            r == self.family(),
    {
        match &*self.key {
            KeyInner::Rsa(_) => AlgorithmFamily::Rsa,
            KeyInner::EcdsaP256(_) => AlgorithmFamily::EcdsaP256,
            KeyInner::EcdsaP384(_) => AlgorithmFamily::EcdsaP384,
            KeyInner::Ed25519(_) => AlgorithmFamily::Ed25519,
        }
    }

    /// The non-empty, fixed scheme set this handle's key services, in the
    /// handle's own preference order.
    pub fn supported_schemes(&self) -> (r: Vec<SignatureScheme>)
        ensures
            r@ == schemes_of(self.family()),
            r@.len() > 0,
    {
        let fam = self.algorithm();
        let mut v: Vec<SignatureScheme> = Vec::new();
        match fam {
            AlgorithmFamily::Rsa => {
                v.push(SignatureScheme::RsaPssSha512);
                v.push(SignatureScheme::RsaPssSha384);
                v.push(SignatureScheme::RsaPssSha256);
                v.push(SignatureScheme::RsaPkcs1Sha512);
                v.push(SignatureScheme::RsaPkcs1Sha384);
                v.push(SignatureScheme::RsaPkcs1Sha256);
            },
            AlgorithmFamily::EcdsaP256 => {
                v.push(SignatureScheme::EcdsaNistp256Sha256);
            },
            AlgorithmFamily::EcdsaP384 => {
                v.push(SignatureScheme::EcdsaNistp384Sha384);
            },
            AlgorithmFamily::Ed25519 => {
                v.push(SignatureScheme::Ed25519);
            },
        }
        proof {
            assert(v@ =~= schemes_of(self.family()));
        }
        v
    }

    /// Select a signer for the first scheme in `offered` (in the caller's
    /// order) that this handle's key services; `None` when no offered scheme
    /// is supported.
    pub fn choose_signer(&self, offered: &[SignatureScheme]) -> (r: Option<Signer>)
        ensures
            match r {
                Some(s) => {
                    &&& first_match(offered@, schemes_of(self.family())) == Some(s.scheme_spec())
                    &&& schemes_of(self.family()).contains(s.scheme_spec())
                    &&& s.family() == self.family()
                    &&& s.key_source() == self.key_source()
                },
                None => first_match(offered@, schemes_of(self.family())) is None,
            },
    {
        let fam = self.algorithm();
        let ghost supported = schemes_of(self.family());
        let mut i: usize = 0;
        proof {
            assert(offered@.skip(0) =~= offered@);
        }
        while i < offered.len()
            invariant
                0 <= i <= offered@.len(),
                fam == self.family(),
                supported == schemes_of(self.family()),
                first_match(offered@, supported) == first_match(
                    offered@.skip(i as int),
                    supported,
                ),
            decreases offered@.len() - i,
        {
            let s = offered[i];
            proof {
                lemma_schemes_of_contains(fam, s);
            }
            if s.family() == fam {
                proof {
                    assert(offered@.skip(i as int)[0] == s);
                }
                return Some(self.make_signer(s));
            }
            proof {
                assert(offered@.skip(i as int).skip(1) =~= offered@.skip(i as int + 1));
            }
            i = i + 1;
        }
        proof {
            assert(offered@.skip(i as int).len() == 0);
        }
        None
    }

    /// Build the adapter matching the calling convention of `s`.
    fn make_signer(&self, s: SignatureScheme) -> (r: Signer)
        requires
            scheme_family(s) == self.family(),
        ensures
            r.scheme_spec() == s,
            r.family() == self.family(),
            r.key_source() == self.key_source(),
    {
        if s.is_deterministic() {
            Signer::Deterministic(GenericSigner { key: self.key.clone(), scheme: s })
        } else {
            Signer::Randomized(GenericRandomizedSigner { key: self.key.clone(), scheme: s })
        }
    }
}

impl Clone for SigningKeyHandle {
    /// A handle is shared: the clone refers to the same key.
    fn clone(&self) -> (r: Self)
        ensures
            r == *self,
    {
        SigningKeyHandle { key: self.key.clone() }
    }
}

impl GenericSigner {
    /// The scheme this signer is bound to.
    pub closed spec fn scheme_spec(&self) -> SignatureScheme {
        self.scheme
    }

    /// The algorithm family of the key this signer is bound to.
    pub closed spec fn family(&self) -> AlgorithmFamily {
        (*self.key).family()
    }

    /// The container format and bytes this signer's key was decoded from.
    pub closed spec fn key_source(&self) -> (KeyFormat, Seq<u8>) {
        (*self.key).key_source()
    }

    /// This adapter always carries a deterministic scheme of its key's
    /// family.
    #[verifier::type_invariant]
    pub closed spec fn wf(&self) -> bool {
        &&& is_deterministic_scheme(self.scheme)
        &&& scheme_family(self.scheme) == (*self.key).family()
    }

    /// Compute the scheme's signature over `message`: a deterministic
    /// function of the key and the message. Every internal failure collapses
    /// to the one opaque `SigningFailure`.
    pub fn sign(&self, message: &[u8]) -> (r: Result<Vec<u8>, Error>)
        ensures
            match r {
                Ok(sig) => {
                    &&& Some(sig@) == det_signature(
                        self.scheme_spec(),
                        self.key_source().0,
                        self.key_source().1,
                        message@,
                    )
                    &&& self.scheme_spec() == SignatureScheme::Ed25519 ==> sig@.len() == 64
                },
                Err(e) => {
                    &&& e == Error::SigningFailure
                    &&& det_signature(
                        self.scheme_spec(),
                        self.key_source().0,
                        self.key_source().1,
                        message@,
                    ) is None
                },
            },
    {
        proof {
            use_type_invariant(self);
        }
        match (&*self.key, self.scheme) {
            (KeyInner::Rsa(k), SignatureScheme::RsaPkcs1Sha256) => {
                match sign_pkcs1_sha256(k, message) {
                    Some(v) => Ok(v),
                    None => Err(Error::SigningFailure),
                }
            },
            (KeyInner::Rsa(k), SignatureScheme::RsaPkcs1Sha384) => {
                match sign_pkcs1_sha384(k, message) {
                    Some(v) => Ok(v),
                    None => Err(Error::SigningFailure),
                }
            },
            (KeyInner::Rsa(k), SignatureScheme::RsaPkcs1Sha512) => {
                match sign_pkcs1_sha512(k, message) {
                    Some(v) => Ok(v),
                    None => Err(Error::SigningFailure),
                }
            },
            (KeyInner::Ed25519(k), SignatureScheme::Ed25519) => Ok(sign_ed25519(k, message)),
            _ => {
                proof {
                    assert(false);
                }
                Err(Error::SigningFailure)
            },
        }
    }

    /// The scheme this signer is bound to.
    pub fn scheme(&self) -> (r: SignatureScheme)
        ensures
            r == self.scheme_spec(),
    {
        self.scheme
    }
}

impl GenericRandomizedSigner {
    /// The scheme this signer is bound to.
    pub closed spec fn scheme_spec(&self) -> SignatureScheme {
        self.scheme
    }

    /// The algorithm family of the key this signer is bound to.
    pub closed spec fn family(&self) -> AlgorithmFamily {
        (*self.key).family()
    }

    /// The container format and bytes this signer's key was decoded from.
    pub closed spec fn key_source(&self) -> (KeyFormat, Seq<u8>) {
        (*self.key).key_source()
    }

    /// This adapter always carries a randomized scheme of its key's family.
    #[verifier::type_invariant]
    pub closed spec fn wf(&self) -> bool {
        &&& !is_deterministic_scheme(self.scheme)
        &&& scheme_family(self.scheme) == (*self.key).family()
    }

    /// Compute the scheme's signature over `message`, drawing fresh
    /// randomness from the process-wide secure source on every call: two
    /// calls on the same message need not agree. Every internal failure
    /// collapses to the one opaque `SigningFailure`.
    pub fn sign(&self, message: &[u8]) -> (r: Result<Vec<u8>, Error>)
        ensures
            match r {
                Ok(sig) => {
                    &&& is_rsa_pss_scheme(self.scheme_spec()) ==> sig@.len() == rsa_sig_len(
                        self.key_source().0,
                        self.key_source().1,
                    )
                    &&& self.scheme_spec() == SignatureScheme::EcdsaNistp256Sha256 ==> sig@.len()
                        == 64
                    &&& self.scheme_spec() == SignatureScheme::EcdsaNistp384Sha384 ==> sig@.len()
                        == 96
                },
                Err(e) => e == Error::SigningFailure,
            },
    {
        proof {
            use_type_invariant(self);
        }
        let out: Option<Vec<u8>> = match (&*self.key, self.scheme) {
            (KeyInner::Rsa(k), SignatureScheme::RsaPssSha256) => sign_pss_sha256(k, message),
            (KeyInner::Rsa(k), SignatureScheme::RsaPssSha384) => sign_pss_sha384(k, message),
            (KeyInner::Rsa(k), SignatureScheme::RsaPssSha512) => sign_pss_sha512(k, message),
            (KeyInner::EcdsaP256(k), SignatureScheme::EcdsaNistp256Sha256) => sign_p256(
                k,
                message,
            ),
            (KeyInner::EcdsaP384(k), SignatureScheme::EcdsaNistp384Sha384) => sign_p384(
                k,
                message,
            ),
            _ => {
                proof {
                    assert(false);
                }
                None
            },
        };
        match out {
            Some(v) => Ok(v),
            None => Err(Error::SigningFailure),
        }
    }

    /// The scheme this signer is bound to.
    pub fn scheme(&self) -> (r: SignatureScheme)
        ensures
            r == self.scheme_spec(),
    {
        self.scheme
    }
}

impl Signer {
    /// The scheme this signer is bound to.
    pub open spec fn scheme_spec(&self) -> SignatureScheme {
        match *self {
            Signer::Deterministic(g) => g.scheme_spec(),
            Signer::Randomized(g) => g.scheme_spec(),
        }
    }

    /// The algorithm family of the key this signer is bound to.
    pub open spec fn family(&self) -> AlgorithmFamily {
        match *self {
            Signer::Deterministic(g) => g.family(),
            Signer::Randomized(g) => g.family(),
        }
    }

    /// The container format and bytes this signer's key was decoded from.
    pub open spec fn key_source(&self) -> (KeyFormat, Seq<u8>) {
        match *self {
            Signer::Deterministic(g) => g.key_source(),
            Signer::Randomized(g) => g.key_source(),
        }
    }

    /// Compute the bound scheme's signature over `message`. For a
    /// deterministic scheme the output is pinned to a function of the key and
    /// message; for a randomized scheme each call draws fresh randomness.
    /// Every failure is the one opaque `SigningFailure`.
    pub fn sign(&self, message: &[u8]) -> (r: Result<Vec<u8>, Error>)
        ensures
            is_deterministic_scheme(self.scheme_spec()) ==> match r {
                Ok(sig) => {
                    &&& Some(sig@) == det_signature(
                        self.scheme_spec(),
                        self.key_source().0,
                        self.key_source().1,
                        message@,
                    )
                    &&& self.scheme_spec() == SignatureScheme::Ed25519 ==> sig@.len() == 64
                },
                Err(e) => {
                    &&& e == Error::SigningFailure
                    &&& det_signature(
                        self.scheme_spec(),
                        self.key_source().0,
                        self.key_source().1,
                        message@,
                    ) is None
                },
            },
            !is_deterministic_scheme(self.scheme_spec()) ==> match r {
                Ok(sig) => {
                    &&& is_rsa_pss_scheme(self.scheme_spec()) ==> sig@.len() == rsa_sig_len(
                        self.key_source().0,
                        self.key_source().1,
                    )
                    &&& self.scheme_spec() == SignatureScheme::EcdsaNistp256Sha256 ==> sig@.len()
                        == 64
                    &&& self.scheme_spec() == SignatureScheme::EcdsaNistp384Sha384 ==> sig@.len()
                        == 96
                },
                Err(e) => e == Error::SigningFailure,
            },
    {
        match self {
            Signer::Deterministic(g) => {
                proof {
                    use_type_invariant(g);
                }
                g.sign(message)
            },
            Signer::Randomized(g) => {
                proof {
                    use_type_invariant(g);
                }
                g.sign(message)
            },
        }
    }

    /// The scheme this signer is bound to, returned unconditionally.
    pub fn scheme(&self) -> (r: SignatureScheme)
        ensures
            r == self.scheme_spec(),
    {
        match self {
            Signer::Deterministic(g) => g.scheme(),
            Signer::Randomized(g) => g.scheme(),
        }
    }
}

/// Try the RSA constructor on the encoding.
fn try_rsa(der: &PrivateKeyEncoding) -> (r: Option<RsaSigningKey>)
    ensures
        r.is_some() == rsa_accepts(der.format, der.bytes@),
        der.bytes@.len() == 0 ==> r is None,
        r matches Some(k) ==> k.key_source() == (der.format, der.bytes@),
{
    match der.format {
        KeyFormat::Pkcs1 => parse_pkcs1(der.bytes.as_slice()),
        KeyFormat::Sec1 => None,
        KeyFormat::Pkcs8 => parse_pkcs8(der.bytes.as_slice()),
    }
}

/// Try the P-256 constructor on the encoding.
fn try_p256(der: &PrivateKeyEncoding) -> (r: Option<EcdsaSigningKeyP256>)
    ensures
        r.is_some() == p256_accepts(der.format, der.bytes@),
        der.bytes@.len() == 0 ==> r is None,
        r matches Some(k) ==> k.key_source() == (der.format, der.bytes@),
{
    match der.format {
        KeyFormat::Pkcs1 => None,
        KeyFormat::Sec1 => parse_p256_sec1(der.bytes.as_slice()),
        KeyFormat::Pkcs8 => parse_p256_pkcs8(der.bytes.as_slice()),
    }
}

/// Try the P-384 constructor on the encoding.
fn try_p384(der: &PrivateKeyEncoding) -> (r: Option<EcdsaSigningKeyP384>)
    ensures
        r.is_some() == p384_accepts(der.format, der.bytes@),
        der.bytes@.len() == 0 ==> r is None,
        r matches Some(k) ==> k.key_source() == (der.format, der.bytes@),
{
    match der.format {
        KeyFormat::Pkcs1 => None,
        KeyFormat::Sec1 => parse_p384_sec1(der.bytes.as_slice()),
        KeyFormat::Pkcs8 => parse_p384_pkcs8(der.bytes.as_slice()),
    }
}

/// Try the Ed25519 constructor on the encoding.
fn try_ed25519(der: &PrivateKeyEncoding) -> (r: Option<Ed25519SigningKey>)
    ensures
        r.is_some() == ed25519_accepts(der.format, der.bytes@),
        der.bytes@.len() == 0 ==> r is None,
        r matches Some(k) ==> (KeyFormat::Pkcs8, k.key_source()) == (der.format, der.bytes@),
{
    match der.format {
        KeyFormat::Pkcs1 => None,
        KeyFormat::Sec1 => None,
        KeyFormat::Pkcs8 => parse_ed25519_pkcs8(der.bytes.as_slice()),
    }
}

/// Extract any supported key from the given encoding: the RSA constructor is
/// tried first, then ECDSA (P-256 before P-384), then Ed25519, and the first
/// success wins. When every constructor rejects the bytes, the single generic
/// `UnsupportedKeyFormat` failure is returned.
pub fn any_supported_type(der: &PrivateKeyEncoding) -> (r: Result<SigningKeyHandle, Error>)
    ensures
        match r {
            Ok(h) => {
                &&& Some(h.family()) == resolved_family(der.format, der.bytes@)
                &&& h.key_source() == (der.format, der.bytes@)
            },
            Err(e) => {
                &&& e == Error::UnsupportedKeyFormat
                &&& resolved_family(der.format, der.bytes@) is None
            },
        },
        der.bytes@.len() == 0 ==> r is Err,
{
    if let Some(k) = try_rsa(der) {
        Ok(SigningKeyHandle { key: Arc::new(KeyInner::Rsa(k)) })
    } else {
        match any_ecdsa_type(der) {
            Ok(h) => Ok(h),
            Err(_) => any_eddsa_type(der),
        }
    }
}

/// Extract any supported ECDSA key from the given encoding: the P-256
/// constructor is tried first, then P-384, and the first success wins.
pub fn any_ecdsa_type(der: &PrivateKeyEncoding) -> (r: Result<SigningKeyHandle, Error>)
    ensures
        match r {
            Ok(h) => {
                &&& Some(h.family()) == ecdsa_resolved_family(der.format, der.bytes@)
                &&& h.key_source() == (der.format, der.bytes@)
            },
            Err(e) => {
                &&& e == Error::UnsupportedKeyFormat
                &&& ecdsa_resolved_family(der.format, der.bytes@) is None
            },
        },
        der.bytes@.len() == 0 ==> r is Err,
{
    if let Some(k) = try_p256(der) {
        Ok(SigningKeyHandle { key: Arc::new(KeyInner::EcdsaP256(k)) })
    } else if let Some(k) = try_p384(der) {
        Ok(SigningKeyHandle { key: Arc::new(KeyInner::EcdsaP384(k)) })
    } else {
        Err(Error::UnsupportedKeyFormat)
    }
}

/// Extract any supported EdDSA key from the given encoding: Ed25519 is the
/// one compiled-in family.
pub fn any_eddsa_type(der: &PrivateKeyEncoding) -> (r: Result<SigningKeyHandle, Error>)
    ensures
        match r {
            Ok(h) => {
                &&& Some(h.family()) == eddsa_resolved_family(der.format, der.bytes@)
                &&& h.key_source() == (der.format, der.bytes@)
            },
            Err(e) => {
                &&& e == Error::UnsupportedKeyFormat
                &&& eddsa_resolved_family(der.format, der.bytes@) is None
            },
        },
        der.bytes@.len() == 0 ==> r is Err,
{
    if let Some(k) = try_ed25519(der) {
        Ok(SigningKeyHandle { key: Arc::new(KeyInner::Ed25519(k)) })
    } else {
        Err(Error::UnsupportedKeyFormat)
    }
}

/// Resolution precedence is fixed and deterministic: the resolved family is a
/// function of the encoding alone, and a both-parseable encoding resolves to
/// the family tried first, in the order RSA, ECDSA P-256, ECDSA P-384,
/// Ed25519.
pub proof fn lemma_resolution_precedence(fmt: KeyFormat, der: Seq<u8>)
    ensures
        rsa_accepts(fmt, der) ==> resolved_family(fmt, der) == Some(AlgorithmFamily::Rsa),
        !rsa_accepts(fmt, der) && p256_accepts(fmt, der) ==> resolved_family(fmt, der) == Some(
            AlgorithmFamily::EcdsaP256,
        ),
        !rsa_accepts(fmt, der) && !p256_accepts(fmt, der) && p384_accepts(fmt, der)
            ==> resolved_family(fmt, der) == Some(AlgorithmFamily::EcdsaP384),
        !rsa_accepts(fmt, der) && !p256_accepts(fmt, der) && !p384_accepts(fmt, der)
            && ed25519_accepts(fmt, der) ==> resolved_family(fmt, der) == Some(
            AlgorithmFamily::Ed25519,
        ),
        (resolved_family(fmt, der) is None) <==> (!rsa_accepts(fmt, der) && !p256_accepts(
            fmt,
            der,
        ) && !p384_accepts(fmt, der) && !ed25519_accepts(fmt, der)),
{
}

/// A key encoding of family `fam` — one that `fam`'s constructor accepts and
/// every other compiled-in constructor rejects — resolves to `fam`, and the
/// scheme set reported for it holds exactly `fam`'s schemes: a scheme is
/// supported if and only if it belongs to `fam`. An encoding that parses
/// under more than one family is excluded here; its resolution is settled by
/// precedence instead (`lemma_resolution_precedence`).
pub proof fn lemma_supported_schemes_exact(fmt: KeyFormat, der: Seq<u8>, fam: AlgorithmFamily)
    requires
        family_accepts(fam, fmt, der),
        forall|other: AlgorithmFamily| other != fam ==> !#[trigger] family_accepts(
            other,
            fmt,
            der,
        ),
    ensures
        resolved_family(fmt, der) == Some(fam),
        forall|s: SignatureScheme| #[trigger] schemes_of(fam).contains(s) <==> scheme_family(s)
            == fam,
{
    if fam != AlgorithmFamily::Rsa {
        assert(!family_accepts(AlgorithmFamily::Rsa, fmt, der));
    }
    if fam != AlgorithmFamily::EcdsaP256 {
        assert(!family_accepts(AlgorithmFamily::EcdsaP256, fmt, der));
    }
    if fam != AlgorithmFamily::EcdsaP384 {
        assert(!family_accepts(AlgorithmFamily::EcdsaP384, fmt, der));
    }
    if fam != AlgorithmFamily::Ed25519 {
        assert(!family_accepts(AlgorithmFamily::Ed25519, fmt, der));
    }
    assert forall|s: SignatureScheme| #[trigger] schemes_of(fam).contains(s) <==> scheme_family(
        s,
    ) == fam by {
        lemma_schemes_of_contains(fam, s);
    }
}

/// For a deterministic scheme, any two signatures the signing contract
/// permits for the same signer and the same message are byte-identical.
pub proof fn lemma_deterministic_sign(g: GenericSigner, msg: Seq<u8>, s1: Seq<u8>, s2: Seq<u8>)
    requires
        Some(s1) == det_signature(g.scheme_spec(), g.key_source().0, g.key_source().1, msg),
        Some(s2) == det_signature(g.scheme_spec(), g.key_source().0, g.key_source().1, msg),
    ensures
        s1 == s2,
{
}

} // verus!

