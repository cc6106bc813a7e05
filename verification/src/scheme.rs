use vstd::prelude::*;

verus! {

/// Container format of a private-key encoding: an RSA-specific container
/// (PKCS#1), an elliptic-curve-specific container (SEC1), or the generic
/// multi-algorithm container (PKCS#8).
#[derive(Clone, Copy, Debug, PartialEq, Eq, Structural)]
pub enum KeyFormat {
    Pkcs1,
    Sec1,
    Pkcs8,
}

/// An opaque private-key byte encoding together with its container format.
pub struct PrivateKeyEncoding {
    pub format: KeyFormat,
    pub bytes: Vec<u8>,
}

/// The algorithm families a key can resolve to, in dispatch priority order.
#[derive(Clone, Copy, Debug, PartialEq, Eq, Structural)]
pub enum AlgorithmFamily {
    Rsa,
    EcdsaP256,
    EcdsaP384,
    Ed25519,
}

/// A wire-level signature scheme: a fixed (algorithm, hash, encoding) triple.
#[derive(Clone, Copy, Debug, PartialEq, Eq, Structural)]
pub enum SignatureScheme {
    RsaPkcs1Sha256,
    RsaPkcs1Sha384,
    RsaPkcs1Sha512,
    RsaPssSha256,
    RsaPssSha384,
    RsaPssSha512,
    EcdsaNistp256Sha256,
    EcdsaNistp384Sha384,
    Ed25519,
}

/// The algorithm family a scheme belongs to.
pub open spec fn scheme_family(s: SignatureScheme) -> AlgorithmFamily {
    match s {
        SignatureScheme::RsaPkcs1Sha256 => AlgorithmFamily::Rsa,
        SignatureScheme::RsaPkcs1Sha384 => AlgorithmFamily::Rsa,
        SignatureScheme::RsaPkcs1Sha512 => AlgorithmFamily::Rsa,
        SignatureScheme::RsaPssSha256 => AlgorithmFamily::Rsa,
        SignatureScheme::RsaPssSha384 => AlgorithmFamily::Rsa,
        SignatureScheme::RsaPssSha512 => AlgorithmFamily::Rsa,
        SignatureScheme::EcdsaNistp256Sha256 => AlgorithmFamily::EcdsaP256,
        SignatureScheme::EcdsaNistp384Sha384 => AlgorithmFamily::EcdsaP384,
        SignatureScheme::Ed25519 => AlgorithmFamily::Ed25519,
    }
}

/// Whether a scheme's signing primitive is deterministic (same key and
/// message always give the same signature bytes) rather than randomized.
pub open spec fn is_deterministic_scheme(s: SignatureScheme) -> bool {
    match s {
        SignatureScheme::RsaPkcs1Sha256 => true,
        SignatureScheme::RsaPkcs1Sha384 => true,
        SignatureScheme::RsaPkcs1Sha512 => true,
        SignatureScheme::RsaPssSha256 => false,
        SignatureScheme::RsaPssSha384 => false,
        SignatureScheme::RsaPssSha512 => false,
        SignatureScheme::EcdsaNistp256Sha256 => false,
        SignatureScheme::EcdsaNistp384Sha384 => false,
        SignatureScheme::Ed25519 => true,
    }
}

/// Whether a scheme is one of the randomized RSA-PSS schemes.
pub open spec fn is_rsa_pss_scheme(s: SignatureScheme) -> bool {
    ||| s == SignatureScheme::RsaPssSha256
    ||| s == SignatureScheme::RsaPssSha384
    ||| s == SignatureScheme::RsaPssSha512
}

/// The fixed, ordered scheme list each algorithm family supports.
pub open spec fn schemes_of(fam: AlgorithmFamily) -> Seq<SignatureScheme> {
    match fam {
        AlgorithmFamily::Rsa => seq![
            SignatureScheme::RsaPssSha512,
            SignatureScheme::RsaPssSha384,
            SignatureScheme::RsaPssSha256,
            SignatureScheme::RsaPkcs1Sha512,
            SignatureScheme::RsaPkcs1Sha384,
            SignatureScheme::RsaPkcs1Sha256,
        ],
        AlgorithmFamily::EcdsaP256 => seq![SignatureScheme::EcdsaNistp256Sha256],
        AlgorithmFamily::EcdsaP384 => seq![SignatureScheme::EcdsaNistp384Sha384],
        AlgorithmFamily::Ed25519 => seq![SignatureScheme::Ed25519],
    }
}

/// A handle's scheme set is never empty.
pub proof fn lemma_schemes_of_nonempty(fam: AlgorithmFamily)
    ensures
        schemes_of(fam).len() > 0,
{
}

/// A family's scheme list contains exactly the schemes of that family.
pub proof fn lemma_schemes_of_contains(fam: AlgorithmFamily, s: SignatureScheme)
    ensures
        schemes_of(fam).contains(s) <==> scheme_family(s) == fam,
{
    let q = schemes_of(fam);
    if scheme_family(s) == fam {
        match fam {
            AlgorithmFamily::Rsa => {
                if s == SignatureScheme::RsaPssSha512 {
                    assert(q[0] == s);
                } else if s == SignatureScheme::RsaPssSha384 {
                    assert(q[1] == s);
                } else if s == SignatureScheme::RsaPssSha256 {
                    assert(q[2] == s);
                } else if s == SignatureScheme::RsaPkcs1Sha512 {
                    assert(q[3] == s);
                } else if s == SignatureScheme::RsaPkcs1Sha384 {
                    assert(q[4] == s);
                } else {
                    assert(q[5] == s);
                }
            },
            AlgorithmFamily::EcdsaP256 => {
                assert(q[0] == s);
            },
            AlgorithmFamily::EcdsaP384 => {
                assert(q[0] == s);
            },
            AlgorithmFamily::Ed25519 => {
                assert(q[0] == s);
            },
        }
        assert(q.contains(s));
    }
    if q.contains(s) {
        let i = choose|i: int| 0 <= i < q.len() && q[i] == s;
        assert(scheme_family(q[i]) == fam) by {
            if i == 0 {
            } else if i == 1 {
            } else if i == 2 {
            } else if i == 3 {
            } else if i == 4 {
            } else {
                assert(i == 5);
            }
        }
    }
}

impl SignatureScheme {
    /// The family this scheme belongs to.
    pub fn family(self) -> (r: AlgorithmFamily)
        ensures
            r == scheme_family(self),
    {
        match self {
            SignatureScheme::RsaPkcs1Sha256 => AlgorithmFamily::Rsa,
            SignatureScheme::RsaPkcs1Sha384 => AlgorithmFamily::Rsa,
            SignatureScheme::RsaPkcs1Sha512 => AlgorithmFamily::Rsa,
            SignatureScheme::RsaPssSha256 => AlgorithmFamily::Rsa,
            SignatureScheme::RsaPssSha384 => AlgorithmFamily::Rsa,
            SignatureScheme::RsaPssSha512 => AlgorithmFamily::Rsa,
            SignatureScheme::EcdsaNistp256Sha256 => AlgorithmFamily::EcdsaP256,
            SignatureScheme::EcdsaNistp384Sha384 => AlgorithmFamily::EcdsaP384,
            SignatureScheme::Ed25519 => AlgorithmFamily::Ed25519,
        }
    }

    /// Whether this scheme's signing primitive is deterministic.
    pub fn is_deterministic(self) -> (r: bool)
        ensures
            r == is_deterministic_scheme(self),
    {
        match self {
            SignatureScheme::RsaPkcs1Sha256 => true,
            SignatureScheme::RsaPkcs1Sha384 => true,
            SignatureScheme::RsaPkcs1Sha512 => true,
            SignatureScheme::RsaPssSha256 => false,
            SignatureScheme::RsaPssSha384 => false,
            SignatureScheme::RsaPssSha512 => false,
            SignatureScheme::EcdsaNistp256Sha256 => false,
            SignatureScheme::EcdsaNistp384Sha384 => false,
            SignatureScheme::Ed25519 => true,
        }
    }

    /// The scheme's code in the fixed wire numbering of the surrounding
    /// protocol layer.
    pub open spec fn wire_code_spec(self) -> u16 {
        match self {
            SignatureScheme::RsaPkcs1Sha256 => 0x0401,
            SignatureScheme::RsaPkcs1Sha384 => 0x0501,
            SignatureScheme::RsaPkcs1Sha512 => 0x0601,
            SignatureScheme::RsaPssSha256 => 0x0804,
            SignatureScheme::RsaPssSha384 => 0x0805,
            SignatureScheme::RsaPssSha512 => 0x0806,
            SignatureScheme::EcdsaNistp256Sha256 => 0x0403,
            SignatureScheme::EcdsaNistp384Sha384 => 0x0503,
            SignatureScheme::Ed25519 => 0x0807,
        }
    }

    /// The scheme's code in the fixed wire numbering of the surrounding
    /// protocol layer.
    pub fn wire_code(self) -> (r: u16)
        ensures
            r == self.wire_code_spec(),
    {
        match self {
            SignatureScheme::RsaPkcs1Sha256 => 0x0401,
            SignatureScheme::RsaPkcs1Sha384 => 0x0501,
            SignatureScheme::RsaPkcs1Sha512 => 0x0601,
            SignatureScheme::RsaPssSha256 => 0x0804,
            SignatureScheme::RsaPssSha384 => 0x0805,
            SignatureScheme::RsaPssSha512 => 0x0806,
            SignatureScheme::EcdsaNistp256Sha256 => 0x0403,
            SignatureScheme::EcdsaNistp384Sha384 => 0x0503,
            SignatureScheme::Ed25519 => 0x0807,
        }
    }
}

/// The first scheme of `offered`, in order, that is also in `supported`;
/// `None` when the two are disjoint.
pub open spec fn first_match(
    offered: Seq<SignatureScheme>,
    supported: Seq<SignatureScheme>,
) -> Option<SignatureScheme>
    decreases offered.len(),
{
    if offered.len() == 0 {
        None
    } else if supported.contains(offered[0]) {
        Some(offered[0])
    } else {
        first_match(offered.skip(1), supported)
    }
}

/// Scheme selection honors the caller's order: the chosen scheme is offered,
/// supported, and no earlier offered scheme is supported; when nothing is
/// chosen, offered and supported are disjoint. This holds for every `offered`
/// sequence.
pub proof fn lemma_first_match_correct(
    offered: Seq<SignatureScheme>,
    supported: Seq<SignatureScheme>,
)
    ensures
        match first_match(offered, supported) {
            Some(s) => exists|i: int|
                0 <= i < offered.len() && offered[i] == s && supported.contains(s) && (forall|
                    j: int,
                |
                    0 <= j < i ==> !supported.contains(offered[j])),
            None => forall|i: int| 0 <= i < offered.len() ==> !supported.contains(offered[i]),
        },
    decreases offered.len(),
{
    if offered.len() == 0 {
    } else if supported.contains(offered[0]) {
        let s = offered[0];
        assert(0 <= 0 < offered.len() && offered[0] == s && supported.contains(s) && (forall|
            j: int,
        |
            0 <= j < 0 ==> !supported.contains(offered[j])));
    } else {
        let rest = offered.skip(1);
        lemma_first_match_correct(rest, supported);
        match first_match(offered, supported) {
            Some(s) => {
                let i = choose|i: int|
                    0 <= i < rest.len() && rest[i] == s && supported.contains(s) && (forall|j: int|
                        0 <= j < i ==> !supported.contains(rest[j]));
                assert(offered[i + 1] == rest[i]);
                assert(forall|j: int| 0 <= j < i + 1 ==> !supported.contains(offered[j])) by {
                    assert(forall|j: int|
                        1 <= j < i + 1 ==> offered[j] == rest[j - 1] && !supported.contains(
                            rest[j - 1],
                        ));
                }
                assert(0 <= i + 1 < offered.len() && offered[i + 1] == s);
            },
            None => {
                assert(forall|i: int|
                    1 <= i < offered.len() ==> offered[i] == rest[i - 1] && !supported.contains(
                        rest[i - 1],
                    ));
            },
        }
    }
}

} // verus!
