use vstd::prelude::*;

pub mod ecdsa_keys;
pub mod eddsa_keys;
pub mod rsa_keys;
pub mod scheme;
pub mod sign;

verus! {

/// The byte view of an optional signature.
pub open spec fn opt_sig_view(r: Option<Vec<u8>>) -> Option<Seq<u8>> {
    match r {
        Some(v) => Some(v@),
        None => None,
    }
}

/// The failure taxonomy of this library.
///
/// `UnsupportedKeyFormat` is returned when no compiled-in key constructor
/// accepts an input encoding; `SigningFailure` collapses every signing-time
/// failure into one opaque value, so that the shape of an error reveals
/// nothing about its cause.
#[derive(Clone, Copy, Debug, PartialEq, Eq, Structural)]
pub enum Error {
    UnsupportedKeyFormat,
    SigningFailure,
}

} // verus!

