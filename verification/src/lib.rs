//! Certificate storage and hardware-backed signing support for PIV smart
//! cards.
//!
//! The crate covers the card object codec (a tag/length/value encoding of a
//! certificate plus compression metadata and a checksum trailer, fitted into
//! the card's fixed-size object slots), the resolver that maps a public-key
//! descriptor to the concrete signing algorithm, the PKCS#1 v1.5 block
//! construction used when signing with an RSA key on the card, and the
//! validity-window arithmetic of the self-signed certificate issuer.
//!
//! All card and hardware I/O stays outside this crate: the functions here
//! compute the bytes to persist or to sign, and interpret the bytes that the
//! card handed back.

use vstd::prelude::*;

pub mod algorithm;
pub mod certificate;
pub mod issuer;
pub mod signing;
pub mod tlv;

verus! {

/// Failure kinds of the certificate and signing layer.
#[derive(Clone, Copy, Debug, PartialEq, Eq, Structural)]
pub enum Error {
    /// Malformed or unsupported TLV or certificate content.
    InvalidObject,
    /// Unsupported or inconsistent key algorithm or key size.
    AlgorithmError,
    /// An encoding exceeds the fixed capacity it must fit in.
    BufferTooSmall,
    /// The signing primitive or the card transport failed.
    HardwareError,
    /// Contention on the shared hardware handle.
    GenericError,
}

} // verus!
