//! Algorithm resolver: maps a public-key descriptor (algorithm OID plus
//! optional parameters and the raw encoded key) to the concrete signing
//! algorithm the card supports, and to the certificate-level signature
//! algorithm.
//!
//! An RSA key is classified by the byte length of its modulus; an EC key by
//! its named-curve parameter OID. Anything else is an `AlgorithmError`: an
//! unsupported key is rejected, never guessed at.

use vstd::prelude::*;

use rsa::pkcs1::der::Decode;

use crate::Error;

verus! {

/// The card's signing algorithms.
#[derive(Clone, Copy, Debug, Eq, PartialEq, Structural)]
pub enum AlgorithmId {
    /// RSA with a 1024-bit modulus.
    Rsa1024,
    /// RSA with a 2048-bit modulus.
    Rsa2048,
    /// ECDSA over the secp256r1 curve.
    EccP256,
    /// ECDSA over the secp384r1 curve.
    EccP384,
}

/// An ASN.1 `ANY` value: a tag and the raw value bytes, as found in the
/// parameters of an algorithm identifier.
#[derive(Clone, Debug)]
pub struct AnyParameter {
    /// The ASN.1 tag byte.
    pub tag: u8,
    /// The raw value bytes.
    pub value: Vec<u8>,
}

/// An X.509 algorithm identifier: an OID (its DER value bytes) and
/// optional parameters.
#[derive(Clone, Debug)]
pub struct AlgorithmIdentifier {
    /// DER value bytes of the algorithm OID.
    pub oid: Vec<u8>,
    /// Optional algorithm parameters: a named-curve OID for an EC key,
    /// an ASN.1 NULL for RSA, or absent.
    pub parameters: Option<AnyParameter>,
}

/// A subject public key descriptor: the key's algorithm identifier and the
/// raw encoded public key, as carried in a SubjectPublicKeyInfo structure.
#[derive(Clone, Debug)]
pub struct PublicKeyDescriptor {
    /// The key's algorithm identifier.
    pub algorithm: AlgorithmIdentifier,
    /// The raw encoded public key bytes.
    pub subject_public_key: Vec<u8>,
}

/// DER value bytes of the rsaEncryption OID, 1.2.840.113549.1.1.1.
pub open spec fn oid_rsa_encryption() -> Seq<u8> {
    seq![0x2au8, 0x86u8, 0x48u8, 0x86u8, 0xf7u8, 0x0du8, 0x01u8, 0x01u8, 0x01u8]
}

/// DER value bytes of the sha256WithRSAEncryption OID, 1.2.840.113549.1.1.11.
pub open spec fn oid_sha256_with_rsa() -> Seq<u8> {
    seq![0x2au8, 0x86u8, 0x48u8, 0x86u8, 0xf7u8, 0x0du8, 0x01u8, 0x01u8, 0x0bu8]
}

/// DER value bytes of the id-ecPublicKey OID, 1.2.840.10045.2.1.
pub open spec fn oid_ec_public_key() -> Seq<u8> {
    seq![0x2au8, 0x86u8, 0x48u8, 0xceu8, 0x3du8, 0x02u8, 0x01u8]
}

/// DER value bytes of the ecdsa-with-SHA256 OID, 1.2.840.10045.4.3.2.
pub open spec fn oid_ecdsa_with_sha256() -> Seq<u8> {
    seq![0x2au8, 0x86u8, 0x48u8, 0xceu8, 0x3du8, 0x04u8, 0x03u8, 0x02u8]
}

/// DER value bytes of the secp256r1 OID, 1.2.840.10045.3.1.7.
pub open spec fn oid_secp256r1() -> Seq<u8> {
    seq![0x2au8, 0x86u8, 0x48u8, 0xceu8, 0x3du8, 0x03u8, 0x01u8, 0x07u8]
}

/// DER value bytes of the secp384r1 OID, 1.3.132.0.34.
pub open spec fn oid_secp384r1() -> Seq<u8> {
    seq![0x2bu8, 0x81u8, 0x04u8, 0x00u8, 0x22u8]
}

/// DER value bytes of the id-sha256 OID, 2.16.840.1.101.3.4.2.1.
pub open spec fn oid_sha256() -> Seq<u8> {
    seq![0x60u8, 0x86u8, 0x48u8, 0x01u8, 0x65u8, 0x03u8, 0x04u8, 0x02u8, 0x01u8]
}

/// Compares two byte strings.
pub fn bytes_eq(a: &[u8], b: &[u8]) -> (r: bool)
    ensures
        r <==> a@ == b@,
{
    if a.len() != b.len() {
        assert(a@ != b@);
        return false;
    }
    let n = a.len();
    let mut i: usize = 0;
    while i < n
        invariant
            i <= n,
            n == a@.len() && n == b@.len(),
            forall|j: int| 0 <= j < i ==> a@[j] == b@[j],
        decreases n - i,
    {
        if a[i] != b[i] {
            return false;
        }
        i = i + 1;
    }
    assert(a@ =~= b@);
    true
}

/// Copies a byte string into a fresh vector.
pub fn copy_bytes(src: &[u8]) -> (r: Vec<u8>)
    ensures
        r@ == src@,
{
    let mut out: Vec<u8> = Vec::new();
    let n = src.len();
    let mut i: usize = 0;
    while i < n
        invariant
            i <= n,
            n == src@.len(),
            out@ == src@.subrange(0, i as int),
        decreases n - i,
    {
        out.push(src[i]);
        assert(out@ =~= src@.subrange(0, i + 1));
        i = i + 1;
    }
    assert(out@ =~= src@);
    out
}

/// The rsaEncryption OID as a vector.
pub fn rsa_encryption_oid() -> (r: Vec<u8>)
    ensures
        r@ == oid_rsa_encryption(),
{
    let v: Vec<u8> = vec![0x2a, 0x86, 0x48, 0x86, 0xf7, 0x0d, 0x01, 0x01, 0x01];
    assert(v@ =~= oid_rsa_encryption());
    v
}

/// The sha256WithRSAEncryption OID as a vector.
pub fn sha256_with_rsa_oid() -> (r: Vec<u8>)
    ensures
        r@ == oid_sha256_with_rsa(),
{
    let v: Vec<u8> = vec![0x2a, 0x86, 0x48, 0x86, 0xf7, 0x0d, 0x01, 0x01, 0x0b];
    assert(v@ =~= oid_sha256_with_rsa());
    v
}

/// The id-ecPublicKey OID as a vector.
pub fn ec_public_key_oid() -> (r: Vec<u8>)
    ensures
        r@ == oid_ec_public_key(),
{
    let v: Vec<u8> = vec![0x2a, 0x86, 0x48, 0xce, 0x3d, 0x02, 0x01];
    assert(v@ =~= oid_ec_public_key());
    v
}

/// The ecdsa-with-SHA256 OID as a vector.
pub fn ecdsa_with_sha256_oid() -> (r: Vec<u8>)
    ensures
        r@ == oid_ecdsa_with_sha256(),
{
    let v: Vec<u8> = vec![0x2a, 0x86, 0x48, 0xce, 0x3d, 0x04, 0x03, 0x02];
    assert(v@ =~= oid_ecdsa_with_sha256());
    v
}

/// The secp256r1 OID as a vector.
pub fn secp256r1_oid() -> (r: Vec<u8>)
    ensures
        r@ == oid_secp256r1(),
{
    let v: Vec<u8> = vec![0x2a, 0x86, 0x48, 0xce, 0x3d, 0x03, 0x01, 0x07];
    assert(v@ =~= oid_secp256r1());
    v
}

/// The secp384r1 OID as a vector.
pub fn secp384r1_oid() -> (r: Vec<u8>)
    ensures
        r@ == oid_secp384r1(),
{
    let v: Vec<u8> = vec![0x2b, 0x81, 0x04, 0x00, 0x22];
    assert(v@ =~= oid_secp384r1());
    v
}

/// The id-sha256 OID as a vector.
pub fn sha256_oid() -> (r: Vec<u8>)
    ensures
        r@ == oid_sha256(),
{
    let v: Vec<u8> = vec![0x60, 0x86, 0x48, 0x01, 0x65, 0x03, 0x04, 0x02, 0x01];
    assert(v@ =~= oid_sha256());
    v
}

/// The modulus byte length (leading zeros stripped) of the RSA public key
/// that `der` encodes as a PKCS#1 `RSAPublicKey` structure, or nothing if
/// `der` is no such encoding. The result depends on the bytes alone.
pub uninterp spec fn rsa_modulus_len_of(der: Seq<u8>) -> Option<nat>;

/// Relies on pkcs1's `RsaPublicKey::from_der` to parse the PKCS#1
/// `RSAPublicKey` structure, and on `UintRef::as_bytes` to hand back the
/// modulus with leading zeros stripped.
#[verifier::external_body]
pub(crate) fn parse_rsa_modulus_len(der: &[u8]) -> (r: Option<usize>)
    ensures
        match r {
            Option::Some(n) => rsa_modulus_len_of(der@) == Option::Some(n as nat),
            Option::None => rsa_modulus_len_of(der@) is None,
        },
{
    match rsa::pkcs1::RsaPublicKey::from_der(der) {
        Ok(key) => Some(key.modulus.as_bytes().len()),
        Err(_) => None,
    }
}

/// The RSA modulus byte length of the descriptor's raw public key, which
/// for an RSA signing operation is the length of the encoded message
/// block. Fails with `AlgorithmError` when the raw key is not a PKCS#1 RSA
/// public key.
pub fn get_em_len(descriptor: &PublicKeyDescriptor) -> (r: Result<usize, Error>)
    ensures
        match r {
            Ok(n) => rsa_modulus_len_of(descriptor.subject_public_key@) == Option::Some(n as nat),
            Err(e) => {
                &&& e == Error::AlgorithmError
                &&& rsa_modulus_len_of(descriptor.subject_public_key@) is None
            },
        },
{
    match parse_rsa_modulus_len(descriptor.subject_public_key.as_slice()) {
        Some(n) => Ok(n),
        None => Err(Error::AlgorithmError),
    }
}

/// The signing algorithm of an RSA key with a modulus of `em_len` bytes:
/// 128 bytes is RSA-1024 and 256 bytes is RSA-2048; any other length is a
/// key the card does not support.
pub fn resolve_rsa_algorithm(em_len: usize) -> (r: Result<AlgorithmId, Error>)
    ensures
        r == (if em_len == 128 {
            Result::<AlgorithmId, Error>::Ok(AlgorithmId::Rsa1024)
        } else if em_len == 256 {
            Result::<AlgorithmId, Error>::Ok(AlgorithmId::Rsa2048)
        } else {
            Result::<AlgorithmId, Error>::Err(Error::AlgorithmError)
        }),
{
    match em_len {
        128 => Ok(AlgorithmId::Rsa1024),
        256 => Ok(AlgorithmId::Rsa2048),
        _ => Err(Error::AlgorithmError),
    }
}

/// The signing algorithm of an EC key on the given named curve:
/// secp256r1 or secp384r1; any other curve is unsupported.
pub fn resolve_ec_algorithm(curve_oid: &[u8]) -> (r: Result<AlgorithmId, Error>)
    ensures
        r == (if curve_oid@ == oid_secp256r1() {
            Result::<AlgorithmId, Error>::Ok(AlgorithmId::EccP256)
        } else if curve_oid@ == oid_secp384r1() {
            Result::<AlgorithmId, Error>::Ok(AlgorithmId::EccP384)
        } else {
            Result::<AlgorithmId, Error>::Err(Error::AlgorithmError)
        }),
{
    let p256 = secp256r1_oid();
    if bytes_eq(curve_oid, p256.as_slice()) {
        return Ok(AlgorithmId::EccP256);
    }
    let p384 = secp384r1_oid();
    if bytes_eq(curve_oid, p384.as_slice()) {
        return Ok(AlgorithmId::EccP384);
    }
    Err(Error::AlgorithmError)
}

/// The named-curve parameter OID of an EC key's algorithm identifier, or
/// `AlgorithmError` when the identifier carries no parameters.
pub fn get_named_curve_parameter(alg_id: &AlgorithmIdentifier) -> (r: Result<Vec<u8>, Error>)
    ensures
        match alg_id.parameters {
            Option::Some(p) => r matches Ok(v) && v@ == p.value@,
            Option::None => r == Result::<Vec<u8>, Error>::Err(Error::AlgorithmError),
        },
{
    match &alg_id.parameters {
        Some(p) => Ok(copy_bytes(p.value.as_slice())),
        None => Err(Error::AlgorithmError),
    }
}

/// What the resolver decides for a descriptor: an RSA key is classified by
/// its modulus length, an EC key by its named-curve parameter, and any
/// other algorithm OID is unsupported.
pub open spec fn resolved_algorithm(descriptor: PublicKeyDescriptor) -> Result<AlgorithmId, Error> {
    if descriptor.algorithm.oid@ == oid_rsa_encryption() {
        match rsa_modulus_len_of(descriptor.subject_public_key@) {
            Option::Some(n) => {
                if n == 128 {
                    Ok(AlgorithmId::Rsa1024)
                } else if n == 256 {
                    Ok(AlgorithmId::Rsa2048)
                } else {
                    Err(Error::AlgorithmError)
                }
            },
            Option::None => Err(Error::AlgorithmError),
        }
    } else if descriptor.algorithm.oid@ == oid_ec_public_key() {
        match descriptor.algorithm.parameters {
            Option::Some(p) => {
                if p.value@ == oid_secp256r1() {
                    Ok(AlgorithmId::EccP256)
                } else if p.value@ == oid_secp384r1() {
                    Ok(AlgorithmId::EccP384)
                } else {
                    Err(Error::AlgorithmError)
                }
            },
            Option::None => Err(Error::AlgorithmError),
        }
    } else {
        Err(Error::AlgorithmError)
    }
}

/// Resolves the concrete signing algorithm of a public-key descriptor.
pub fn get_alg_id(descriptor: &PublicKeyDescriptor) -> (r: Result<AlgorithmId, Error>)
    ensures
        r == resolved_algorithm(*descriptor),
{
    let rsa_oid = rsa_encryption_oid();
    if bytes_eq(descriptor.algorithm.oid.as_slice(), rsa_oid.as_slice()) {
        return match get_em_len(descriptor) {
            Ok(n) => resolve_rsa_algorithm(n),
            Err(e) => Err(e),
        };
    }
    let ec_oid = ec_public_key_oid();
    if bytes_eq(descriptor.algorithm.oid.as_slice(), ec_oid.as_slice()) {
        return match get_named_curve_parameter(&descriptor.algorithm) {
            Ok(curve) => resolve_ec_algorithm(curve.as_slice()),
            Err(e) => Err(e),
        };
    }
    Err(Error::AlgorithmError)
}

/// The certificate-level signature algorithm OID implied by a key: an EC
/// key signs with ECDSA-with-SHA-256, anything else with
/// SHA-256-with-RSA-PKCS#1v1.5. The hash is fixed at SHA-256 regardless of
/// curve or modulus size.
pub open spec fn certificate_signature_oid(descriptor: PublicKeyDescriptor) -> Seq<u8> {
    if descriptor.algorithm.oid@ == oid_ec_public_key() {
        oid_ecdsa_with_sha256()
    } else {
        oid_sha256_with_rsa()
    }
}

/// The OID of the signature algorithm that certificates for this key carry.
pub fn get_sig_alg_from_spki(descriptor: &PublicKeyDescriptor) -> (r: Vec<u8>)
    ensures
        r@ == certificate_signature_oid(*descriptor),
{
    let ec_oid = ec_public_key_oid();
    if bytes_eq(descriptor.algorithm.oid.as_slice(), ec_oid.as_slice()) {
        ecdsa_with_sha256_oid()
    } else {
        sha256_with_rsa_oid()
    }
}

} // verus!
