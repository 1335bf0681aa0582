//! Hardware-backed signing: everything that has to be computed before the
//! card's raw private-key primitive is invoked.
//!
//! For an RSA key the message digest is wrapped in a DER `DigestInfo`
//! structure and padded out to the exact modulus length as an
//! EMSA-PKCS1-v1.5 encoded message block; for an EC key the digest itself
//! is the preimage. The raw private-key operation, and the hashing of the
//! message, happen outside this crate: callers hand in the digest and carry
//! the preimage to the hardware.

use vstd::prelude::*;

use crate::Error;
use crate::algorithm::{
    AlgorithmId, AlgorithmIdentifier, AnyParameter, PublicKeyDescriptor, bytes_eq,
    certificate_signature_oid, copy_bytes, ec_public_key_oid, get_alg_id, get_em_len,
    get_sig_alg_from_spki, oid_ec_public_key, oid_sha256, resolved_algorithm,
    rsa_modulus_len_of, sha256_oid,
};
use crate::tlv;

verus! {

/// A digital signature as the hardware produced it: the raw big-endian
/// modular result for RSA, the DER `SEQUENCE{r,s}` for EC.
#[derive(Clone, Debug)]
pub struct Signature(pub Vec<u8>);

/// The DER `DigestInfo` structure of RFC 8017: the digest algorithm and the
/// digest itself, wrapped together inside a PKCS#1 v1.5 block.
#[derive(Clone, Debug)]
pub struct DigestInfo {
    /// Algorithm identifier of the hash function.
    pub digest_algorithm: AlgorithmIdentifier,
    /// The hash value.
    pub digest: Vec<u8>,
}

/// DER encoding of an algorithm identifier: a SEQUENCE holding the OID and
/// the parameters, if any, under their own tag.
pub open spec fn algorithm_identifier_der(alg: AlgorithmIdentifier) -> Seq<u8> {
    tlv::record_encoding(
        0x30,
        tlv::record_encoding(0x06, alg.oid@) + match alg.parameters {
            Option::Some(p) => tlv::record_encoding(p.tag, p.value@),
            Option::None => seq![],
        },
    )
}

/// DER encoding of a `DigestInfo`: a SEQUENCE holding the algorithm
/// identifier and the digest as an OCTET STRING.
pub open spec fn digest_info_der(info: DigestInfo) -> Seq<u8> {
    tlv::record_encoding(
        0x30,
        algorithm_identifier_der(info.digest_algorithm) + tlv::record_encoding(0x04, info.digest@),
    )
}

/// DER encoding of the `DigestInfo` that a SHA-256 digest is wrapped in:
/// the id-sha256 identifier with a NULL parameter, then the digest.
pub open spec fn sha256_digest_info_der(digest: Seq<u8>) -> Seq<u8> {
    tlv::record_encoding(
        0x30,
        tlv::record_encoding(
            0x30,
            tlv::record_encoding(0x06, oid_sha256()) + tlv::record_encoding(
                0x05,
                seq![],
            ),
        ) + tlv::record_encoding(0x04, digest),
    )
}

/// The EMSA-PKCS1-v1.5 encoded message of total length `em_len` around an
/// encoded `DigestInfo` `t`: the leading `0x00 0x01`, the `0xFF` padding,
/// a `0x00` separator, then `t`. Meaningful when `em_len >= t.len() + 3`.
pub open spec fn emsa_pkcs1_v15(t: Seq<u8>, em_len: nat) -> Seq<u8> {
    seq![0x00u8, 0x01u8] + Seq::<u8>::new((em_len - t.len() - 3) as nat, |i: int| 0xffu8)
        + seq![0x00u8] + t
}

/// Encodes an algorithm identifier to DER. The OID and parameter bounds
/// reflect the two-byte long-form length ceiling of the codec; every
/// identifier this crate constructs is far below them.
pub fn encode_algorithm_identifier(alg: &AlgorithmIdentifier) -> (r: Vec<u8>)
    requires
        alg.oid@.len() <= 0x40,
        match alg.parameters {
            Option::Some(p) => p.value@.len() <= 0x40,
            Option::None => true,
        },
    ensures
        r@ == algorithm_identifier_der(*alg),
        r@.len() <= 0x100,
{
    let mut inner: Vec<u8> = Vec::new();
    match tlv::write(&mut inner, 0xFFFF, 0x06, alg.oid.as_slice()) {
        Ok(_) => (),
        Err(_) => {
            proof {
                assert(false);
            }
        },
    }
    match &alg.parameters {
        Some(p) => {
            match tlv::write(&mut inner, 0xFFFF, p.tag, p.value.as_slice()) {
                Ok(_) => (),
                Err(_) => {
                    proof {
                        assert(false);
                    }
                },
            }
        },
        None => (),
    }
    let mut out: Vec<u8> = Vec::new();
    match tlv::write(&mut out, 0xFFFF, 0x30, inner.as_slice()) {
        Ok(_) => (),
        Err(_) => {
            proof {
                assert(false);
            }
        },
    }
    assert(out@ =~= algorithm_identifier_der(*alg));
    out
}

/// Encodes a `DigestInfo` to DER. The digest bound reflects the two-byte
/// long-form length ceiling of the codec; a real digest is tens of bytes.
pub fn encode_digest_info(info: &DigestInfo) -> (r: Vec<u8>)
    requires
        info.digest_algorithm.oid@.len() <= 0x40,
        match info.digest_algorithm.parameters {
            Option::Some(p) => p.value@.len() <= 0x40,
            Option::None => true,
        },
        info.digest@.len() <= 0xFE00,
    ensures
        r@ == digest_info_der(*info),
{
    let mut inner = encode_algorithm_identifier(&info.digest_algorithm);
    match tlv::write(&mut inner, 0xFFFF, 0x04, info.digest.as_slice()) {
        Ok(_) => (),
        Err(_) => {
            proof {
                assert(false);
            }
        },
    }
    let mut out: Vec<u8> = Vec::new();
    match tlv::write(&mut out, 0xFFFF, 0x30, inner.as_slice()) {
        Ok(_) => (),
        Err(_) => {
            proof {
                assert(false);
            }
        },
    }
    assert(out@ =~= digest_info_der(*info));
    out
}

/// Builds the EMSA-PKCS1-v1.5 encoded message of total length `em_len`
/// around the encoded `DigestInfo` `t`. The block is exactly `em_len`
/// bytes: `0x00 0x01`, then `em_len - t.len() - 3` bytes of `0xFF`, one
/// `0x00`, then `t`. A modulus too small to hold the digest structure is
/// rejected, never truncated.
pub fn build_emsa_pkcs1_v15(t: &[u8], em_len: usize) -> (r: Result<Vec<u8>, Error>)
    ensures
        match r {
            Ok(em) => {
                &&& em_len >= t@.len() + 3
                &&& em@ == emsa_pkcs1_v15(t@, em_len as nat)
                &&& em@.len() == em_len
            },
            Err(e) => {
                &&& e == Error::AlgorithmError
                &&& em_len < t@.len() + 3
            },
        },
{
    if em_len < 3 || t.len() > em_len - 3 {
        return Err(Error::AlgorithmError);
    }
    let pad: usize = em_len - t.len() - 3;
    let mut em: Vec<u8> = Vec::new();
    em.push(0x00);
    em.push(0x01);
    let mut i: usize = 0;
    while i < pad
        invariant
            i <= pad,
            em@ == seq![0x00u8, 0x01u8] + Seq::<u8>::new(i as nat, |j: int| 0xffu8),
        decreases pad - i,
    {
        em.push(0xff);
        assert(em@ =~= seq![0x00u8, 0x01u8] + Seq::<u8>::new((i + 1) as nat, |j: int| 0xffu8));
        i = i + 1;
    }
    em.push(0x00);
    let ghost before_t = em@;
    let mut k: usize = 0;
    while k < t.len()
        invariant
            k <= t@.len(),
            em@ == before_t + t@.subrange(0, k as int),
        decreases t@.len() - k,
    {
        em.push(t[k]);
        assert(em@ =~= before_t + t@.subrange(0, k + 1));
        k = k + 1;
    }
    assert(t@.subrange(0, t@.len() as int) =~= t@);
    assert(em@ =~= emsa_pkcs1_v15(t@, em_len as nat));
    Ok(em)
}

/// Builds the full preimage handed to the hardware when signing with an
/// RSA key whose modulus is `em_len` bytes: the SHA-256 `DigestInfo`
/// around the digest, padded as EMSA-PKCS1-v1.5 to exactly `em_len`.
pub fn rsa_signing_preimage(digest: &[u8], em_len: usize) -> (r: Result<Vec<u8>, Error>)
    requires
        digest@.len() <= 0xFE00,
    ensures
        ({
            let t = sha256_digest_info_der(digest@);
            match r {
                Ok(em) => {
                    &&& em_len >= t.len() + 3
                    &&& em@ == emsa_pkcs1_v15(t, em_len as nat)
                    &&& em@.len() == em_len
                },
                Err(e) => {
                    &&& e == Error::AlgorithmError
                    &&& em_len < t.len() + 3
                },
            }
        }),
{
    let info = DigestInfo {
        digest_algorithm: AlgorithmIdentifier {
            oid: sha256_oid(),
            parameters: Some(AnyParameter { tag: 0x05, value: Vec::new() }),
        },
        digest: copy_bytes(digest),
    };
    let t = encode_digest_info(&info);
    assert(digest_info_der(info) =~= sha256_digest_info_der(digest@));
    build_emsa_pkcs1_v15(t.as_slice(), em_len)
}

/// What the signing step hands to the hardware for a descriptor and a
/// SHA-256 digest: for an EC key the digest itself; for an RSA key the
/// EMSA-PKCS1-v1.5 block sized to the modulus; together with the resolved
/// algorithm. Every unsupported or inconsistent key is an `AlgorithmError`.
pub open spec fn signing_plan(descriptor: PublicKeyDescriptor, digest: Seq<u8>) -> Result<
    (Seq<u8>, AlgorithmId),
    Error,
> {
    if descriptor.algorithm.oid@ == oid_ec_public_key() {
        match resolved_algorithm(descriptor) {
            Ok(alg) => Ok((digest, alg)),
            Err(e) => Err(e),
        }
    } else {
        match rsa_modulus_len_of(descriptor.subject_public_key@) {
            Option::Some(em_len) => match resolved_algorithm(descriptor) {
                Ok(alg) => {
                    let t = sha256_digest_info_der(digest);
                    if em_len >= t.len() + 3 {
                        Ok((emsa_pkcs1_v15(t, em_len), alg))
                    } else {
                        Err(Error::AlgorithmError)
                    }
                },
                Err(e) => Err(e),
            },
            Option::None => Err(Error::AlgorithmError),
        }
    }
}

/// Computes the preimage that the hardware signs, and the algorithm to
/// sign it with: the decision core of the signing capability. The caller
/// hashes the message to `digest` beforehand and carries the preimage to
/// the card's raw private-key primitive afterwards.
pub fn signing_preimage(descriptor: &PublicKeyDescriptor, digest: &[u8]) -> (r: Result<
    (Vec<u8>, AlgorithmId),
    Error,
>)
    requires
        digest@.len() <= 0xFE00,
    ensures
        match r {
            Ok(p) => signing_plan(*descriptor, digest@) matches Ok(q) && q.0 == p.0@ && q.1 == p.1,
            Err(e) => signing_plan(*descriptor, digest@) == Result::<(Seq<u8>, AlgorithmId), Error>::Err(e),
        },
{
    let ec_oid = ec_public_key_oid();
    if bytes_eq(descriptor.algorithm.oid.as_slice(), ec_oid.as_slice()) {
        match get_alg_id(descriptor) {
            Ok(alg) => Ok((copy_bytes(digest), alg)),
            Err(e) => Err(e),
        }
    } else {
        let em_len = match get_em_len(descriptor) {
            Ok(n) => n,
            Err(e) => {
                return Err(e);
            },
        };
        let alg = match get_alg_id(descriptor) {
            Ok(alg) => alg,
            Err(e) => {
                return Err(e);
            },
        };
        match rsa_signing_preimage(digest, em_len) {
            Ok(em) => Ok((em, alg)),
            Err(e) => Err(e),
        }
    }
}

/// The full algorithm identifier that certificates signed with this key
/// carry: the signature algorithm OID of the key with a NULL parameter.
pub fn signature_algorithm_identifier(descriptor: &PublicKeyDescriptor) -> (r: AlgorithmIdentifier)
    ensures
        r.oid@ == certificate_signature_oid(*descriptor),
        r.parameters matches Some(p) && p.tag == 0x05 && p.value@ == Seq::<u8>::empty(),
{
    AlgorithmIdentifier {
        oid: get_sig_alg_from_spki(descriptor),
        parameters: Some(AnyParameter { tag: 0x05, value: Vec::new() }),
    }
}

} // verus!
