//! End-to-end issuance: a self-signed certificate is driven through the
//! standard certificate builder with the library deciding the signature
//! algorithm and constructing the signing preimage, while the raw
//! private-key operation of the card is simulated in software.

use std::str::FromStr;
use std::time::Duration;

use der::asn1::{BitString, UtcTime};
use der::{Decode, Encode, Tagged};
use rsa::traits::{PrivateKeyParts, PublicKeyParts};
use rsa::{BigUint, Pkcs1v15Sign, RsaPrivateKey, RsaPublicKey};

/// DER prefix of a SHA-256 `DigestInfo`, as PKCS#1 v1.5 verification
/// expects it in front of the digest.
const SHA256_PREFIX: [u8; 19] = [
    0x30, 0x31, 0x30, 0x0d, 0x06, 0x09, 0x60, 0x86, 0x48, 0x01, 0x65, 0x03, 0x04, 0x02, 0x01,
    0x05, 0x00, 0x04, 0x20,
];

fn pkcs1v15_sha256() -> Pkcs1v15Sign {
    Pkcs1v15Sign { hash_len: Some(32), prefix: SHA256_PREFIX.to_vec().into_boxed_slice() }
}
use sha2::{Digest, Sha256};
use signature::{Keypair, Signer};
use spki::{
    AlgorithmIdentifierOwned, DecodePublicKey, Document, DynSignatureAlgorithmIdentifier,
    EncodePublicKey, SignatureBitStringEncoding, SubjectPublicKeyInfoOwned,
};
use x509_cert::builder::{Builder, CertificateBuilder, Profile};
use x509_cert::name::Name;
use x509_cert::serial_number::SerialNumber;
use p256::ecdsa::signature::hazmat::PrehashSigner;
use p256::ecdsa::signature::Verifier;
use x509_cert::time::{Time, Validity};

use yubikey::algorithm::{AlgorithmId, AlgorithmIdentifier, AnyParameter, PublicKeyDescriptor};
use yubikey::issuer::{validity_window, TEN_YEARS_SECS};
use yubikey::signing::signing_preimage;

fn descriptor_from_spki(spki: &SubjectPublicKeyInfoOwned) -> PublicKeyDescriptor {
    PublicKeyDescriptor {
        algorithm: AlgorithmIdentifier {
            oid: spki.algorithm.oid.as_bytes().to_vec(),
            parameters: spki
                .algorithm
                .parameters
                .as_ref()
                .map(|p| AnyParameter { tag: p.tag().octet(), value: p.value().to_vec() }),
        },
        subject_public_key: spki.subject_public_key.raw_bytes().to_vec(),
    }
}

fn library_algorithm_identifier(descriptor: &PublicKeyDescriptor) -> AlgorithmIdentifierOwned {
    let alg = yubikey::signing::signature_algorithm_identifier(descriptor);
    AlgorithmIdentifierOwned {
        oid: der::asn1::ObjectIdentifier::from_bytes(&alg.oid).unwrap(),
        parameters: Some(der::Any::new(der::Tag::Null, vec![]).unwrap()),
    }
}

fn test_validity() -> Validity {
    // A fixed issuance instant keeps the test deterministic; the window is
    // the library's default of ten years.
    let now_secs: u64 = 1_700_000_000;
    let (not_before, not_after) = validity_window(now_secs, None);
    assert_eq!(not_after - not_before, TEN_YEARS_SECS);
    Validity {
        not_before: Time::UtcTime(
            UtcTime::from_unix_duration(Duration::from_secs(not_before)).unwrap(),
        ),
        not_after: Time::UtcTime(
            UtcTime::from_unix_duration(Duration::from_secs(not_after)).unwrap(),
        ),
    }
}

struct RawSignature(Vec<u8>);

impl SignatureBitStringEncoding for RawSignature {
    fn to_bitstring(&self) -> der::Result<BitString> {
        BitString::new(0, self.0.clone())
    }
}

#[derive(Clone)]
struct SpkiVerifyingKey {
    spki: SubjectPublicKeyInfoOwned,
}

impl EncodePublicKey for SpkiVerifyingKey {
    fn to_public_key_der(&self) -> spki::Result<Document> {
        Ok(Document::try_from(self.spki.to_der()?)?)
    }
}

/// Stands in for the card: holds the RSA private key that real hardware
/// would keep, and performs only the raw modular exponentiation on the
/// preimage the library constructed.
struct SimulatedRsaSigner {
    key: RsaPrivateKey,
    spki: SubjectPublicKeyInfoOwned,
    descriptor: PublicKeyDescriptor,
    expected_algorithm: AlgorithmId,
}

impl Keypair for SimulatedRsaSigner {
    type VerifyingKey = SpkiVerifyingKey;

    fn verifying_key(&self) -> SpkiVerifyingKey {
        SpkiVerifyingKey { spki: self.spki.clone() }
    }
}

impl DynSignatureAlgorithmIdentifier for SimulatedRsaSigner {
    fn signature_algorithm_identifier(&self) -> spki::Result<AlgorithmIdentifierOwned> {
        Ok(library_algorithm_identifier(&self.descriptor))
    }
}

impl Signer<RawSignature> for SimulatedRsaSigner {
    fn try_sign(&self, msg: &[u8]) -> Result<RawSignature, signature::Error> {
        let digest = Sha256::digest(msg);
        let (preimage, alg) =
            signing_preimage(&self.descriptor, &digest).map_err(|_| signature::Error::new())?;
        assert_eq!(alg, self.expected_algorithm);
        assert_eq!(preimage.len(), self.key.size());
        // The raw private-key operation the card would perform.
        let m = BigUint::from_bytes_be(&preimage);
        let s = m.modpow(self.key.d(), self.key.n());
        let mut sig = s.to_bytes_be();
        while sig.len() < self.key.size() {
            sig.insert(0, 0);
        }
        Ok(RawSignature(sig))
    }
}

fn self_signed_rsa_verifies(bits: usize, expected_algorithm: AlgorithmId) {
    let mut rng = rand::rngs::OsRng;
    let key = RsaPrivateKey::new(&mut rng, bits).unwrap();
    let public = RsaPublicKey::from(&key);
    let spki_der = public.to_public_key_der().unwrap();
    let spki = SubjectPublicKeyInfoOwned::from_der(spki_der.as_bytes()).unwrap();
    let descriptor = descriptor_from_spki(&spki);
    assert_eq!(yubikey::algorithm::get_alg_id(&descriptor), Ok(expected_algorithm));

    let signer = SimulatedRsaSigner { key, spki: spki.clone(), descriptor, expected_algorithm };

    let mut serial = [0x55u8; 20];
    serial[0] = 0x01;
    let builder = CertificateBuilder::new(
        Profile::Root,
        SerialNumber::new(&serial).unwrap(),
        test_validity(),
        Name::from_str("cn=testSubject").unwrap(),
        spki,
        &signer,
    )
    .unwrap();
    let cert = builder.build::<RawSignature>().unwrap();

    // The certificate's signature must validate against its own embedded
    // public key under SHA-256 / PKCS#1 v1.5.
    let tbs = cert.tbs_certificate.to_der().unwrap();
    let hash = Sha256::digest(&tbs).to_vec();
    let spki_buf = cert.tbs_certificate.subject_public_key_info.to_der().unwrap();
    let embedded = RsaPublicKey::from_public_key_der(&spki_buf).unwrap();
    embedded
        .verify(pkcs1v15_sha256(), &hash, cert.signature.as_bytes().unwrap())
        .expect("self-signed certificate signature failed to verify");

    // The validity window spans the default ten years.
    let not_before = cert.tbs_certificate.validity.not_before.to_unix_duration().as_secs();
    let not_after = cert.tbs_certificate.validity.not_after.to_unix_duration().as_secs();
    assert_eq!(not_after - not_before, TEN_YEARS_SECS);
}

#[test]
fn self_signed_rsa_2048_verifies() {
    self_signed_rsa_verifies(2048, AlgorithmId::Rsa2048);
}

#[test]
fn self_signed_rsa_1024_verifies() {
    self_signed_rsa_verifies(1024, AlgorithmId::Rsa1024);
}

/// Stands in for the card with an EC key: performs only the ECDSA
/// operation over the digest the library handed through.
struct SimulatedEcSigner {
    key: p256::ecdsa::SigningKey,
    spki: SubjectPublicKeyInfoOwned,
    descriptor: PublicKeyDescriptor,
}

impl Keypair for SimulatedEcSigner {
    type VerifyingKey = SpkiVerifyingKey;

    fn verifying_key(&self) -> SpkiVerifyingKey {
        SpkiVerifyingKey { spki: self.spki.clone() }
    }
}

impl DynSignatureAlgorithmIdentifier for SimulatedEcSigner {
    fn signature_algorithm_identifier(&self) -> spki::Result<AlgorithmIdentifierOwned> {
        Ok(library_algorithm_identifier(&self.descriptor))
    }
}

impl Signer<RawSignature> for SimulatedEcSigner {
    fn try_sign(&self, msg: &[u8]) -> Result<RawSignature, signature::Error> {
        let digest = Sha256::digest(msg);
        let (preimage, alg) =
            signing_preimage(&self.descriptor, &digest).map_err(|_| signature::Error::new())?;
        assert_eq!(alg, AlgorithmId::EccP256);
        // For an EC key the preimage is the digest itself.
        assert_eq!(preimage[..], digest[..]);
        let sig: p256::ecdsa::Signature = self.key.sign_prehash(&preimage)?;
        Ok(RawSignature(sig.to_der().as_bytes().to_vec()))
    }
}

#[test]
fn self_signed_ec_p256_verifies() {
    let mut rng = rand::rngs::OsRng;
    let key = p256::ecdsa::SigningKey::random(&mut rng);
    let spki_der = key.verifying_key().to_public_key_der().unwrap();
    let spki = SubjectPublicKeyInfoOwned::from_der(spki_der.as_bytes()).unwrap();
    let descriptor = descriptor_from_spki(&spki);
    assert_eq!(yubikey::algorithm::get_alg_id(&descriptor), Ok(AlgorithmId::EccP256));

    let signer = SimulatedEcSigner { key, spki: spki.clone(), descriptor };

    let mut serial = [0x66u8; 20];
    serial[0] = 0x01;
    let builder = CertificateBuilder::new(
        Profile::Root,
        SerialNumber::new(&serial).unwrap(),
        test_validity(),
        Name::from_str("cn=testSubject").unwrap(),
        spki,
        &signer,
    )
    .unwrap();
    let cert = builder.build::<RawSignature>().unwrap();

    // The embedded signature must be a valid ECDSA-SHA-256 signature over
    // the to-be-signed bytes under the embedded public key.
    let tbs = cert.tbs_certificate.to_der().unwrap();
    let verifying = p256::ecdsa::VerifyingKey::from_sec1_bytes(
        cert.tbs_certificate.subject_public_key_info.subject_public_key.as_bytes().unwrap(),
    )
    .unwrap();
    let sig = p256::ecdsa::Signature::from_der(cert.signature.as_bytes().unwrap()).unwrap();
    verifying
        .verify(&tbs, &sig)
        .expect("self-signed certificate signature failed to verify");
}
