//! Card object codec: maps a certificate byte string plus a compression flag
//! to and from the wire format of the card's fixed-size object slots.
//!
//! The stored object is three TLV records in a row: the certificate under
//! tag 0x70, the one-byte compression flag under tag 0x71, and an
//! always-empty checksum trailer under tag 0xFE. The whole encoding must fit
//! in one object slot of [`CB_OBJ_MAX`] bytes.
//!
//! Fetching from and saving to the card happen outside this crate: the
//! functions here turn the bytes a fetch produced into the certificate, and
//! a certificate into the bytes to save.

use vstd::prelude::*;

use crate::Error;
use crate::tlv;

verus! {

/// Tag of the record that holds the certificate.
pub const TAG_CERT: u8 = 0x70;

/// Tag of the record that holds the compression flag.
pub const TAG_CERT_COMPRESS: u8 = 0x71;

/// Tag of the empty checksum trailer record.
pub const TAG_CERT_LRC: u8 = 0xFE;

/// Capacity of one card object slot in bytes.
pub const CB_OBJ_MAX: usize = 3063;

/// How a certificate is stored within a card object slot.
#[derive(Clone, Copy, Debug, Eq, PartialEq, Structural)]
pub enum CertInfo {
    /// The certificate is uncompressed.
    Uncompressed,
    /// The certificate is gzip-compressed.
    Gzip,
}

/// The byte that stands for a compression flag on the wire.
pub open spec fn cert_info_byte(info: CertInfo) -> u8 {
    match info {
        CertInfo::Uncompressed => 0x00,
        CertInfo::Gzip => 0x01,
    }
}

impl CertInfo {
    /// The wire byte of this flag.
    pub fn to_byte(&self) -> (r: u8)
        ensures
            r == cert_info_byte(*self),
    {
        match self {
            CertInfo::Uncompressed => 0x00,
            CertInfo::Gzip => 0x01,
        }
    }

    /// Reads a compression flag back from its wire byte; any byte other
    /// than 0x00 or 0x01 is a decode error.
    pub fn from_byte(value: u8) -> (r: Result<CertInfo, Error>)
        ensures
            match r {
                Ok(info) => value == cert_info_byte(info),
                Err(e) => e == Error::InvalidObject && value != 0x00 && value != 0x01,
            },
    {
        match value {
            0x00 => Ok(CertInfo::Uncompressed),
            0x01 => Ok(CertInfo::Gzip),
            _ => Err(Error::InvalidObject),
        }
    }
}

/// The stored object encoding of a certificate and its compression flag
/// byte: the certificate record, the flag record, and the empty trailer.
pub open spec fn stored_object(cert: Seq<u8>, info_byte: u8) -> Seq<u8> {
    tlv::record_encoding(TAG_CERT, cert) + tlv::record_encoding(
        TAG_CERT_COMPRESS,
        seq![info_byte],
    ) + tlv::record_encoding(TAG_CERT_LRC, seq![])
}

/// Size of the stored object encoding of a certificate of length `n`: its
/// record, plus three bytes of flag record and two of trailer.
pub open spec fn stored_object_size(n: nat) -> nat {
    tlv::record_size(n) + 5
}

/// What reading a slot yields, given what the fetch from the card produced:
/// nothing fetched reads as empty; fetched bytes that do not start with the
/// certificate tag are handed back unchanged (a legacy non-TLV object); a
/// malformed certificate record also reads as empty.
pub open spec fn read_outcome(fetched: Option<Seq<u8>>) -> Seq<u8> {
    match fetched {
        Option::None => seq![],
        Option::Some(buf) => {
            if buf.len() == 0 || buf[0] != TAG_CERT {
                buf
            } else {
                match tlv::record_parse(buf, TAG_CERT) {
                    Option::Some(cert) => cert,
                    Option::None => seq![],
                }
            }
        },
    }
}

/// Encodes the bytes to save into a slot: the stored object for a
/// certificate, or a zero-length object when `data` is absent (deletion).
/// Fails with `BufferTooSmall` exactly when the stored object would exceed
/// the slot capacity; nothing is handed out to be saved in that case.
pub fn write_certificate(data: Option<&[u8]>, certinfo: CertInfo) -> (r: Result<Vec<u8>, Error>)
    ensures
        match data {
            Option::None => r matches Ok(v) && v@ == Seq::<u8>::empty(),
            Option::Some(d) => {
                if stored_object_size(d@.len()) <= CB_OBJ_MAX {
                    r matches Ok(v) && v@ == stored_object(d@, cert_info_byte(certinfo))
                } else {
                    r == Result::<Vec<u8>, Error>::Err(Error::BufferTooSmall)
                }
            },
        },
{
    let d = match data {
        Option::None => {
            return Ok(Vec::new());
        },
        Option::Some(d) => d,
    };
    let mut buf: Vec<u8> = Vec::new();
    match tlv::write(&mut buf, CB_OBJ_MAX, TAG_CERT, d) {
        Ok(_) => (),
        Err(e) => {
            return Err(e);
        },
    }
    let mut info_value: Vec<u8> = Vec::new();
    info_value.push(certinfo.to_byte());
    match tlv::write(&mut buf, CB_OBJ_MAX, TAG_CERT_COMPRESS, info_value.as_slice()) {
        Ok(_) => (),
        Err(e) => {
            return Err(e);
        },
    }
    let trailer_value: Vec<u8> = Vec::new();
    match tlv::write(&mut buf, CB_OBJ_MAX, TAG_CERT_LRC, trailer_value.as_slice()) {
        Ok(_) => (),
        Err(e) => {
            return Err(e);
        },
    }
    assert(info_value@ =~= seq![cert_info_byte(certinfo)]);
    assert(buf@ =~= stored_object(d@, cert_info_byte(certinfo)));
    Ok(buf)
}

/// Reads the certificate out of what a fetch from the card produced. A
/// failed fetch, and a present object whose certificate record is
/// malformed, both read as empty: the caller treats empty as "no
/// certificate provisioned". Bytes that do not start with the certificate
/// tag are handed back unchanged.
pub fn read_certificate(fetched: Option<Vec<u8>>) -> (r: Vec<u8>)
    ensures
        r@ == read_outcome(match fetched {
            Option::None => Option::<Seq<u8>>::None,
            Option::Some(b) => Option::Some(b@),
        }),
{
    let buf = match fetched {
        Option::None => {
            return Vec::new();
        },
        Option::Some(b) => b,
    };
    if buf.len() == 0 || buf[0] != TAG_CERT {
        return buf;
    }
    match tlv::parse_single(buf.as_slice(), TAG_CERT) {
        Ok(cert) => cert,
        Err(_) => Vec::new(),
    }
}

/// Reads the certificate out of what a fetch produced, and turns the empty
/// outcome into `InvalidObject`, for callers to whom a missing certificate
/// is an error.
pub fn read(fetched: Option<Vec<u8>>) -> (r: Result<Vec<u8>, Error>)
    ensures
        ({
            let outcome = read_outcome(match fetched {
                Option::None => Option::<Seq<u8>>::None,
                Option::Some(b) => Option::Some(b@),
            });
            match r {
                Ok(v) => v@ == outcome && outcome.len() > 0,
                Err(e) => e == Error::InvalidObject && outcome.len() == 0,
            }
        }),
{
    let buf = read_certificate(fetched);
    if buf.len() == 0 {
        return Err(Error::InvalidObject);
    }
    Ok(buf)
}

/// Encodes the bytes that store the given certificate in a slot.
pub fn write(certinfo: CertInfo, cert: &[u8]) -> (r: Result<Vec<u8>, Error>)
    ensures
        if stored_object_size(cert@.len()) <= CB_OBJ_MAX {
            r matches Ok(v) && v@ == stored_object(cert@, cert_info_byte(certinfo))
        } else {
            r == Result::<Vec<u8>, Error>::Err(Error::BufferTooSmall)
        },
{
    write_certificate(Some(cert), certinfo)
}

/// Encodes the bytes that delete the certificate of a slot: a zero-length
/// object is saved in its place.
pub fn delete() -> (r: Vec<u8>)
    ensures
        r@ == Seq::<u8>::empty(),
{
    match write_certificate(None, CertInfo::Uncompressed) {
        Ok(v) => v,
        Err(_) => Vec::new(),
    }
}

/// Round-trip of the card object codec: a certificate that fits in a slot,
/// written with any compression flag byte, reads back as exactly the bytes
/// that were written.
pub proof fn lemma_stored_object_round_trip(cert: Seq<u8>, info_byte: u8)
    requires
        stored_object_size(cert.len()) <= CB_OBJ_MAX,
    ensures
        read_outcome(Some(stored_object(cert, info_byte))) == cert,
{
    let rest = tlv::record_encoding(TAG_CERT_COMPRESS, seq![info_byte]) + tlv::record_encoding(
        TAG_CERT_LRC,
        seq![],
    );
    let stored = stored_object(cert, info_byte);
    assert(stored =~= tlv::record_encoding(TAG_CERT, cert) + rest);
    tlv::lemma_record_round_trip(TAG_CERT, cert, rest);
    assert(stored[0] == TAG_CERT);
}

/// Deletion round-trip: the zero-length object that a deletion saves reads
/// back as empty.
pub proof fn lemma_deleted_object_reads_empty()
    ensures
        read_outcome(Some(seq![])) == Seq::<u8>::empty(),
{
}

} // verus!
