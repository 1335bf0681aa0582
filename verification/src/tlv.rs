//! Tag/length/value codec over a fixed-capacity buffer.
//!
//! Each record is a one-byte tag, a BER definite length (short form below
//! 0x80, else a 0x81- or 0x82-prefixed long form), and the value bytes.

use vstd::prelude::*;

use crate::Error;

verus! {

/// Number of bytes of the length field that encodes a value length `n`.
pub open spec fn len_field_size(n: nat) -> nat {
    if n < 0x80 {
        1
    } else if n < 0x100 {
        2
    } else {
        3
    }
}

/// The length field that encodes a value length `n`, for `n < 0x10000`.
pub open spec fn len_encoding(n: nat) -> Seq<u8> {
    if n < 0x80 {
        seq![n as u8]
    } else if n < 0x100 {
        seq![0x81u8, n as u8]
    } else {
        seq![0x82u8, (n / 0x100) as u8, (n % 0x100) as u8]
    }
}

/// Total size of one encoded record with a value of length `n`.
pub open spec fn record_size(n: nat) -> nat {
    1 + len_field_size(n) + n
}

/// One encoded record: tag, length field, value.
pub open spec fn record_encoding(tag: u8, value: Seq<u8>) -> Seq<u8> {
    seq![tag] + len_encoding(value.len()) + value
}

/// What reading one record with the expected tag off the front of `buf`
/// yields: the value bytes, or nothing if the first byte is not `tag` or the
/// length field is malformed or runs past the end of `buf`. Trailing bytes
/// after the record are ignored.
pub open spec fn record_parse(buf: Seq<u8>, tag: u8) -> Option<Seq<u8>> {
    if buf.len() < 2 || buf[0] != tag {
        None
    } else if buf[1] < 0x80 {
        let n = buf[1] as int;
        if 2 + n <= buf.len() {
            Some(buf.subrange(2, 2 + n))
        } else {
            None
        }
    } else if buf[1] == 0x81 {
        if buf.len() < 3 {
            None
        } else {
            let n = buf[2] as int;
            if 3 + n <= buf.len() {
                Some(buf.subrange(3, 3 + n))
            } else {
                None
            }
        }
    } else if buf[1] == 0x82 {
        if buf.len() < 4 {
            None
        } else {
            let n = buf[2] as int * 0x100 + buf[3] as int;
            if 4 + n <= buf.len() {
                Some(buf.subrange(4, 4 + n))
            } else {
                None
            }
        }
    } else {
        None
    }
}

/// Reading a freshly written record back, with any trailing bytes behind it,
/// yields exactly the value that was written.
pub proof fn lemma_record_round_trip(tag: u8, value: Seq<u8>, rest: Seq<u8>)
    requires
        value.len() < 0x10000,
    ensures
        record_parse(record_encoding(tag, value) + rest, tag) == Some(value),
{
    let buf = record_encoding(tag, value) + rest;
    let n = value.len() as int;
    if n < 0x80 {
        assert(buf[0] == tag);
        assert(buf[1] == n as u8);
        assert(buf.subrange(2, 2 + n) =~= value);
    } else if n < 0x100 {
        assert(buf[0] == tag);
        assert(buf[1] == 0x81u8);
        assert(buf[2] == n as u8);
        assert(buf.subrange(3, 3 + n) =~= value);
    } else {
        assert(buf[0] == tag);
        assert(buf[1] == 0x82u8);
        assert(buf[2] == (n / 0x100) as u8);
        assert(buf[3] == (n % 0x100) as u8);
        assert(buf[2] as int * 0x100 + buf[3] as int == n);
        assert(buf.subrange(4, 4 + n) =~= value);
    }
}

/// Appends one record to `buf`, provided the result stays within `cap`
/// bytes, and returns the number of bytes appended. The two-byte long form
/// is the longest supported, so the capacity is bounded by 0xFFFF.
pub fn write(buf: &mut Vec<u8>, cap: usize, tag: u8, value: &[u8]) -> (r: Result<usize, Error>)
    requires
        cap <= 0xFFFF,
    ensures
        match r {
            Ok(written) => {
                &&& old(buf)@.len() + record_size(value@.len()) <= cap
                &&& written == record_size(value@.len())
                &&& final(buf)@ == old(buf)@ + record_encoding(tag, value@)
            },
            Err(e) => {
                &&& e == Error::BufferTooSmall
                &&& old(buf)@.len() + record_size(value@.len()) > cap
                &&& final(buf)@ == old(buf)@
            },
        },
{
    let n = value.len();
    if n > cap {
        return Err(Error::BufferTooSmall);
    }
    let len_size: usize = if n < 0x80 {
        1
    } else if n < 0x100 {
        2
    } else {
        3
    };
    let total = 1 + len_size + n;
    if buf.len() > cap || total > cap - buf.len() {
        return Err(Error::BufferTooSmall);
    }
    buf.push(tag);
    if n < 0x80 {
        buf.push(n as u8);
    } else if n < 0x100 {
        buf.push(0x81);
        buf.push(n as u8);
    } else {
        buf.push(0x82);
        buf.push((n / 0x100) as u8);
        buf.push((n % 0x100) as u8);
    }
    let ghost pre_value = buf@;
    let mut i: usize = 0;
    while i < n
        invariant
            i <= n,
            n == value@.len(),
            buf@ == pre_value + value@.subrange(0, i as int),
        decreases n - i,
    {
        buf.push(value[i]);
        assert(buf@ =~= pre_value + value@.subrange(0, i + 1));
        i = i + 1;
    }
    assert(value@.subrange(0, n as int) =~= value@);
    assert(buf@ =~= old(buf)@ + record_encoding(tag, value@));
    Ok(total)
}

/// Reads one record with the expected tag off the front of `buf` and returns
/// a copy of its value bytes; trailing bytes are ignored. Fails with
/// `InvalidObject` exactly where [`record_parse`] yields nothing.
pub fn parse_single(buf: &[u8], tag: u8) -> (r: Result<Vec<u8>, Error>)
    ensures
        match r {
            Ok(v) => record_parse(buf@, tag) == Some(v@),
            Err(e) => {
                &&& e == Error::InvalidObject
                &&& record_parse(buf@, tag) is None
            },
        },
{
    if buf.len() < 2 || buf[0] != tag {
        return Err(Error::InvalidObject);
    }
    let header: usize;
    let n: usize;
    if buf[1] < 0x80 {
        header = 2;
        n = buf[1] as usize;
    } else if buf[1] == 0x81 {
        if buf.len() < 3 {
            return Err(Error::InvalidObject);
        }
        header = 3;
        n = buf[2] as usize;
    } else if buf[1] == 0x82 {
        if buf.len() < 4 {
            return Err(Error::InvalidObject);
        }
        header = 4;
        n = (buf[2] as usize) * 0x100 + buf[3] as usize;
    } else {
        return Err(Error::InvalidObject);
    }
    if n > buf.len() - header {
        return Err(Error::InvalidObject);
    }
    let mut value: Vec<u8> = Vec::new();
    let mut i: usize = 0;
    while i < n
        invariant
            i <= n,
            2 <= header <= 4,
            n <= 0xFFFF,
            header + n <= buf@.len(),
            value@ == buf@.subrange(header as int, header + i),
        decreases n - i,
    {
        value.push(buf[header + i]);
        assert(value@ =~= buf@.subrange(header as int, header + i + 1));
        i = i + 1;
    }
    assert(record_parse(buf@, tag) == Some(buf@.subrange(header as int, header + n)));
    Ok(value)
}

} // verus!
