//! The binary wire format of event payloads: fields in declared order,
//! fixed-width little-endian integers, byte strings prefixed by a minimal
//! ULEB128 length, and no bytes left over.

use vstd::prelude::*;

verus! {

/// Sequence lengths above this bound are rejected by the wire format.
pub const MAX_SEQUENCE_LENGTH: u64 = 0x7fff_ffff;

/// Something in a payload did not follow the wire format: a truncated field,
/// a non-minimal or oversized length prefix, or bytes left over after the
/// last field.
#[derive(Debug, Clone, Copy, PartialEq, Eq, Structural)]
pub enum DecodeError {
    Malformed,
}

/// Minimal ULEB128 encoding of `n`: seven value bits per byte, least
/// significant first, the high bit marking continuation.
pub open spec fn uleb(n: nat) -> Seq<u8>
    decreases n,
{
    if n < 0x80 {
        seq![n as u8]
    } else {
        seq![((n % 0x80) + 0x80) as u8] + uleb(n / 0x80)
    }
}

/// Parses a ULEB128 value from the front of `s`, returning the value and the
/// number of bytes consumed. Only minimal encodings are accepted: after a
/// continuation byte, the remaining digits must encode a non-zero value.
pub open spec fn uleb_parse(s: Seq<u8>) -> Option<(nat, int)>
    decreases s.len(),
{
    if s.len() == 0 {
        None
    } else if s[0] < 0x80 {
        Some((s[0] as nat, 1))
    } else {
        match uleb_parse(s.skip(1)) {
            None => None,
            Some((v, k)) => if v == 0 {
                None
            } else {
                Some((((s[0] - 0x80) + v * 0x80) as nat, k + 1))
            },
        }
    }
}

/// Parses a byte-string length from the front of `s`: a minimal ULEB128
/// value no greater than `MAX_SEQUENCE_LENGTH`.
pub open spec fn length_parse(s: Seq<u8>) -> Option<(nat, int)> {
    match uleb_parse(s) {
        None => None,
        Some((v, k)) => if v <= MAX_SEQUENCE_LENGTH { Some((v, k)) } else { None },
    }
}

/// A minimal ULEB128 encoding parses back to the encoded value, whatever
/// follows it.
pub proof fn lemma_uleb_roundtrip(n: nat, rest: Seq<u8>)
    ensures
        uleb_parse(uleb(n) + rest) == Some((n, uleb(n).len() as int)),
    decreases n,
{
    if n < 0x80 {
        assert((uleb(n) + rest)[0] == n as u8);
    } else {
        lemma_uleb_roundtrip(n / 0x80, rest);
        assert((uleb(n) + rest).skip(1) =~= uleb(n / 0x80) + rest);
        assert((uleb(n) + rest)[0] == ((n % 0x80) + 0x80) as u8);
        assert(n / 0x80 > 0);
        assert(((n % 0x80) + 0x80) as u8 - 0x80 == n % 0x80);
        assert((n % 0x80) + (n / 0x80) * 0x80 == n);
    }
}

/// The value of a `u64` stored as eight little-endian bytes.
pub open spec fn u64_from_le(s: Seq<u8>) -> u64
    recommends
        s.len() == 8,
{
    (s[0] + s[1] * 0x100 + s[2] * 0x1_0000 + s[3] * 0x100_0000 + s[4] * 0x1_0000_0000
        + s[5] * 0x100_0000_0000 + s[6] * 0x1_0000_0000_0000 + s[7] * 0x100_0000_0000_0000) as u64
}

/// The eight little-endian bytes of `v`.
pub open spec fn u64_le(v: u64) -> Seq<u8> {
    seq![
        (v % 0x100) as u8,
        ((v / 0x100) % 0x100) as u8,
        ((v / 0x1_0000) % 0x100) as u8,
        ((v / 0x100_0000) % 0x100) as u8,
        ((v / 0x1_0000_0000) % 0x100) as u8,
        ((v / 0x100_0000_0000) % 0x100) as u8,
        ((v / 0x1_0000_0000_0000) % 0x100) as u8,
        (v / 0x100_0000_0000_0000) as u8,
    ]
}

/// The little-endian bytes of `v` store exactly `v`.
pub proof fn lemma_u64_le_roundtrip(v: u64)
    ensures
        u64_from_le(u64_le(v)) == v,
{
    assert(v % 0x100 + ((v / 0x100) % 0x100) * 0x100 + ((v / 0x1_0000) % 0x100) * 0x1_0000
        + ((v / 0x100_0000) % 0x100) * 0x100_0000 + ((v / 0x1_0000_0000) % 0x100) * 0x1_0000_0000
        + ((v / 0x100_0000_0000) % 0x100) * 0x100_0000_0000
        + ((v / 0x1_0000_0000_0000) % 0x100) * 0x1_0000_0000_0000
        + (v / 0x100_0000_0000_0000) * 0x100_0000_0000_0000 == v) by (bit_vector);
}

/// Reads a minimal ULEB128 length from `bytes` at `pos`.
///
/// Success pins the value and the position after it to the parse of the
/// remaining input; failure means that parse yields nothing, or a value
/// beyond `MAX_SEQUENCE_LENGTH`.
pub fn read_length(bytes: &[u8], pos: usize) -> (r: Result<(u64, usize), DecodeError>)
    requires
        pos <= bytes@.len(),
    ensures
        match r {
            Ok((v, p)) => {
                &&& length_parse(bytes@.skip(pos as int)) == Some((v as nat, p - pos))
                &&& pos < p <= bytes@.len()
            },
            Err(_) => length_parse(bytes@.skip(pos as int)) is None,
        },
    decreases bytes@.len() - pos,
{
    if pos == bytes.len() {
        return Err(DecodeError::Malformed);
    }
    let b = bytes[pos];
    if b < 0x80 {
        assert(bytes@.skip(pos as int)[0] == b);
        Ok((b as u64, pos + 1))
    } else {
        let ghost tail = bytes@.skip(pos as int);
        assert(tail[0] == b && b >= 0x80);
        assert(tail.skip(1) =~= bytes@.skip(pos as int + 1));
        match read_length(bytes, pos + 1) {
            Err(e) => {
                // An oversized suffix value forces an oversized total, so
                // pruning here agrees with the top-level length cap.
                proof {
                    match uleb_parse(tail.skip(1)) {
                        Some((v, k)) => {
                            if v != 0 {
                                assert(v > MAX_SEQUENCE_LENGTH);
                                assert(v * 0x80 >= v);
                            }
                        },
                        None => {},
                    }
                }
                Err(e)
            },
            Ok((v, p)) => {
                if v == 0 {
                    return Err(DecodeError::Malformed);
                }
                let total = (b - 0x80) as u64 + v * 0x80;
                if total > MAX_SEQUENCE_LENGTH {
                    return Err(DecodeError::Malformed);
                }
                Ok((total, p))
            },
        }
    }
}

/// Reads a `u64` stored as eight little-endian bytes at `pos`.
pub fn read_u64_le(bytes: &[u8], pos: usize) -> (r: Result<(u64, usize), DecodeError>)
    requires
        pos <= bytes@.len(),
    ensures
        match r {
            Ok((v, p)) => {
                &&& pos + 8 <= bytes@.len()
                &&& p == pos + 8
                &&& v == u64_from_le(bytes@.subrange(pos as int, pos + 8))
            },
            Err(_) => pos + 8 > bytes@.len(),
        },
{
    if bytes.len() - pos < 8 {
        return Err(DecodeError::Malformed);
    }
    let v: u64 = bytes[pos] as u64
        + bytes[pos + 1] as u64 * 0x100
        + bytes[pos + 2] as u64 * 0x1_0000
        + bytes[pos + 3] as u64 * 0x100_0000
        + bytes[pos + 4] as u64 * 0x1_0000_0000
        + bytes[pos + 5] as u64 * 0x100_0000_0000
        + bytes[pos + 6] as u64 * 0x1_0000_0000_0000
        + bytes[pos + 7] as u64 * 0x100_0000_0000_0000;
    proof {
        let s = bytes@.subrange(pos as int, pos + 8);
        assert(s[0] == bytes@[pos as int]);
        assert(s[1] == bytes@[pos as int + 1]);
        assert(s[2] == bytes@[pos as int + 2]);
        assert(s[3] == bytes@[pos as int + 3]);
        assert(s[4] == bytes@[pos as int + 4]);
        assert(s[5] == bytes@[pos as int + 5]);
        assert(s[6] == bytes@[pos as int + 6]);
        assert(s[7] == bytes@[pos as int + 7]);
    }
    Ok((v, pos + 8))
}

/// Copies `count` bytes starting at `pos` into a fresh vector.
pub fn read_bytes(bytes: &[u8], pos: usize, count: usize) -> (r: Vec<u8>)
    requires
        pos + count <= bytes@.len(),
    ensures
        r@ == bytes@.subrange(pos as int, pos + count),
{
    let n = bytes.len();
    let mut out: Vec<u8> = Vec::new();
    let mut i: usize = 0;
    while i < count
        invariant
            0 <= i <= count,
            n == bytes@.len(),
            pos + count <= n,
            out@ =~= bytes@.subrange(pos as int, pos + i),
        decreases count - i,
    {
        out.push(bytes[pos + i]);
        proof {
            assert(out@ =~= bytes@.subrange(pos as int, pos + i + 1));
        }
        i = i + 1;
    }
    out
}

} // verus!
