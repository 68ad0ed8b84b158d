//! Base-128 variable-length integers, the building block of the protobuf
//! wire format.

use vstd::prelude::*;

verus! {

/// The bytes of `v` in base 128, least significant group first, every byte
/// but the last carrying the continuation bit.
pub open spec fn varint_bytes(v: nat) -> Seq<u8>
    decreases v,
{
    if v < 128 {
        seq![v as u8]
    } else {
        seq![(v % 128 + 128) as u8] + varint_bytes(v / 128)
    }
}

/// Length of the varint at the front of `s`: the index of the first byte
/// without continuation bit among the first `limit` bytes, plus one.
pub open spec fn varint_len(s: Seq<u8>, limit: nat) -> Option<nat>
    decreases limit,
{
    if s.len() == 0 || limit == 0 {
        None
    } else if s[0] < 128 {
        Some(1)
    } else {
        match varint_len(s.drop_first(), (limit - 1) as nat) {
            Some(n) => Some(n + 1),
            None => None,
        }
    }
}

/// Value of the first `n` bytes of `s` read as base-128 groups.
pub open spec fn varint_value(s: Seq<u8>, n: nat) -> nat
    decreases n,
{
    if n == 0 || s.len() == 0 {
        0
    } else {
        (s[0] % 128) as nat + 128 * varint_value(s.drop_first(), (n - 1) as nat)
    }
}

/// The varint at the front of `s` with its length. A varint has at most ten
/// bytes, and a tenth byte above one would overflow 64 bits.
pub open spec fn varint_parse(s: Seq<u8>) -> Option<(u64, nat)> {
    match varint_len(s, 10) {
        Some(n) => if n == 10 && s[9] >= 2 {
            None
        } else {
            Some((varint_value(s, n) as u64, n))
        },
        None => None,
    }
}

/// Appends the varint of `value` to `buf`.
///
/// Trusted: calls `prost::encoding::encode_varint`, which writes the low
/// seven bits of the value with the continuation bit while the value is 128
/// or more, shifts by seven, and ends with the remaining byte.
#[verifier::external_body]
pub(crate) fn encode_varint(value: u64, buf: &mut Vec<u8>)
    ensures
        final(buf)@ == old(buf)@ + varint_bytes(value as nat),
{
    prost::encoding::encode_varint(value, buf);
}

/// Reads the varint at the front of `bytes`; returns its value and the
/// number of bytes that follow it, or `None` where no varint stands there.
///
/// Trusted: calls `prost::encoding::decode_varint`, which reads groups of
/// seven bits up to the first byte below 128, gives up after ten bytes or at
/// the end of the input, and rejects a tenth byte of two or more.
#[verifier::external_body]
pub(crate) fn decode_varint(bytes: &[u8]) -> (r: Option<(u64, usize)>)
    ensures
        match varint_parse(bytes@) {
            Some((v, n)) => n <= bytes@.len() && r == Some((v, (bytes@.len() - n) as usize)),
            None => r.is_none(),
        },
{
    let mut rest = bytes;
    match prost::encoding::decode_varint(&mut rest) {
        Ok(v) => Some((v, rest.len())),
        Err(_) => None,
    }
}

/// A varint is never empty and never longer than the input or ten bytes.
pub proof fn lemma_varint_len_bounds(s: Seq<u8>, limit: nat)
    ensures
        varint_len(s, limit) matches Some(n) ==> 1 <= n <= limit && n <= s.len() && s[n - 1] < 128,
    decreases limit,
{
    if s.len() == 0 || limit == 0 {
    } else if s[0] < 128 {
    } else {
        lemma_varint_len_bounds(s.drop_first(), (limit - 1) as nat);
    }
}

/// `128^n`.
pub open spec fn pow128(n: nat) -> nat
    decreases n,
{
    if n == 0 {
        1
    } else {
        128 * pow128((n - 1) as nat)
    }
}

/// The encoding of a value below `128^k` has at most `k` bytes (and at least one).
pub proof fn lemma_varint_bytes_len(v: nat, k: nat)
    requires
        k >= 1,
        v < pow128(k),
    ensures
        1 <= varint_bytes(v).len() <= k,
    decreases v,
{
    if v < 128 {
    } else {
        if k == 1 {
            assert(pow128(1) == 128 * pow128(0));
        } else {
            assert(pow128(k) == 128 * pow128((k - 1) as nat));
            lemma_varint_bytes_len(v / 128, (k - 1) as nat);
        }
    }
}

/// Reading back what `varint_bytes` wrote gives the value and the length
/// written, whatever follows; stated for the reader's two halves.
pub proof fn lemma_varint_read_back(v: nat, rest: Seq<u8>, limit: nat)
    requires
        varint_bytes(v).len() <= limit,
    ensures
        varint_len(varint_bytes(v) + rest, limit) == Some(varint_bytes(v).len()),
        varint_value(varint_bytes(v) + rest, varint_bytes(v).len()) == v,
        v >= 128 ==> (varint_bytes(v) + rest)[varint_bytes(v).len() - 1] == varint_bytes(v).last(),
    decreases v,
{
    let s = varint_bytes(v) + rest;
    if v < 128 {
        assert(s[0] == v as u8);
        assert(varint_value(s.drop_first(), 0) == 0);
    } else {
        let tail = varint_bytes(v / 128);
        assert(s[0] == (v % 128 + 128) as u8);
        assert(s.drop_first() =~= tail + rest);
        lemma_varint_read_back(v / 128, rest, (limit - 1) as nat);
        assert(s[0] % 128 == v % 128);
    }
}

/// The last byte of a ten-byte encoding of a 64-bit value is one.
pub proof fn lemma_varint_tenth_byte(v: nat, k: nat)
    requires
        1 <= k <= 10,
        v < 2 * pow128((k - 1) as nat),
        varint_bytes(v).len() == k,
    ensures
        varint_bytes(v).last() < 2,
    decreases k,
{
    if v < 128 {
        if k > 1 {
            assert(varint_bytes(v).len() == 1);
        }
    } else {
        assert(varint_bytes(v) =~= seq![(v % 128 + 128) as u8] + varint_bytes(v / 128));
        assert(varint_bytes(v).last() == varint_bytes(v / 128).last());
        if k == 1 {
            assert(false);
        } else {
            assert(pow128((k - 1) as nat) == 128 * pow128((k - 2) as nat));
            lemma_varint_tenth_byte(v / 128, (k - 1) as nat);
        }
    }
}

/// Writing a 64-bit value and reading it back returns the value and the
/// number of bytes written, whatever follows them.
pub proof fn lemma_varint_round_trip(v: u64, rest: Seq<u8>)
    ensures
        1 <= varint_bytes(v as nat).len() <= 10,
        varint_parse(varint_bytes(v as nat) + rest) == Some((v, varint_bytes(v as nat).len())),
{
    let n = v as nat;
    let s = varint_bytes(n) + rest;
    assert(pow128(10) > u64::MAX && 2 * pow128(9) > u64::MAX && pow128(9) <= u64::MAX) by {
        reveal_with_fuel(pow128, 11);
    }
    lemma_varint_bytes_len(n, 10);
    lemma_varint_read_back(n, rest, 10);
    if varint_bytes(n).len() == 10 {
        lemma_varint_tenth_byte(n, 10);
        assert(n >= 128);
        assert(s[9] == varint_bytes(n).last());
    }
}

/// What the reader accepts lies within the input.
pub proof fn lemma_varint_parse_bounds(s: Seq<u8>)
    ensures
        varint_parse(s) matches Some((v, n)) ==> 1 <= n <= 10 && n <= s.len(),
{
    lemma_varint_len_bounds(s, 10);
}

} // verus!
