//! RFC 4226 dynamic truncation: reduction of a 20-byte HMAC digest to a
//! 6-digit decimal code.

use vstd::prelude::*;
use vstd::arithmetic::div_mod::lemma_mod_bound;

verus! {

/// The dynamic-truncation offset: the low nibble of the digest's last byte.
pub open spec fn dt_offset(d: Seq<u8>) -> int {
    (d[19] & 0x0f) as int
}

/// The four bytes dynamic truncation extracts from a digest: the byte at the
/// offset with its high bit cleared, then the three bytes following it.
pub open spec fn truncated_bytes(d: Seq<u8>) -> Seq<u8> {
    let o = dt_offset(d);
    seq![d[o] & 0x7f, d[o + 1], d[o + 2], d[o + 3]]
}

/// The value of four bytes read as one big-endian 32-bit integer.
pub open spec fn be32_val(b: Seq<u8>) -> int {
    b[0] * 0x1000000 + b[1] * 0x10000 + b[2] * 0x100 + b[3]
}

/// The 6-digit code a 20-byte digest reduces to: the big-endian value of the
/// truncated bytes, modulo one million.
pub open spec fn code_of_digest(d: Seq<u8>) -> int {
    be32_val(truncated_bytes(d)) % 1000000
}

/// The truncation offset is computed from the final byte's low nibble and
/// always lies in [0, 15], so the four extracted bytes lie at indices no
/// greater than 19: truncation never reads past the end of a 20-byte digest.
pub proof fn lemma_offset_in_bounds(d: Seq<u8>)
    requires
        d.len() == 20,
    ensures
        0 <= dt_offset(d) <= 15,
        dt_offset(d) + 3 <= 19,
{
    let b = d[19];
    assert(b & 0x0f <= 15) by (bit_vector);
}

/// Every 20-byte digest derives to a code in [0, 999999]. The code is a
/// function of the digest alone: `code_of_digest` is a mathematical function,
/// so equal digests always give equal codes.
pub proof fn lemma_code_in_range(d: Seq<u8>)
    requires
        d.len() == 20,
    ensures
        0 <= code_of_digest(d) <= 999999,
{
    lemma_mod_bound(be32_val(truncated_bytes(d)), 1000000);
}

/// RFC 4226 dynamic truncation: selects four bytes of a 20-byte digest at the
/// offset given by the last byte's low nibble, clearing the first selected
/// byte's high bit.
pub fn dynamic_truncation(digest: &Vec<u8>) -> (w: Vec<u8>)
    requires
        digest@.len() == 20,
    ensures
        w@ == truncated_bytes(digest@),
        w@.len() == 4,
{
    let last = digest[19];
    proof {
        assert(last & 0x0f <= 15) by (bit_vector);
    }
    let offset: usize = (last & 0x0f) as usize;
    let mut w: Vec<u8> = Vec::new();
    w.push(digest[offset] & 0x7f);
    w.push(digest[offset + 1]);
    w.push(digest[offset + 2]);
    w.push(digest[offset + 3]);
    proof {
        assert(w@ =~= truncated_bytes(digest@));
    }
    w
}

/// Reads four bytes as one big-endian unsigned 32-bit integer.
pub fn str_to_num(w: &Vec<u8>) -> (n: u32)
    requires
        w@.len() == 4,
    ensures
        n == be32_val(w@),
{
    let b0 = w[0];
    let b1 = w[1];
    let b2 = w[2];
    let b3 = w[3];
    let mut result: u32 = 0x00_00_00_00_u32;
    result |= b0 as u32;
    result = (result << 8) | (b1 as u32);
    result = (result << 8) | (b2 as u32);
    result = (result << 8) | (b3 as u32);
    proof {
        assert(((((0x00_00_00_00_u32 | (b0 as u32)) << 8) | (b1 as u32)) << 8 | (b2 as u32)) << 8
            | (b3 as u32) == (b0 as u32) * 0x1000000 + (b1 as u32) * 0x10000 + (b2 as u32) * 0x100
            + (b3 as u32)) by (bit_vector);
    }
    result
}

/// Derives the 6-digit code from a 20-byte HMAC digest: dynamic truncation,
/// big-endian assembly, then reduction modulo one million. Total over all
/// 20-byte digests; equal digests give equal codes.
pub fn derive_code(digest: &Vec<u8>) -> (c: u32)
    requires
        digest@.len() == 20,
    ensures
        c == code_of_digest(digest@),
        c <= 999999,
{
    let w = dynamic_truncation(digest);
    let n = str_to_num(&w);
    n % 1000000
}

} // verus!
