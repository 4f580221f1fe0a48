//! Network-byte-order (big-endian) integer fields.
//!
//! Every length-prefix and numeric field in the supported protocols is an
//! unsigned big-endian integer. The spec functions here are the ground truth
//! for how such an integer looks on the wire; the executable readers and
//! writers are verified against them.

use vstd::arithmetic::div_mod::lemma_fundamental_div_mod_converse;
use vstd::prelude::*;

verus! {

/// The two big-endian octets of a 16-bit value, most significant first.
pub open spec fn spec_be16(v: u16) -> Seq<u8> {
    seq![(v / 0x100) as u8, (v % 0x100) as u8]
}

/// The four big-endian octets of a 32-bit value.
pub open spec fn spec_be32(v: u32) -> Seq<u8> {
    seq![
        (v / 0x100_0000) as u8,
        ((v / 0x1_0000) % 0x100) as u8,
        ((v / 0x100) % 0x100) as u8,
        (v % 0x100) as u8,
    ]
}

/// The eight big-endian octets of a 64-bit value.
pub open spec fn spec_be64(v: u64) -> Seq<u8> {
    spec_be32((v / 0x1_0000_0000) as u32) + spec_be32((v % 0x1_0000_0000) as u32)
}

/// The 16-bit value denoted by two big-endian octets.
pub open spec fn spec_be16_val(b0: u8, b1: u8) -> u16 {
    (b0 * 0x100 + b1) as u16
}

/// The 32-bit value denoted by four big-endian octets.
pub open spec fn spec_be32_val(b0: u8, b1: u8, b2: u8, b3: u8) -> u32 {
    (b0 * 0x100_0000 + b1 * 0x1_0000 + b2 * 0x100 + b3) as u32
}

/// The 64-bit value denoted by two 32-bit halves.
pub open spec fn spec_be64_val(hi: u32, lo: u32) -> u64 {
    (hi * 0x1_0000_0000 + lo) as u64
}

/// The octets of the 16-bit value denoted by two octets are those octets.
pub proof fn lemma_be16_bytes(b0: u8, b1: u8)
    ensures
        spec_be16(spec_be16_val(b0, b1)) == seq![b0, b1],
{
    let v = spec_be16_val(b0, b1) as int;
    lemma_fundamental_div_mod_converse(v, 0x100, b0 as int, b1 as int);
    assert(spec_be16(spec_be16_val(b0, b1)) =~= seq![b0, b1]);
}

/// The octets of the 32-bit value denoted by four octets are those octets.
pub proof fn lemma_be32_bytes(b0: u8, b1: u8, b2: u8, b3: u8)
    ensures
        spec_be32(spec_be32_val(b0, b1, b2, b3)) == seq![b0, b1, b2, b3],
{
    let v = spec_be32_val(b0, b1, b2, b3) as int;
    lemma_fundamental_div_mod_converse(
        v,
        0x100_0000,
        b0 as int,
        b1 * 0x1_0000 + b2 * 0x100 + b3,
    );
    lemma_fundamental_div_mod_converse(v, 0x1_0000, b0 * 0x100 + b1, b2 * 0x100 + b3);
    lemma_fundamental_div_mod_converse(b0 * 0x100 + b1, 0x100, b0 as int, b1 as int);
    lemma_fundamental_div_mod_converse(v, 0x100, b0 * 0x1_0000 + b1 * 0x100 + b2, b3 as int);
    lemma_fundamental_div_mod_converse(
        b0 * 0x1_0000 + b1 * 0x100 + b2,
        0x100,
        b0 * 0x100 + b1,
        b2 as int,
    );
    assert(spec_be32(spec_be32_val(b0, b1, b2, b3)) =~= seq![b0, b1, b2, b3]);
}

/// The octets of the 64-bit value denoted by two halves are their octets.
pub proof fn lemma_be64_halves(hi: u32, lo: u32)
    ensures
        spec_be64(spec_be64_val(hi, lo)) == spec_be32(hi) + spec_be32(lo),
{
    let v = spec_be64_val(hi, lo) as int;
    lemma_fundamental_div_mod_converse(v, 0x1_0000_0000, hi as int, lo as int);
}

/// Reading back the two octets of a 16-bit value yields the value.
pub proof fn lemma_be16_roundtrip(v: u16)
    ensures
        spec_be16_val(spec_be16(v)[0], spec_be16(v)[1]) == v,
{
}

/// Reading back the four octets of a 32-bit value yields the value.
pub proof fn lemma_be32_roundtrip(v: u32)
    ensures
        spec_be32_val(spec_be32(v)[0], spec_be32(v)[1], spec_be32(v)[2], spec_be32(v)[3]) == v,
{
    vstd::arithmetic::div_mod::lemma_fundamental_div_mod(v as int, 0x100);
    vstd::arithmetic::div_mod::lemma_fundamental_div_mod(v as int / 0x100, 0x100);
    vstd::arithmetic::div_mod::lemma_fundamental_div_mod(v as int / 0x1_0000, 0x100);
    vstd::arithmetic::div_mod::lemma_div_denominator(v as int, 0x100, 0x100);
    vstd::arithmetic::div_mod::lemma_div_denominator(v as int, 0x1_0000, 0x100);
}

/// Reading back the two halves of a 64-bit value yields the value.
pub proof fn lemma_be64_roundtrip(v: u64)
    ensures
        spec_be64_val((v / 0x1_0000_0000) as u32, (v % 0x1_0000_0000) as u32) == v,
{
    vstd::arithmetic::div_mod::lemma_fundamental_div_mod(v as int, 0x1_0000_0000);
}

/// Two values with the same big-endian octets are the same value.
pub proof fn lemma_be32_injective(x: u32, y: u32)
    ensures
        spec_be32(x) == spec_be32(y) ==> x == y,
{
    if spec_be32(x) == spec_be32(y) {
        lemma_be32_roundtrip(x);
        lemma_be32_roundtrip(y);
        assert(spec_be32(x)[0] == spec_be32(y)[0]);
        assert(spec_be32(x)[1] == spec_be32(y)[1]);
        assert(spec_be32(x)[2] == spec_be32(y)[2]);
        assert(spec_be32(x)[3] == spec_be32(y)[3]);
    }
}

/// Two values with the same big-endian octets are the same value.
pub proof fn lemma_be16_injective(x: u16, y: u16)
    ensures
        spec_be16(x) == spec_be16(y) ==> x == y,
{
    if spec_be16(x) == spec_be16(y) {
        lemma_be16_roundtrip(x);
        lemma_be16_roundtrip(y);
        assert(spec_be16(x)[0] == spec_be16(y)[0]);
        assert(spec_be16(x)[1] == spec_be16(y)[1]);
    }
}

/// Two values with the same big-endian octets are the same value.
pub proof fn lemma_be64_injective(x: u64, y: u64)
    ensures
        spec_be64(x) == spec_be64(y) ==> x == y,
{
    if spec_be64(x) == spec_be64(y) {
        assert(spec_be64(x).subrange(0, 4) =~= spec_be32((x / 0x1_0000_0000) as u32));
        assert(spec_be64(x).subrange(4, 8) =~= spec_be32((x % 0x1_0000_0000) as u32));
        assert(spec_be64(y).subrange(0, 4) =~= spec_be32((y / 0x1_0000_0000) as u32));
        assert(spec_be64(y).subrange(4, 8) =~= spec_be32((y % 0x1_0000_0000) as u32));
        lemma_be32_injective((x / 0x1_0000_0000) as u32, (y / 0x1_0000_0000) as u32);
        lemma_be32_injective((x % 0x1_0000_0000) as u32, (y % 0x1_0000_0000) as u32);
        lemma_be64_roundtrip(x);
        lemma_be64_roundtrip(y);
    }
}

/// Append the two big-endian octets of `v`.
pub fn write_be16(out: &mut Vec<u8>, v: u16)
    ensures
        final(out)@ == old(out)@ + spec_be16(v),
{
    out.push((v / 0x100) as u8);
    out.push((v % 0x100) as u8);
    assert(final(out)@ =~= old(out)@ + spec_be16(v));
}

/// Append the four big-endian octets of `v`.
pub fn write_be32(out: &mut Vec<u8>, v: u32)
    ensures
        final(out)@ == old(out)@ + spec_be32(v),
{
    out.push((v / 0x100_0000) as u8);
    out.push(((v / 0x1_0000) % 0x100) as u8);
    out.push(((v / 0x100) % 0x100) as u8);
    out.push((v % 0x100) as u8);
    assert(final(out)@ =~= old(out)@ + spec_be32(v));
}

/// Append the eight big-endian octets of `v`.
pub fn write_be64(out: &mut Vec<u8>, v: u64)
    ensures
        final(out)@ == old(out)@ + spec_be64(v),
{
    write_be32(out, (v / 0x1_0000_0000) as u32);
    write_be32(out, (v % 0x1_0000_0000) as u32);
    assert(final(out)@ =~= old(out)@ + spec_be64(v));
}

/// Read a 16-bit big-endian value at `pos`.
pub fn read_be16(buf: &[u8], pos: usize) -> (v: u16)
    requires
        pos + 2 <= buf.len(),
    ensures
        v == spec_be16_val(buf@[pos as int], buf@[pos + 1]),
        buf@.subrange(pos as int, pos + 2) == spec_be16(v),
{
    let b0 = buf[pos];
    let b1 = buf[pos + 1];
    let v: u16 = (b0 as u16) * 0x100 + (b1 as u16);
    proof {
        lemma_be16_bytes(b0, b1);
        assert(buf@.subrange(pos as int, pos + 2) =~= seq![b0, b1]);
    }
    v
}

/// Read a 32-bit big-endian value at `pos`.
pub fn read_be32(buf: &[u8], pos: usize) -> (v: u32)
    requires
        pos + 4 <= buf.len(),
    ensures
        v == spec_be32_val(buf@[pos as int], buf@[pos + 1], buf@[pos + 2], buf@[pos + 3]),
        buf@.subrange(pos as int, pos + 4) == spec_be32(v),
{
    let b0 = buf[pos];
    let b1 = buf[pos + 1];
    let b2 = buf[pos + 2];
    let b3 = buf[pos + 3];
    let v: u32 = (b0 as u32) * 0x100_0000 + (b1 as u32) * 0x1_0000 + (b2 as u32) * 0x100
        + (b3 as u32);
    proof {
        lemma_be32_bytes(b0, b1, b2, b3);
        assert(buf@.subrange(pos as int, pos + 4) =~= seq![b0, b1, b2, b3]);
    }
    v
}

/// Read a 64-bit big-endian value at `pos`.
pub fn read_be64(buf: &[u8], pos: usize) -> (v: u64)
    requires
        pos + 8 <= buf.len(),
    ensures
        buf@.subrange(pos as int, pos + 8) == spec_be64(v),
{
    let hi = read_be32(buf, pos);
    let lo = read_be32(buf, pos + 4);
    let v: u64 = (hi as u64) * 0x1_0000_0000 + (lo as u64);
    proof {
        lemma_be64_halves(hi, lo);
        assert(buf@.subrange(pos as int, pos + 8) =~= buf@.subrange(pos as int, pos + 4)
            + buf@.subrange(pos + 4, pos + 8));
    }
    v
}

} // verus!
