use vstd::prelude::*;

verus! {

/// The four bytes of `x`, least significant first (what `u32::to_le_bytes` gives).
pub open spec fn le_bytes(x: u32) -> Seq<u8> {
    seq![
        (x % 0x100) as u8,
        (x / 0x100 % 0x100) as u8,
        (x / 0x1_0000 % 0x100) as u8,
        (x / 0x100_0000) as u8,
    ]
}

/// The number that four little-endian bytes stand for.
pub open spec fn le_value(b: Seq<u8>) -> int {
    b[0] + b[1] * 0x100 + b[2] * 0x1_0000 + b[3] * 0x100_0000
}

/// Appends the little-endian bytes of `x` to `out`.
pub fn push_le_u32(out: &mut Vec<u8>, x: u32)
    ensures
        final(out)@ == old(out)@ + le_bytes(x),
{
    let b0: u8 = (x & 0xff) as u8;
    let b1: u8 = ((x >> 8) & 0xff) as u8;
    let b2: u8 = ((x >> 16) & 0xff) as u8;
    let b3: u8 = (x >> 24) as u8;
    assert(x & 0xff == x % 0x100) by (bit_vector);
    assert((x >> 8) & 0xff == x / 0x100 % 0x100) by (bit_vector);
    assert((x >> 16) & 0xff == x / 0x1_0000 % 0x100) by (bit_vector);
    assert(x >> 24 == x / 0x100_0000) by (bit_vector);
    out.push(b0);
    out.push(b1);
    out.push(b2);
    out.push(b3);
    assert(out@ =~= old(out)@ + le_bytes(x));
}

/// Byte `i` of the encoding is digit `i` of `x` in base 256.
pub proof fn lemma_le_bytes_digits(x: u32)
    ensures
        le_bytes(x).len() == 4,
        le_bytes(x)[0] as int == x as int % 256,
        le_bytes(x)[1] as int == x as int / 256 % 256,
        le_bytes(x)[2] as int == x as int / 65536 % 256,
        le_bytes(x)[3] as int == x as int / 16777216,
        x as int == le_bytes(x)[0] + 256 * le_bytes(x)[1] + 65536 * le_bytes(x)[2] + 16777216
            * le_bytes(x)[3],
{
}

/// Reading back the bytes that `le_bytes` writes gives the number again: the
/// encoding of a setpoint loses nothing.
pub proof fn lemma_le_bytes_roundtrip(x: u32)
    ensures
        le_bytes(x).len() == 4,
        le_value(le_bytes(x)) == x,
{
}

} // verus!
