use vstd::prelude::*;

verus! {

/// An ASCII lower-case letter, `a` to `z`.
pub open spec fn is_ascii_lower(c: u8) -> bool {
    0x61 <= c <= 0x7a
}

/// The byte echoed back for `c`: lower-case ASCII letters become upper case,
/// every other byte is left as it is.
pub open spec fn upper_byte(c: u8) -> u8 {
    if is_ascii_lower(c) {
        (c - 0x20) as u8
    } else {
        c
    }
}

/// The bytes echoed back for `s`.
pub open spec fn upper_bytes(s: Seq<u8>) -> Seq<u8> {
    s.map_values(|c: u8| upper_byte(c))
}

/// The received bytes with each ASCII lower-case letter turned to upper case,
/// as the dongle echoes them back over USB.
pub fn uppercase_echo(received: &[u8]) -> (r: Vec<u8>)
    ensures
        r@ == upper_bytes(received@),
        r@.len() == received@.len(),
        forall|i: int|
            0 <= i < received@.len() ==> #[trigger] r@[i] == (if 0x61 <= received@[i] <= 0x7a {
                received@[i] - 0x20
            } else {
                received@[i] as int
            }),
{
    let mut out: Vec<u8> = Vec::new();
    let n = received.len();
    for i in 0..n
        invariant
            n == received@.len(),
            out@ == upper_bytes(received@.take(i as int)),
    {
        let mut c = received[i];
        if 0x61 <= c && c <= 0x7a {
            assert(0x61 <= c <= 0x7a ==> c & !0x20u8 == c - 0x20) by (bit_vector);
            c &= !0x20;
        }
        out.push(c);
        assert(received@.take(i + 1) =~= received@.take(i as int).push(received@[i as int]));
        assert(out@ =~= upper_bytes(received@.take(i + 1)));
    }
    assert(received@.take(n as int) =~= received@);
    out
}

/// Echoing twice is echoing once.
pub proof fn lemma_upper_idempotent(s: Seq<u8>)
    ensures
        upper_bytes(upper_bytes(s)) == upper_bytes(s),
{
    assert(upper_bytes(upper_bytes(s)) =~= upper_bytes(s));
}

/// Each received lower-case letter is echoed as its own upper-case letter
/// (32 below it, `a` as `A` up to `z` as `Z`); every other byte is echoed as
/// received.
pub proof fn lemma_upper_each_byte(s: Seq<u8>)
    ensures
        upper_bytes(s).len() == s.len(),
        forall|i: int|
            0 <= i < s.len() && 0x61 <= s[i] <= 0x7a ==> #[trigger] upper_bytes(s)[i] == s[i] - 0x20,
        forall|i: int|
            0 <= i < s.len() && !(0x61 <= s[i] <= 0x7a) ==> #[trigger] upper_bytes(s)[i] == s[i],
{
}

/// An echo holds no lower-case letter, is as long as what was received, and
/// differs from it only where a lower-case letter was received.
pub proof fn lemma_upper_shape(s: Seq<u8>)
    ensures
        upper_bytes(s).len() == s.len(),
        forall|i: int| 0 <= i < s.len() ==> !is_ascii_lower(#[trigger] upper_bytes(s)[i]),
        forall|i: int|
            0 <= i < s.len() && !is_ascii_lower(s[i]) ==> #[trigger] upper_bytes(s)[i] == s[i],
{
}

/// Where the dongle's write loop stands after one call of the serial port's
/// `write` on the bytes from `offset` to `count`: a write that took `n > 0`
/// bytes moves the offset on by `n`; a failed or empty write leaves it, and
/// the loop tries again.
pub fn advance_write_offset(offset: usize, count: usize, written: Option<usize>) -> (r: usize)
    requires
        offset <= count,
        written matches Some(n) ==> n <= count - offset,
    ensures
        r == (match written {
            Some(n) => offset + n,
            None => offset as int,
        }),
        offset <= r <= count,
{
    match written {
        Some(n) => {
            if n > 0 {
                offset + n
            } else {
                offset
            }
        },
        None => offset,
    }
}

} // verus!
