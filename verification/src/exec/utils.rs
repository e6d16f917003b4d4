use vstd::prelude::*;

verus! {

/// The number that the binary-coded decimal byte `bcd` stands for: ten times
/// its high nibble plus its low nibble
pub open spec fn bcd_value(bcd: int) -> int {
    ((bcd / 16) % 16) * 10 + bcd % 16
}

/// The decimal value in `0..=99` that `n` stands for, once a carry out of
/// the hundreds is dropped and a borrow is wrapped around
pub open spec fn bcd_wrapped(n: int) -> int {
    let v = if n > 99 {
        n - 100
    } else {
        n
    };
    if v < 0 {
        v + 100
    } else {
        v
    }
}

/// The binary-coded decimal byte for `n`, as `int_to_bcd` encodes it
pub open spec fn bcd_encoding(n: int) -> int {
    16 * (bcd_wrapped(n) / 10) + bcd_wrapped(n) % 10
}

/// True when `int_to_bcd` accepts `n`: a decimal result from -99 to 199
pub open spec fn bcd_encodable(n: int) -> bool {
    -99 <= n <= 199
}

/// Reads a binary-coded decimal byte
///
/// Only the low byte of `bcd` counts: its high nibble is read as tens and its
/// low nibble as units.
pub fn bcd_to_int(bcd: isize) -> (r: isize)
    ensures
        r == ((bcd & 0xF0) >> 4) * 10 + (bcd & 0x0F),
        0 <= bcd ==> r == bcd_value(bcd as int),
{
    let high = (bcd & 0xF0) >> 4;
    let low = bcd & 0x0F;
    proof {
        assert(0 <= high < 16 && 0 <= low < 16) by (bit_vector)
            requires
                high == (bcd & 0xF0) >> 4,
                low == bcd & 0x0F,
        ;
        if 0 <= bcd {
            assert(high == (bcd / 16) % 16 && low == bcd % 16) by (bit_vector)
                requires
                    0 <= bcd,
                    high == (bcd & 0xF0) >> 4,
                    low == bcd & 0x0F,
            ;
        }
    }
    high * 10 + low
}

/// Encodes a value as a binary-coded decimal byte, dropping a carry out of the
/// hundreds and wrapping a borrow around
pub fn int_to_bcd(value: isize) -> (r: isize)
    requires
        bcd_encodable(value as int),
    ensures
        r == bcd_encoding(value as int),
        0 <= r <= 0x99,
{
    let mut v = if value > 99 {
        value - 100
    } else {
        value
    };
    if v < 0 {
        // Wrap around
        v = v + 100;
    }
    let h = (v / 10) as u8;
    let l = (v % 10) as u8;
    (h * 16 + l) as isize
}

} // verus!
