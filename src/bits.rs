//! Read-modify-write primitives on register words.

use vstd::prelude::*;

verus! {

/// Bit `i` of the 32-bit word `v` is one.
pub open spec fn bit_is_set(v: u32, i: u32) -> bool {
    (v >> i) & 1u32 == 1u32
}

/// Bit `i` of the 16-bit word `v` is one.
pub open spec fn bit16_is_set(v: u16, i: u16) -> bool {
    (v >> i) & 1u16 == 1u16
}

/// The `width` bits of `v` that start at bit `offset`, shifted down.
pub open spec fn field_of(v: u32, offset: u32, width: u32) -> u32 {
    (v >> offset) & ((1u32 << width) - 1u32) as u32
}

/// Bit `i` lies inside the field of `width` bits that starts at `offset`.
pub open spec fn in_field(i: u32, offset: u32, width: u32) -> bool {
    offset <= i && i < offset + width
}

/// The bits that a well-formed field of `width` bits at `offset` may occupy.
pub open spec fn field_fits(offset: u32, width: u32) -> bool {
    0 < width && width < 32 && offset + width <= 32
}

/// Replaces the field of `width` bits at `offset` in `reg` by `value`,
/// leaving every other bit as it was.
pub fn write_field(reg: u32, offset: u32, width: u32, value: u32) -> (r: u32)
    requires
        field_fits(offset, width),
        value < (1u32 << width),
    ensures
        r == (reg & !((((1u32 << width) - 1u32) as u32) << offset)) | (value << offset),
        field_of(r, offset, width) == value,
        forall|i: u32| i < 32 && !in_field(i, offset, width)
            ==> #[trigger] bit_is_set(r, i) == bit_is_set(reg, i),
{
    assert(1u32 << width >= 1u32) by (bit_vector)
        requires
            width < 32,
    ;
    let mask: u32 = ((1u32 << width) - 1u32) << offset;
    let r = (reg & !mask) | (value << offset);
    assert(field_of(r, offset, width) == value) by (bit_vector)
        requires
            0 < width && width < 32 && offset + width <= 32,
            value < (1u32 << width),
            r == (reg & !((((1u32 << width) - 1u32) as u32) << offset)) | (value << offset),
    ;
    assert forall|i: u32| i < 32 && !in_field(i, offset, width) implies #[trigger] bit_is_set(r, i)
        == bit_is_set(reg, i) by {
        assert((r >> i) & 1u32 == (reg >> i) & 1u32) by (bit_vector)
            requires
                0 < width && width < 32 && offset + width <= 32,
                value < (1u32 << width),
                i < 32,
                !(offset <= i && i < offset + width),
                r == (reg & !((((1u32 << width) - 1u32) as u32) << offset)) | (value << offset),
        ;
    }
    r
}

/// Sets bit `b` of `reg`, leaving the other 31 bits as they were.
pub fn set_bit(reg: u32, b: u32) -> (r: u32)
    requires
        b < 32,
    ensures
        r == reg | (1u32 << b),
        bit_is_set(r, b),
        forall|i: u32| i < 32 && i != b ==> #[trigger] bit_is_set(r, i) == bit_is_set(reg, i),
{
    let r = reg | (1u32 << b);
    assert((r >> b) & 1u32 == 1u32) by (bit_vector)
        requires
            b < 32,
            r == reg | (1u32 << b),
    ;
    assert forall|i: u32| i < 32 && i != b implies #[trigger] bit_is_set(r, i) == bit_is_set(
        reg,
        i,
    ) by {
        assert((r >> i) & 1u32 == (reg >> i) & 1u32) by (bit_vector)
            requires
                b < 32,
                i < 32,
                i != b,
                r == reg | (1u32 << b),
        ;
    }
    r
}

/// Clears bit `b` of the 16-bit `reg`, leaving the other 15 bits as they were.
pub fn clear_bit16(reg: u16, b: u16) -> (r: u16)
    requires
        b < 16,
    ensures
        r == reg & !(1u16 << b),
        !bit16_is_set(r, b),
        forall|i: u16| i < 16 && i != b ==> #[trigger] bit16_is_set(r, i) == bit16_is_set(reg, i),
{
    let r = reg & !(1u16 << b);
    assert((r >> b) & 1u16 == 0u16) by (bit_vector)
        requires
            b < 16,
            r == reg & !(1u16 << b),
    ;
    assert forall|i: u16| i < 16 && i != b implies #[trigger] bit16_is_set(r, i) == bit16_is_set(
        reg,
        i,
    ) by {
        assert((r >> i) & 1u16 == (reg >> i) & 1u16) by (bit_vector)
            requires
                b < 16,
                i < 16,
                i != b,
                r == reg & !(1u16 << b),
        ;
    }
    r
}

/// A register image of `n` words, each holding `value`.
pub fn filled<T: Copy>(n: usize, value: T) -> (r: Vec<T>)
    ensures
        r@ == Seq::new(n as nat, |i: int| value),
{
    let mut words: Vec<T> = Vec::new();
    let mut k: usize = 0;
    while k < n
        invariant
            k <= n,
            words@ == Seq::new(k as nat, |i: int| value),
        decreases n - k,
    {
        words.push(value);
        k = k + 1;
        assert(words@ =~= Seq::new(k as nat, |i: int| value));
    }
    words
}

} // verus!
