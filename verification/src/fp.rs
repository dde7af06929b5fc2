use vstd::prelude::*;

verus! {

/// Byte `i` of `x`, counted from the least significant.
pub open spec fn byte_of(x: u128, i: int) -> u128 {
    (x >> ((8 * i) as u128)) & 0xff
}

/// `r` holds the bytes of `x`, a value of `width` bytes, in reverse order.
pub open spec fn is_byte_swap(x: u128, r: u128, width: int) -> bool {
    forall|i: int| 0 <= i < width ==> #[trigger] byte_of(r, i) == byte_of(x, width - 1 - i)
}

/// Calls `u16::to_be`. As its documentation says, on a big-endian target
/// the value is returned unchanged and on a little-endian target its bytes
/// are swapped; which of the two holds depends on the target.
#[verifier::external_body]
fn u16_to_be(x: u16) -> (r: u16)
    ensures
        r == x || is_byte_swap(x as u128, r as u128, 2),
{
    x.to_be()
}

/// Calls `u16::to_le`. As its documentation says, on a little-endian
/// target the value is returned unchanged and on a big-endian target its
/// bytes are swapped; which of the two holds depends on the target.
#[verifier::external_body]
fn u16_to_le(x: u16) -> (r: u16)
    ensures
        r == x || is_byte_swap(x as u128, r as u128, 2),
{
    x.to_le()
}

/// Calls `u128::to_be`, as `u16_to_be` does for 16 bytes.
#[verifier::external_body]
fn u128_to_be(x: u128) -> (r: u128)
    ensures
        r == x || is_byte_swap(x, r, 16),
{
    x.to_be()
}

/// Calls `u128::to_le`, as `u16_to_le` does for 16 bytes.
#[verifier::external_body]
fn u128_to_le(x: u128) -> (r: u128)
    ensures
        r == x || is_byte_swap(x, r, 16),
{
    x.to_le()
}

/// A half-precision floating-point value, held as its bits.
pub struct F16 {
    bits: u16,
}

/// A quadruple-precision floating-point value, held as its bits.
pub struct F128 {
    bits: u128,
}

/// A pair of 64-bit fixed-point values, held as their bits.
pub struct fx2x64 {
    bits: u128,
}

impl View for F16 {
    type V = u16;

    closed spec fn view(&self) -> u16 {
        self.bits
    }
}

impl View for F128 {
    type V = u128;

    closed spec fn view(&self) -> u128 {
        self.bits
    }
}

impl View for fx2x64 {
    type V = u128;

    closed spec fn view(&self) -> u128 {
        self.bits
    }
}

impl F16 {
    /// The bits of the value.
    pub fn to_bits(self) -> (r: u16)
        ensures
            r == self@,
    {
        self.bits
    }

    /// The value whose bits are `bits`.
    pub fn from_bits(bits: u16) -> (r: Self)
        ensures
            r@ == bits,
    {
        F16 { bits }
    }

    /// The value with its bytes in big-endian order: unchanged on a
    /// big-endian target, its bytes swapped on a little-endian one.
    pub fn to_be(self) -> (r: Self)
        ensures
            r@ == self@ || is_byte_swap(self@ as u128, r@ as u128, 2),
    {
        Self::from_bits(u16_to_be(self.to_bits()))
    }

    /// The value with its bytes in little-endian order: unchanged on a
    /// little-endian target, its bytes swapped on a big-endian one.
    pub fn to_le(self) -> (r: Self)
        ensures
            r@ == self@ || is_byte_swap(self@ as u128, r@ as u128, 2),
    {
        Self::from_bits(u16_to_le(self.to_bits()))
    }
}

impl F128 {
    /// The bits of the value.
    pub fn to_bits(self) -> (r: u128)
        ensures
            r == self@,
    {
        self.bits
    }

    /// The value whose bits are `bits`.
    pub fn from_bits(bits: u128) -> (r: Self)
        ensures
            r@ == bits,
    {
        F128 { bits }
    }

    /// The value with its bytes in big-endian order: unchanged on a
    /// big-endian target, its bytes swapped on a little-endian one.
    pub fn to_be(self) -> (r: Self)
        ensures
            r@ == self@ || is_byte_swap(self@, r@, 16),
    {
        Self::from_bits(u128_to_be(self.to_bits()))
    }

    /// The value with its bytes in little-endian order: unchanged on a
    /// little-endian target, its bytes swapped on a big-endian one.
    pub fn to_le(self) -> (r: Self)
        ensures
            r@ == self@ || is_byte_swap(self@, r@, 16),
    {
        Self::from_bits(u128_to_le(self.to_bits()))
    }
}

impl fx2x64 {
    /// The bits of the value.
    pub fn to_bits(self) -> (r: u128)
        ensures
            r == self@,
    {
        self.bits
    }

    /// The value whose bits are `bits`.
    pub fn from_bits(bits: u128) -> (r: Self)
        ensures
            r@ == bits,
    {
        fx2x64 { bits }
    }

    /// The value with its bytes in big-endian order: unchanged on a
    /// big-endian target, its bytes swapped on a little-endian one.
    pub fn to_be(self) -> (r: Self)
        ensures
            r@ == self@ || is_byte_swap(self@, r@, 16),
    {
        Self::from_bits(u128_to_be(self.to_bits()))
    }

    /// The value with its bytes in little-endian order: unchanged on a
    /// little-endian target, its bytes swapped on a big-endian one.
    pub fn to_le(self) -> (r: Self)
        ensures
            r@ == self@ || is_byte_swap(self@, r@, 16),
    {
        Self::from_bits(u128_to_le(self.to_bits()))
    }
}

} // verus!
