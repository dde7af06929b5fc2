use vstd::prelude::*;

verus! {

broadcast use vstd::layout::layout_of_primitives;


/// `p` is a power of two.
pub open spec fn is_power_of_two(p: nat) -> bool
    decreases p,
{
    if p <= 1 {
        p == 1
    } else {
        p % 2 == 0 && is_power_of_two((p / 2) as nat)
    }
}

/// The smallest power of two that is at least `n` (`1` for `0`).
pub open spec fn round_up_pow2(n: nat) -> nat
    decreases n,
{
    if n <= 1 {
        1
    } else {
        2 * round_up_pow2(((n + 1) / 2) as nat)
    }
}

/// The natural alignment of a value of `size` bytes: its size rounded up to
/// a power of two, and at most 16.
pub open spec fn natural_align(size: nat) -> nat {
    if round_up_pow2(size) > 16 {
        16
    } else {
        round_up_pow2(size)
    }
}

/// `round_up_pow2(n)` is the least power of two that is not below `n`.
pub proof fn lemma_round_up_pow2(n: nat)
    ensures
        is_power_of_two(round_up_pow2(n)),
        n <= round_up_pow2(n),
        n >= 1 ==> round_up_pow2(n) < 2 * n,
        n <= 1 ==> round_up_pow2(n) == 1,
    decreases n,
{
    if n > 1 {
        let h = ((n + 1) / 2) as nat;
        lemma_round_up_pow2(h);
        let p = round_up_pow2(h);
        assert(round_up_pow2(n) == 2 * p);
        assert((2 * p) / 2 == p);
        assert((2 * p) % 2 == 0);
    }
}

/// The natural alignment at each size from 0 to 8 and above.
pub proof fn lemma_natural_align_values(size: nat)
    ensures
        size <= 1 ==> natural_align(size) == 1,
        size == 2 ==> natural_align(size) == 2,
        3 <= size <= 4 ==> natural_align(size) == 4,
        5 <= size <= 8 ==> natural_align(size) == 8,
        size > 8 ==> natural_align(size) == 16,
{
    reveal_with_fuel(round_up_pow2, 5);
    lemma_round_up_pow2(size);
    if 5 <= size <= 8 {
        assert(round_up_pow2(((size + 1) / 2) as nat) == 4) by {
            reveal_with_fuel(round_up_pow2, 4);
        }
    }
}

/// The natural alignment of `T`: the size of `T` rounded up to a power of
/// two, clamped to 16.
pub fn clamp_round_size<T>() -> (r: usize)
    ensures
        r == natural_align(vstd::layout::size_of::<T>()),
{
    let x = core::mem::size_of::<T>();
    proof {
        lemma_natural_align_values(x as nat);
    }
    if x <= 1 {
        1
    } else if x <= 2 {
        2
    } else if x <= 4 {
        4
    } else if x <= 8 {
        8
    } else {
        16
    }
}


/// The natural alignment of every size is a power of two, at most 16, and
/// at least the size where the size is at most 16; it is the smallest such
/// power of two.
pub proof fn lemma_natural_align(size: nat)
    ensures
        is_power_of_two(natural_align(size)),
        1 <= natural_align(size) <= 16,
        size <= 16 ==> size <= natural_align(size),
        size >= 1 && size <= 16 ==> natural_align(size) < 2 * size,
        size > 16 ==> natural_align(size) == 16,
{
    lemma_round_up_pow2(size);
    lemma_natural_align_values(size);
    reveal_with_fuel(is_power_of_two, 6);
}

/// A zero-sized marker that stands for an alignment in bytes.
pub trait AlignTy: Sized {
    /// The alignment, in bytes, that the marker stands for.
    spec fn alignment() -> nat;

    /// The marker value.
    fn marker() -> Self;

    /// The alignment, in bytes, that the marker stands for.
    fn align() -> (r: usize)
        ensures
            r == Self::alignment(),
    ;
}

/// Alignment of 1 byte.
pub struct Align1;

/// Alignment of 2 bytes.
pub struct Align2;

/// Alignment of 4 bytes.
pub struct Align4;

/// Alignment of 8 bytes.
pub struct Align8;

/// Alignment of 16 bytes.
pub struct Align16;

impl AlignTy for Align1 {
    open spec fn alignment() -> nat { 1 }
    fn marker() -> Self { Align1 }
    fn align() -> usize { 1 }
}

impl AlignTy for Align2 {
    open spec fn alignment() -> nat { 2 }
    fn marker() -> Self { Align2 }
    fn align() -> usize { 2 }
}

impl AlignTy for Align4 {
    open spec fn alignment() -> nat { 4 }
    fn marker() -> Self { Align4 }
    fn align() -> usize { 4 }
}

impl AlignTy for Align8 {
    open spec fn alignment() -> nat { 8 }
    fn marker() -> Self { Align8 }
    fn align() -> usize { 8 }
}

impl AlignTy for Align16 {
    open spec fn alignment() -> nat { 16 }
    fn marker() -> Self { Align16 }
    fn align() -> usize { 16 }
}

/// Alignment of a machine word: that of `usize`, 4 or 8 bytes depending on
/// the target.
pub struct AlignWord;

impl AlignTy for AlignWord {
    open spec fn alignment() -> nat {
        natural_align(vstd::layout::size_of::<usize>())
    }

    fn marker() -> Self {
        AlignWord
    }

    fn align() -> usize {
        clamp_round_size::<usize>()
    }
}

/// The alignment of a machine word is 4 or 8 bytes.
pub proof fn lemma_word_alignment()
    ensures
        <AlignWord as AlignTy>::alignment() == 4 || <AlignWord as AlignTy>::alignment() == 8,
{
    lemma_natural_align_values(vstd::layout::size_of::<usize>());
}

/// A fresh alignment marker of type `T`.
pub fn new_alignment<T: AlignTy>() -> T {
    T::marker()
}

/// A byte array of a power-of-two width, with the marker of that alignment.
pub trait DoNaturalAlignment: Sized {
    type Align: AlignTy;
}

impl DoNaturalAlignment for [u8; 1] {
    type Align = Align1;
}

impl DoNaturalAlignment for [u8; 2] {
    type Align = Align2;
}

impl DoNaturalAlignment for [u8; 4] {
    type Align = Align4;
}

impl DoNaturalAlignment for [u8; 8] {
    type Align = Align8;
}

impl DoNaturalAlignment for [u8; 16] {
    type Align = Align16;
}

/// A type together with the marker of its natural alignment.
pub trait NaturalAlignment: Sized {
    type Align: AlignTy;

    /// The natural alignment of `Self`, which is the alignment of `Self::Align`.
    fn natural_alignment() -> (r: usize)
        ensures
            r == natural_align(vstd::layout::size_of::<Self>()),
            r == <Self::Align as AlignTy>::alignment(),
    ;
}

impl NaturalAlignment for bool {
    type Align = Align1;

    fn natural_alignment() -> usize {
        proof {
            lemma_natural_align_values(vstd::layout::size_of::<bool>());
        }
        clamp_round_size::<bool>()
    }
}

impl NaturalAlignment for u8 {
    type Align = Align1;

    fn natural_alignment() -> usize {
        proof {
            lemma_natural_align_values(vstd::layout::size_of::<u8>());
        }
        clamp_round_size::<u8>()
    }
}

impl NaturalAlignment for i8 {
    type Align = Align1;

    fn natural_alignment() -> usize {
        proof {
            lemma_natural_align_values(vstd::layout::size_of::<i8>());
        }
        clamp_round_size::<i8>()
    }
}

impl NaturalAlignment for u16 {
    type Align = Align2;

    fn natural_alignment() -> usize {
        proof {
            lemma_natural_align_values(vstd::layout::size_of::<u16>());
        }
        clamp_round_size::<u16>()
    }
}

impl NaturalAlignment for i16 {
    type Align = Align2;

    fn natural_alignment() -> usize {
        proof {
            lemma_natural_align_values(vstd::layout::size_of::<i16>());
        }
        clamp_round_size::<i16>()
    }
}

impl NaturalAlignment for u32 {
    type Align = Align4;

    fn natural_alignment() -> usize {
        proof {
            lemma_natural_align_values(vstd::layout::size_of::<u32>());
        }
        clamp_round_size::<u32>()
    }
}

impl NaturalAlignment for i32 {
    type Align = Align4;

    fn natural_alignment() -> usize {
        proof {
            lemma_natural_align_values(vstd::layout::size_of::<i32>());
        }
        clamp_round_size::<i32>()
    }
}

impl NaturalAlignment for u64 {
    type Align = Align8;

    fn natural_alignment() -> usize {
        proof {
            lemma_natural_align_values(vstd::layout::size_of::<u64>());
        }
        clamp_round_size::<u64>()
    }
}

impl NaturalAlignment for i64 {
    type Align = Align8;

    fn natural_alignment() -> usize {
        proof {
            lemma_natural_align_values(vstd::layout::size_of::<i64>());
        }
        clamp_round_size::<i64>()
    }
}

impl NaturalAlignment for u128 {
    type Align = Align16;

    fn natural_alignment() -> usize {
        proof {
            lemma_natural_align_values(vstd::layout::size_of::<u128>());
        }
        clamp_round_size::<u128>()
    }
}

impl NaturalAlignment for i128 {
    type Align = Align16;

    fn natural_alignment() -> usize {
        proof {
            lemma_natural_align_values(vstd::layout::size_of::<i128>());
        }
        clamp_round_size::<i128>()
    }
}

impl NaturalAlignment for usize {
    type Align = AlignWord;

    fn natural_alignment() -> usize {
        proof {
            lemma_natural_align_values(vstd::layout::size_of::<usize>());
        }
        clamp_round_size::<usize>()
    }
}

impl NaturalAlignment for isize {
    type Align = AlignWord;

    fn natural_alignment() -> usize {
        proof {
            lemma_natural_align_values(vstd::layout::size_of::<isize>());
        }
        clamp_round_size::<isize>()
    }
}

} // verus!
