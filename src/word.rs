//! Fields of an instruction word and the fixed-width arithmetic the processor uses.
use vstd::prelude::*;

verus! {

/// Bits 31..26: the primary opcode.
pub open spec fn opcode(w: u32) -> u32 {
    w >> 26
}

/// Bits 25..21: the `rs` register, or the format of a coprocessor instruction.
pub open spec fn rs(w: u32) -> u32 {
    (w >> 21) & 0x1F
}

/// Bits 20..16: the `rt` register (`ft` for the floating-point unit).
pub open spec fn rt(w: u32) -> u32 {
    (w >> 16) & 0x1F
}

/// Bits 15..11: the `rd` register (`fs` for the floating-point unit).
pub open spec fn rd(w: u32) -> u32 {
    (w >> 11) & 0x1F
}

/// Bits 10..6: the shift amount (`fd` for the floating-point unit).
pub open spec fn shamt(w: u32) -> u32 {
    (w >> 6) & 0x1F
}

/// Bits 5..0: the function code.
pub open spec fn funct(w: u32) -> u32 {
    w & 0x3F
}

/// Bits 15..0: the immediate.
pub open spec fn imm(w: u32) -> u32 {
    w & 0xFFFF
}

/// Bits 25..0: the jump target.
pub open spec fn target(w: u32) -> u32 {
    w & 0x3FF_FFFF
}

/// Bits 20..18: the condition code that `movf` / `movt` test.
pub open spec fn move_cc(w: u32) -> u32 {
    (w >> 18) & 0x7
}

/// Bits 17..16: the true/false selector of `movf` / `movt`.
pub open spec fn move_tf(w: u32) -> u32 {
    (w >> 16) & 0x3
}

/// Bits 10..8: the condition code that a compare sets.
pub open spec fn compare_cc(w: u32) -> u32 {
    (w >> 8) & 0x7
}

/// Bits 7..6, zero in a compare.
pub open spec fn compare_pad(w: u32) -> u32 {
    (w >> 6) & 0x3
}

pub proof fn lemma_field_bounds(w: u32)
    ensures
        opcode(w) < 64,
        rs(w) < 32,
        rt(w) < 32,
        rd(w) < 32,
        shamt(w) < 32,
        funct(w) < 64,
        imm(w) < 0x1_0000,
        target(w) < 0x400_0000,
        move_cc(w) < 8,
        move_tf(w) < 4,
        compare_cc(w) < 8,
        compare_pad(w) < 4,
{
    assert(w >> 26 < 64 && (w >> 21) & 0x1F < 32 && (w >> 16) & 0x1F < 32 && (w >> 11) & 0x1F < 32
        && (w >> 6) & 0x1F < 32 && w & 0x3F < 64 && w & 0xFFFF < 0x1_0000 && w & 0x3FF_FFFF
        < 0x400_0000 && (w >> 18) & 0x7 < 8 && (w >> 16) & 0x3 < 4 && (w >> 8) & 0x7 < 8 && (w
        >> 6) & 0x3 < 4) by (bit_vector);
}

/// The two's complement reading of a word.
pub open spec fn signed(w: u32) -> int {
    if w < 0x8000_0000 {
        w as int
    } else {
        w - 0x1_0000_0000
    }
}

/// The two's complement reading of a 16-bit immediate.
pub open spec fn signed16(x: u32) -> int {
    if x < 0x8000 {
        x as int
    } else {
        x - 0x1_0000
    }
}

/// A 16-bit immediate sign-extended to a word.
pub open spec fn sign_extend16(x: u32) -> u32 {
    if x < 0x8000 {
        x
    } else {
        (x + 0xFFFF_0000) as u32
    }
}

/// A byte sign-extended to a word.
pub open spec fn sign_extend8(x: u32) -> u32 {
    if x < 0x80 {
        x
    } else {
        (x + 0xFFFF_FF00) as u32
    }
}

/// An integer taken modulo 2^32.
pub open spec fn wrap(x: int) -> u32 {
    (x % 0x1_0000_0000) as u32
}

/// True when `x` does not fit a signed word.
pub open spec fn overflows(x: int) -> bool {
    x < -0x8000_0000 || x > 0x7FFF_FFFF
}

/// Quotient of `x` by `y`, rounded toward zero.
pub open spec fn quotient(x: int, y: int) -> int {
    if (x >= 0) == (y > 0) {
        abs(x) / abs(y)
    } else {
        -(abs(x) / abs(y))
    }
}

/// Remainder of `x` by `y`, with the sign of `x`.
pub open spec fn remainder(x: int, y: int) -> int {
    if x < 0 {
        -(abs(x) % abs(y))
    } else {
        abs(x) % abs(y)
    }
}

pub open spec fn abs(x: int) -> int {
    if x < 0 {
        -x
    } else {
        x
    }
}

pub fn field_opcode(w: u32) -> (r: u32)
    ensures
        r == opcode(w),
        r < 64,
{
    proof {
        lemma_field_bounds(w);
    }
    w >> 26
}

pub fn field_rs(w: u32) -> (r: u8)
    ensures
        r == rs(w),
        r < 32,
{
    proof {
        lemma_field_bounds(w);
    }
    ((w >> 21) & 0x1F) as u8
}

pub fn field_rt(w: u32) -> (r: u8)
    ensures
        r == rt(w),
        r < 32,
{
    proof {
        lemma_field_bounds(w);
    }
    ((w >> 16) & 0x1F) as u8
}

pub fn field_rd(w: u32) -> (r: u8)
    ensures
        r == rd(w),
        r < 32,
{
    proof {
        lemma_field_bounds(w);
    }
    ((w >> 11) & 0x1F) as u8
}

pub fn field_shamt(w: u32) -> (r: u8)
    ensures
        r == shamt(w),
        r < 32,
{
    proof {
        lemma_field_bounds(w);
    }
    ((w >> 6) & 0x1F) as u8
}

pub fn field_funct(w: u32) -> (r: u32)
    ensures
        r == funct(w),
        r < 64,
{
    proof {
        lemma_field_bounds(w);
    }
    w & 0x3F
}

pub fn field_imm(w: u32) -> (r: u32)
    ensures
        r == imm(w),
        r < 0x1_0000,
{
    proof {
        lemma_field_bounds(w);
    }
    w & 0xFFFF
}

pub fn field_target(w: u32) -> (r: u32)
    ensures
        r == target(w),
        r < 0x400_0000,
{
    proof {
        lemma_field_bounds(w);
    }
    w & 0x3FF_FFFF
}

pub fn field_move_cc(w: u32) -> (r: u8)
    ensures
        r == move_cc(w),
        r < 8,
{
    proof {
        lemma_field_bounds(w);
    }
    ((w >> 18) & 0x7) as u8
}

pub fn field_move_tf(w: u32) -> (r: u32)
    ensures
        r == move_tf(w),
        r < 4,
{
    proof {
        lemma_field_bounds(w);
    }
    (w >> 16) & 0x3
}

pub fn field_compare_cc(w: u32) -> (r: u8)
    ensures
        r == compare_cc(w),
        r < 8,
{
    proof {
        lemma_field_bounds(w);
    }
    ((w >> 8) & 0x7) as u8
}

pub fn field_compare_pad(w: u32) -> (r: u32)
    ensures
        r == compare_pad(w),
        r < 4,
{
    proof {
        lemma_field_bounds(w);
    }
    (w >> 6) & 0x3
}

pub fn extend16(x: u32) -> (r: u32)
    requires
        x < 0x1_0000,
    ensures
        r == sign_extend16(x),
{
    if x < 0x8000 {
        x
    } else {
        x + 0xFFFF_0000
    }
}

pub fn extend8(x: u32) -> (r: u32)
    requires
        x < 0x100,
    ensures
        r == sign_extend8(x),
{
    if x < 0x80 {
        x
    } else {
        x + 0xFFFF_FF00
    }
}

/// `a + b` modulo 2^32.
pub fn add_wrapping(a: u32, b: u32) -> (r: u32)
    ensures
        r == wrap(a + b),
{
    a.wrapping_add(b)
}

/// `a - b` modulo 2^32.
pub fn sub_wrapping(a: u32, b: u32) -> (r: u32)
    ensures
        r == wrap(a - b),
{
    a.wrapping_sub(b)
}

/// The signed reading of a word, widened.
pub fn to_signed(w: u32) -> (r: i64)
    ensures
        r == signed(w),
{
    if w < 0x8000_0000 {
        w as i64
    } else {
        w as i64 - 0x1_0000_0000
    }
}

/// A signed value taken modulo 2^32.
pub fn wrap_signed(x: i64) -> (r: u32)
    ensures
        r == wrap(x as int),
{
    let m = x % 0x1_0000_0000;
    if m < 0 {
        (m + 0x1_0000_0000) as u32
    } else {
        m as u32
    }
}

/// Signed division of two words: quotient rounded toward zero, and remainder
/// with the sign of the dividend.
pub fn divide_signed(a: u32, b: u32) -> (r: (i64, i64))
    requires
        b != 0,
    ensures
        r.0 == quotient(signed(a), signed(b)),
        r.1 == remainder(signed(a), signed(b)),
{
    let x = to_signed(a);
    let y = to_signed(b);
    let mx: u64 = if x < 0 {
        (-x) as u64
    } else {
        x as u64
    };
    let my: u64 = if y < 0 {
        (-y) as u64
    } else {
        y as u64
    };
    let q = (mx / my) as i64;
    let r = (mx % my) as i64;
    let quotient = if (x < 0) != (y < 0) {
        -q
    } else {
        q
    };
    let remainder = if x < 0 {
        -r
    } else {
        r
    };
    (quotient, remainder)
}

/// Signed comparison of two words.
pub fn signed_less(a: u32, b: u32) -> (r: bool)
    ensures
        r == (signed(a) < signed(b)),
{
    to_signed(a) < to_signed(b)
}

} // verus!
