//! The instruction set and its decoder.
use vstd::prelude::*;
use crate::word::{
    opcode, rs, rt, shamt, funct, move_tf, compare_pad, field_opcode, field_rs, field_rt,
    field_shamt, field_funct, field_move_tf, field_compare_pad,
};

verus! {

/// The fixed encoding of `rfe`.
pub const RFE_WORD: u32 = 0x4200_0010;

/// The fixed encoding of `eret`.
pub const ERET_WORD: u32 = 0x4200_0018;

/// Width of a floating-point register operand of a move.
#[derive(Clone, Copy, Debug, PartialEq, Eq, Structural)]
pub enum Precision {
    Single,
    Double,
}

/// Format of the source operands of a floating-point operation.
#[derive(Clone, Copy, Debug, PartialEq, Eq, Structural)]
pub enum FloatFormat {
    /// One register, an IEEE-754 single.
    Single,
    /// An even/odd register pair, an IEEE-754 double.
    Double,
    /// One register holding a signed 32-bit integer.
    Word,
}

/// A floating-point computation, carried out by the host's floating-point unit.
#[derive(Clone, Copy, Debug, PartialEq, Eq, Structural)]
pub enum FloatOpKind {
    Add,
    Sub,
    Mul,
    Div,
    Sqrt,
    /// Round to nearest, to a signed word.
    Round,
    /// Round toward zero, to a signed word.
    Trunc,
    /// Round up, to a signed word.
    Ceil,
    /// Round down, to a signed word.
    Floor,
    /// Convert to a single.
    ToSingle,
    /// Convert to a double.
    ToDouble,
    /// Convert to a signed word, rounding toward zero.
    ToWord,
    /// Compare for equality, setting a condition code.
    Eq,
    /// Compare for less-or-equal, setting a condition code.
    Le,
    /// Compare for less-than, setting a condition code.
    Lt,
}

/// A decoded instruction.
#[derive(Clone, Copy, Debug, PartialEq, Eq, Structural)]
pub enum Op {
    Sll,
    Srl,
    Sra,
    Sllv,
    Srlv,
    Srav,
    Jr,
    Jalr,
    Syscall,
    Break,
    Mfhi,
    Mthi,
    Mflo,
    Mtlo,
    Mult,
    Multu,
    Div,
    Divu,
    Add,
    Addu,
    Sub,
    Subu,
    And,
    Or,
    Xor,
    Nor,
    Slt,
    Sltu,
    Tge,
    Tgeu,
    Tlt,
    Tltu,
    Teq,
    Tne,
    Tgei,
    Tgeiu,
    Tlti,
    Tltiu,
    Teqi,
    Tnei,
    J,
    Jal,
    Beq,
    Bne,
    Blez,
    Bgtz,
    Addi,
    Addiu,
    Slti,
    Sltiu,
    Andi,
    Ori,
    Xori,
    Lui,
    Lb,
    Lh,
    Lwl,
    Lw,
    Lbu,
    Lhu,
    Lwr,
    Sb,
    Sh,
    Sw,
    Mfc0,
    Mtc0,
    Rfe,
    Eret,
    Mfc1,
    Mtc1,
    Lwc1,
    Swc1,
    Mov(Precision),
    Abs(Precision),
    Neg(Precision),
    Movz(Precision),
    Movn(Precision),
    Movf(Precision),
    Movt(Precision),
    Float(FloatOpKind, FloatFormat),
}

/// Register-form instructions (opcode 0), by function code.
pub open spec fn decode_special(f: u32) -> Option<Op> {
    match f {
        0 => Some(Op::Sll),
        2 => Some(Op::Srl),
        3 => Some(Op::Sra),
        4 => Some(Op::Sllv),
        6 => Some(Op::Srlv),
        7 => Some(Op::Srav),
        8 => Some(Op::Jr),
        9 => Some(Op::Jalr),
        12 => Some(Op::Syscall),
        13 => Some(Op::Break),
        16 => Some(Op::Mfhi),
        17 => Some(Op::Mthi),
        18 => Some(Op::Mflo),
        19 => Some(Op::Mtlo),
        24 => Some(Op::Mult),
        25 => Some(Op::Multu),
        26 => Some(Op::Div),
        27 => Some(Op::Divu),
        32 => Some(Op::Add),
        33 => Some(Op::Addu),
        34 => Some(Op::Sub),
        35 => Some(Op::Subu),
        36 => Some(Op::And),
        37 => Some(Op::Or),
        38 => Some(Op::Xor),
        39 => Some(Op::Nor),
        42 => Some(Op::Slt),
        43 => Some(Op::Sltu),
        48 => Some(Op::Tge),
        49 => Some(Op::Tgeu),
        50 => Some(Op::Tlt),
        51 => Some(Op::Tltu),
        52 => Some(Op::Teq),
        54 => Some(Op::Tne),
        _ => None,
    }
}

/// Immediate trap instructions (opcode 1), by the `rt` field.
pub open spec fn decode_regimm(r: u32) -> Option<Op> {
    match r {
        8 => Some(Op::Tgei),
        9 => Some(Op::Tgeiu),
        10 => Some(Op::Tlti),
        11 => Some(Op::Tltiu),
        12 => Some(Op::Teqi),
        14 => Some(Op::Tnei),
        _ => None,
    }
}

/// Instructions identified by the primary opcode alone.
pub open spec fn decode_primary(op: u32) -> Option<Op> {
    match op {
        2 => Some(Op::J),
        3 => Some(Op::Jal),
        4 => Some(Op::Beq),
        5 => Some(Op::Bne),
        6 => Some(Op::Blez),
        7 => Some(Op::Bgtz),
        8 => Some(Op::Addi),
        9 => Some(Op::Addiu),
        10 => Some(Op::Slti),
        11 => Some(Op::Sltiu),
        12 => Some(Op::Andi),
        13 => Some(Op::Ori),
        14 => Some(Op::Xori),
        15 => Some(Op::Lui),
        32 => Some(Op::Lb),
        33 => Some(Op::Lh),
        34 => Some(Op::Lwl),
        35 => Some(Op::Lw),
        36 => Some(Op::Lbu),
        37 => Some(Op::Lhu),
        38 => Some(Op::Lwr),
        40 => Some(Op::Sb),
        41 => Some(Op::Sh),
        43 => Some(Op::Sw),
        0x31 => Some(Op::Lwc1),
        0x39 => Some(Op::Swc1),
        _ => None,
    }
}

/// System coprocessor transfers (opcode 0x10).
pub open spec fn decode_cop0(w: u32) -> Option<Op> {
    if funct(w) != 0 {
        None
    } else if rs(w) == 0 {
        Some(Op::Mfc0)
    } else if rs(w) == 4 {
        Some(Op::Mtc0)
    } else {
        None
    }
}

/// Single and double operations of the floating-point unit, by function code.
/// `unary` holds when the `ft` field is zero, as one-operand forms require.
pub open spec fn decode_cop1_arith(w: u32, p: Precision, fmt: FloatFormat) -> Option<Op> {
    let unary = rt(w) == 0;
    let f = funct(w);
    if f == 0 {
        Some(Op::Float(FloatOpKind::Add, fmt))
    } else if f == 1 {
        Some(Op::Float(FloatOpKind::Sub, fmt))
    } else if f == 2 {
        Some(Op::Float(FloatOpKind::Mul, fmt))
    } else if f == 3 {
        Some(Op::Float(FloatOpKind::Div, fmt))
    } else if f == 0x12 {
        Some(Op::Movz(p))
    } else if f == 0x13 {
        Some(Op::Movn(p))
    } else if f == 0x11 {
        if move_tf(w) == 0 {
            Some(Op::Movf(p))
        } else if move_tf(w) == 1 {
            Some(Op::Movt(p))
        } else {
            None
        }
    } else if f == 0x32 || f == 0x3C || f == 0x3E {
        if compare_pad(w) != 0 {
            None
        } else if f == 0x32 {
            Some(Op::Float(FloatOpKind::Eq, fmt))
        } else if f == 0x3C {
            Some(Op::Float(FloatOpKind::Lt, fmt))
        } else {
            Some(Op::Float(FloatOpKind::Le, fmt))
        }
    } else if !unary {
        None
    } else if f == 4 {
        Some(Op::Float(FloatOpKind::Sqrt, fmt))
    } else if f == 5 {
        Some(Op::Abs(p))
    } else if f == 6 {
        Some(Op::Mov(p))
    } else if f == 7 {
        Some(Op::Neg(p))
    } else if f == 0xC {
        Some(Op::Float(FloatOpKind::Round, fmt))
    } else if f == 0xD {
        Some(Op::Float(FloatOpKind::Trunc, fmt))
    } else if f == 0xE {
        Some(Op::Float(FloatOpKind::Ceil, fmt))
    } else if f == 0xF {
        Some(Op::Float(FloatOpKind::Floor, fmt))
    } else if f == 0x20 && fmt == FloatFormat::Double {
        Some(Op::Float(FloatOpKind::ToSingle, fmt))
    } else if f == 0x21 && fmt == FloatFormat::Single {
        Some(Op::Float(FloatOpKind::ToDouble, fmt))
    } else if f == 0x24 {
        Some(Op::Float(FloatOpKind::ToWord, fmt))
    } else {
        None
    }
}

/// Floating-point coprocessor instructions (opcode 0x11), by the format field.
pub open spec fn decode_cop1(w: u32) -> Option<Op> {
    let fmt = rs(w);
    if fmt == 0 || fmt == 4 {
        if shamt(w) != 0 || funct(w) != 0 {
            None
        } else if fmt == 0 {
            Some(Op::Mfc1)
        } else {
            Some(Op::Mtc1)
        }
    } else if fmt == 0x10 {
        decode_cop1_arith(w, Precision::Single, FloatFormat::Single)
    } else if fmt == 0x11 {
        decode_cop1_arith(w, Precision::Double, FloatFormat::Double)
    } else if fmt == 0x14 && rt(w) == 0 && funct(w) == 0x20 {
        Some(Op::Float(FloatOpKind::ToSingle, FloatFormat::Word))
    } else if fmt == 0x14 && rt(w) == 0 && funct(w) == 0x21 {
        Some(Op::Float(FloatOpKind::ToDouble, FloatFormat::Word))
    } else {
        None
    }
}

/// The instruction that a word encodes, or `None` for a pattern the processor does not know.
pub open spec fn decode(w: u32) -> Option<Op> {
    if w == RFE_WORD {
        Some(Op::Rfe)
    } else if w == ERET_WORD {
        Some(Op::Eret)
    } else if opcode(w) == 0 {
        decode_special(funct(w))
    } else if opcode(w) == 1 {
        decode_regimm(rt(w))
    } else if opcode(w) == 0x10 {
        decode_cop0(w)
    } else if opcode(w) == 0x11 {
        decode_cop1(w)
    } else {
        decode_primary(opcode(w))
    }
}

fn special(f: u32) -> (r: Option<Op>)
    ensures
        r == decode_special(f),
{
    match f {
        0 => Some(Op::Sll),
        2 => Some(Op::Srl),
        3 => Some(Op::Sra),
        4 => Some(Op::Sllv),
        6 => Some(Op::Srlv),
        7 => Some(Op::Srav),
        8 => Some(Op::Jr),
        9 => Some(Op::Jalr),
        12 => Some(Op::Syscall),
        13 => Some(Op::Break),
        16 => Some(Op::Mfhi),
        17 => Some(Op::Mthi),
        18 => Some(Op::Mflo),
        19 => Some(Op::Mtlo),
        24 => Some(Op::Mult),
        25 => Some(Op::Multu),
        26 => Some(Op::Div),
        27 => Some(Op::Divu),
        32 => Some(Op::Add),
        33 => Some(Op::Addu),
        34 => Some(Op::Sub),
        35 => Some(Op::Subu),
        36 => Some(Op::And),
        37 => Some(Op::Or),
        38 => Some(Op::Xor),
        39 => Some(Op::Nor),
        42 => Some(Op::Slt),
        43 => Some(Op::Sltu),
        48 => Some(Op::Tge),
        49 => Some(Op::Tgeu),
        50 => Some(Op::Tlt),
        51 => Some(Op::Tltu),
        52 => Some(Op::Teq),
        54 => Some(Op::Tne),
        _ => None,
    }
}

fn regimm(r: u8) -> (o: Option<Op>)
    ensures
        o == decode_regimm(r as u32),
{
    match r {
        8 => Some(Op::Tgei),
        9 => Some(Op::Tgeiu),
        10 => Some(Op::Tlti),
        11 => Some(Op::Tltiu),
        12 => Some(Op::Teqi),
        14 => Some(Op::Tnei),
        _ => None,
    }
}

fn primary(op: u32) -> (r: Option<Op>)
    ensures
        r == decode_primary(op),
{
    match op {
        2 => Some(Op::J),
        3 => Some(Op::Jal),
        4 => Some(Op::Beq),
        5 => Some(Op::Bne),
        6 => Some(Op::Blez),
        7 => Some(Op::Bgtz),
        8 => Some(Op::Addi),
        9 => Some(Op::Addiu),
        10 => Some(Op::Slti),
        11 => Some(Op::Sltiu),
        12 => Some(Op::Andi),
        13 => Some(Op::Ori),
        14 => Some(Op::Xori),
        15 => Some(Op::Lui),
        32 => Some(Op::Lb),
        33 => Some(Op::Lh),
        34 => Some(Op::Lwl),
        35 => Some(Op::Lw),
        36 => Some(Op::Lbu),
        37 => Some(Op::Lhu),
        38 => Some(Op::Lwr),
        40 => Some(Op::Sb),
        41 => Some(Op::Sh),
        43 => Some(Op::Sw),
        0x31 => Some(Op::Lwc1),
        0x39 => Some(Op::Swc1),
        _ => None,
    }
}

fn cop0(w: u32) -> (r: Option<Op>)
    ensures
        r == decode_cop0(w),
{
    let fmt = field_rs(w);
    if field_funct(w) != 0 {
        None
    } else if fmt == 0 {
        Some(Op::Mfc0)
    } else if fmt == 4 {
        Some(Op::Mtc0)
    } else {
        None
    }
}

fn cop1_arith(w: u32, p: Precision, fmt: FloatFormat) -> (r: Option<Op>)
    ensures
        r == decode_cop1_arith(w, p, fmt),
{
    let unary = field_rt(w) == 0;
    let f = field_funct(w);
    if f == 0 {
        Some(Op::Float(FloatOpKind::Add, fmt))
    } else if f == 1 {
        Some(Op::Float(FloatOpKind::Sub, fmt))
    } else if f == 2 {
        Some(Op::Float(FloatOpKind::Mul, fmt))
    } else if f == 3 {
        Some(Op::Float(FloatOpKind::Div, fmt))
    } else if f == 0x12 {
        Some(Op::Movz(p))
    } else if f == 0x13 {
        Some(Op::Movn(p))
    } else if f == 0x11 {
        let tf = field_move_tf(w);
        if tf == 0 {
            Some(Op::Movf(p))
        } else if tf == 1 {
            Some(Op::Movt(p))
        } else {
            None
        }
    } else if f == 0x32 || f == 0x3C || f == 0x3E {
        if field_compare_pad(w) != 0 {
            None
        } else if f == 0x32 {
            Some(Op::Float(FloatOpKind::Eq, fmt))
        } else if f == 0x3C {
            Some(Op::Float(FloatOpKind::Lt, fmt))
        } else {
            Some(Op::Float(FloatOpKind::Le, fmt))
        }
    } else if !unary {
        None
    } else if f == 4 {
        Some(Op::Float(FloatOpKind::Sqrt, fmt))
    } else if f == 5 {
        Some(Op::Abs(p))
    } else if f == 6 {
        Some(Op::Mov(p))
    } else if f == 7 {
        Some(Op::Neg(p))
    } else if f == 0xC {
        Some(Op::Float(FloatOpKind::Round, fmt))
    } else if f == 0xD {
        Some(Op::Float(FloatOpKind::Trunc, fmt))
    } else if f == 0xE {
        Some(Op::Float(FloatOpKind::Ceil, fmt))
    } else if f == 0xF {
        Some(Op::Float(FloatOpKind::Floor, fmt))
    } else if f == 0x20 && fmt == FloatFormat::Double {
        Some(Op::Float(FloatOpKind::ToSingle, fmt))
    } else if f == 0x21 && fmt == FloatFormat::Single {
        Some(Op::Float(FloatOpKind::ToDouble, fmt))
    } else if f == 0x24 {
        Some(Op::Float(FloatOpKind::ToWord, fmt))
    } else {
        None
    }
}

fn cop1(w: u32) -> (r: Option<Op>)
    ensures
        r == decode_cop1(w),
{
    let fmt = field_rs(w);
    if fmt == 0 || fmt == 4 {
        if field_shamt(w) != 0 || field_funct(w) != 0 {
            None
        } else if fmt == 0 {
            Some(Op::Mfc1)
        } else {
            Some(Op::Mtc1)
        }
    } else if fmt == 0x10 {
        cop1_arith(w, Precision::Single, FloatFormat::Single)
    } else if fmt == 0x11 {
        cop1_arith(w, Precision::Double, FloatFormat::Double)
    } else if fmt == 0x14 && field_rt(w) == 0 && field_funct(w) == 0x20 {
        Some(Op::Float(FloatOpKind::ToSingle, FloatFormat::Word))
    } else if fmt == 0x14 && field_rt(w) == 0 && field_funct(w) == 0x21 {
        Some(Op::Float(FloatOpKind::ToDouble, FloatFormat::Word))
    } else {
        None
    }
}

/// Decodes an instruction word; `None` for a pattern the processor does not know.
pub fn decode_word(w: u32) -> (r: Option<Op>)
    ensures
        r == decode(w),
{
    if w == RFE_WORD {
        Some(Op::Rfe)
    } else if w == ERET_WORD {
        Some(Op::Eret)
    } else {
        let op = field_opcode(w);
        if op == 0 {
            special(field_funct(w))
        } else if op == 1 {
            regimm(field_rt(w))
        } else if op == 0x10 {
            cop0(w)
        } else if op == 0x11 {
            cop1(w)
        } else {
            primary(op)
        }
    }
}

} // verus!
