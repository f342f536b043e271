//! The processor's architectural state as a mathematical value, and the rules
//! by which one phase and one instruction transform it.
use vstd::prelude::*;
use crate::instruction::{decode, FloatFormat, FloatOpKind, Op, Precision};
use crate::word::{
    compare_cc, imm, move_cc, overflows, quotient, rd, remainder, rs, rt, shamt, sign_extend16,
    sign_extend8, signed, signed16, target, wrap,
};

verus! {

/// Where the exception handler starts.
pub const EXCEPTION_HANDLER_ADDRESS: u32 = 0x8000_0180;

/// Index of BadVaddr among the system registers.
pub const BAD_VADDR: u32 = 8;

/// Index of Status among the system registers.
pub const STATUS: u32 = 12;

/// Index of Cause among the system registers.
pub const CAUSE: u32 = 13;

/// Index of EPC among the system registers.
pub const EPC: u32 = 14;

/// The value of Status after reset: every interrupt line unmasked, kernel mode,
/// interrupts enabled.
pub const STATUS_AT_RESET: u32 = 0xFF01;

/// Exception codes, as written into Cause bits 6..2.
pub const EXC_INTERRUPT: u32 = 0;
pub const EXC_ADDRESS_LOAD: u32 = 4;
pub const EXC_ADDRESS_STORE: u32 = 5;
pub const EXC_SYSCALL: u32 = 8;
pub const EXC_BREAK: u32 = 9;
pub const EXC_OVERFLOW: u32 = 12;
pub const EXC_TRAP: u32 = 13;

/// The four steps of one instruction cycle.
#[derive(Clone, Copy, Debug, PartialEq, Eq, Structural)]
pub enum Phase {
    Fetch,
    DecodeAndExecute,
    WriteBack,
    InterruptCheck,
}

/// The phase that follows `p`.
pub open spec fn next_phase(p: Phase) -> Phase {
    match p {
        Phase::Fetch => Phase::DecodeAndExecute,
        Phase::DecodeAndExecute => Phase::WriteBack,
        Phase::WriteBack => Phase::InterruptCheck,
        Phase::InterruptCheck => Phase::Fetch,
    }
}

/// The bytes of the destination register that an unaligned load replaces,
/// numbered 0 (most significant) to 3.
#[derive(Clone, Copy, Debug, PartialEq, Eq, Structural)]
pub struct PartialWrite {
    pub from: u8,
    pub to: u8,
}

/// The single bus transaction the processor asks the driver for.
#[derive(Clone, Copy, Debug, PartialEq, Eq, Structural)]
pub struct MemoryBuffer {
    pub address: u32,
    /// The word to store, or the word loaded once the driver hands it back.
    pub data: u32,
    /// 0 (no transaction), 1, 2 or 4 bytes.
    pub data_size: u8,
    /// A write when true, a read when false.
    pub store: bool,
    /// Where a load lands: 1..31 an integer register, 32..63 a floating-point
    /// register (index − 32), 0 nowhere.
    pub write_back_register: u8,
    /// Whether a byte or halfword load is sign-extended.
    pub sign_extended: bool,
    /// For unaligned loads, the bytes of the destination to replace.
    pub partial_write: Option<PartialWrite>,
}

/// A floating-point computation left for the host's floating-point unit.
/// The operands are raw IEEE-754 (or, for the word format, two's complement)
/// bit patterns; a single or a word sits in the low 32 bits.
#[derive(Clone, Copy, Debug, PartialEq, Eq, Structural)]
pub struct FloatOp {
    pub kind: FloatOpKind,
    pub format: FloatFormat,
    /// The destination register, or the condition code of a compare.
    pub dest: u8,
    pub lhs: u64,
    pub rhs: u64,
}

/// What the result of a floating-point computation is written to.
#[derive(Clone, Copy, Debug, PartialEq, Eq, Structural)]
pub enum ResultSlot {
    /// A condition code: the result is true when nonzero.
    Condition,
    /// One register: the low 32 bits of the result.
    Single,
    /// An even/odd register pair: the low word in the even register.
    Double,
}

pub open spec fn is_compare(k: FloatOpKind) -> bool {
    k == FloatOpKind::Eq || k == FloatOpKind::Le || k == FloatOpKind::Lt
}

pub open spec fn is_binary(k: FloatOpKind) -> bool {
    k == FloatOpKind::Add || k == FloatOpKind::Sub || k == FloatOpKind::Mul || k
        == FloatOpKind::Div || is_compare(k)
}

/// Where the result of `k` on operands of format `f` goes.
pub open spec fn result_slot(k: FloatOpKind, f: FloatFormat) -> ResultSlot {
    if is_compare(k) {
        ResultSlot::Condition
    } else if k == FloatOpKind::ToDouble || (f == FloatFormat::Double && (k == FloatOpKind::Add || k
        == FloatOpKind::Sub || k == FloatOpKind::Mul || k == FloatOpKind::Div || k
        == FloatOpKind::Sqrt)) {
        ResultSlot::Double
    } else {
        ResultSlot::Single
    }
}

/// Faults of the implementation: the host cannot go on, and the guest sees no exception.
#[derive(Clone, Copy, Debug, PartialEq, Eq, Structural)]
pub enum Fault {
    /// The word decodes to no known instruction.
    UnknownInstruction(u32),
    /// A system-coprocessor instruction ran in user mode.
    PrivilegedInstruction(u32),
    /// A double-precision operand or destination named an odd register.
    OddFloatRegister(u32),
}

/// The processor state, as the contracts see it.
#[verifier::ext_equal]
pub struct CpuState {
    pub gpr: Seq<u32>,
    pub cp0: Seq<u32>,
    /// Raw bit patterns of the floating-point registers.
    pub fpr: Seq<u32>,
    pub cc: Seq<bool>,
    pub hi: u32,
    pub lo: u32,
    pub pc: u32,
    pub buffer: MemoryBuffer,
    pub phase: Phase,
    /// The floating-point computation of the instruction last executed, if it had one.
    pub pending: Option<FloatOp>,
}

/// The bus request that fetches the instruction at `pc`.
pub open spec fn fetch_request(pc: u32) -> MemoryBuffer {
    MemoryBuffer {
        address: pc,
        data: 0,
        data_size: 4,
        store: false,
        write_back_register: 0,
        sign_extended: false,
        partial_write: None,
    }
}

/// The state after reset.
pub open spec fn initial_state() -> CpuState {
    CpuState {
        gpr: Seq::new(32, |i: int| 0u32),
        cp0: Seq::new(32, |i: int| 0u32).update(STATUS as int, STATUS_AT_RESET),
        fpr: Seq::new(32, |i: int| 0u32),
        cc: Seq::new(8, |i: int| false),
        hi: 0,
        lo: 0,
        pc: 0,
        buffer: MemoryBuffer {
            address: 0,
            data: 0,
            data_size: 0,
            store: false,
            write_back_register: 0,
            sign_extended: false,
            partial_write: None,
        },
        phase: Phase::Fetch,
        pending: None,
    }
}

/// `content` with the bytes that an unaligned load selects replaced from `data`:
/// `from == 0` is a left load, whose shifted word fills the high bytes up to
/// byte `to` (counted from the most significant); otherwise a right load,
/// which fills the low bytes from byte `from` on.
pub open spec fn merge_partial(content: u32, data: u32, from: u32, to: u32) -> u32 {
    if from == 0 {
        let shift = 8 * (3 - to);
        (content & !(0xFFFF_FFFFu32 << shift)) | (data << shift)
    } else {
        let shift = 8 * from;
        (content & !(0xFFFF_FFFFu32 >> shift)) | (data >> shift)
    }
}

/// A loaded word as it lands in a register.
pub open spec fn extend_load(data: u32, size: u8, sign_extended: bool) -> u32 {
    if sign_extended && size == 1 {
        sign_extend8(data % 0x100)
    } else if sign_extended && size == 2 {
        sign_extend16(data % 0x1_0000)
    } else {
        data
    }
}

/// The 64-bit product of two words read as signed.
pub open spec fn signed_product(a: u32, b: u32) -> u64 {
    (signed(a) * signed(b)) as u64
}

/// The 64-bit product of two words read as unsigned.
pub open spec fn unsigned_product(a: u32, b: u32) -> u64 {
    (a * b) as u64
}

/// Arithmetic right shift of a word.
pub open spec fn shift_right_arith(x: u32, n: u32) -> u32 {
    ((#[verifier::truncate] (x as i32)) >> n) as u32
}

impl CpuState {
    pub open spec fn wf(self) -> bool {
        &&& self.gpr.len() == 32
        &&& self.cp0.len() == 32
        &&& self.fpr.len() == 32
        &&& self.cc.len() == 8
        &&& self.gpr[0] == 0
        &&& self.buffer.store ==> self.buffer.write_back_register == 0
        &&& self.buffer.partial_write matches Some(p) ==> p.from <= 3 && p.to <= 3
        &&& self.pending matches Some(op) ==> {
            &&& op.dest < 32
            &&& result_slot(op.kind, op.format) == ResultSlot::Double ==> op.dest % 2 == 0
            &&& result_slot(op.kind, op.format) == ResultSlot::Condition ==> op.dest < 8
        }
    }

    pub open spec fn reg(self, r: u32) -> u32 {
        self.gpr[r as int]
    }

    pub open spec fn status(self) -> u32 {
        self.cp0[STATUS as int]
    }

    pub open spec fn cause(self) -> u32 {
        self.cp0[CAUSE as int]
    }

    pub open spec fn epc(self) -> u32 {
        self.cp0[EPC as int]
    }

    /// Exception code held in Cause bits 6..2.
    pub open spec fn exception_code(self) -> u32 {
        (self.cause() >> 2) & 0x1F
    }

    pub open spec fn kernel_mode(self) -> bool {
        self.status() & 2 == 0
    }

    /// The address of the instruction being executed: the program counter
    /// has already moved past it.
    pub open spec fn instruction_address(self) -> u32 {
        wrap(self.pc - 4)
    }

    /// Register `r` written with `v`; register 0 stays zero.
    pub open spec fn with_gpr(self, r: u32, v: u32) -> CpuState {
        if r == 0 {
            self
        } else {
            CpuState { gpr: self.gpr.update(r as int, v), ..self }
        }
    }

    pub open spec fn with_fpr(self, r: u32, v: u32) -> CpuState {
        CpuState { fpr: self.fpr.update(r as int, v), ..self }
    }

    pub open spec fn with_cp0(self, r: u32, v: u32) -> CpuState {
        CpuState { cp0: self.cp0.update(r as int, v), ..self }
    }

    pub open spec fn with_cc(self, i: u32, b: bool) -> CpuState {
        CpuState { cc: self.cc.update(i as int, b), ..self }
    }

    pub open spec fn with_pc(self, pc: u32) -> CpuState {
        CpuState { pc, ..self }
    }

    pub open spec fn with_hi_lo(self, hi: u32, lo: u32) -> CpuState {
        CpuState { hi, lo, ..self }
    }

    pub open spec fn with_buffer(self, buffer: MemoryBuffer) -> CpuState {
        CpuState { buffer, ..self }
    }

    pub open spec fn with_phase(self, phase: Phase) -> CpuState {
        CpuState { phase, ..self }
    }

    pub open spec fn with_pending(self, pending: Option<FloatOp>) -> CpuState {
        CpuState { pending, ..self }
    }

    /// The 64 bits of the even/odd pair starting at `r`; the odd register holds the high word.
    pub open spec fn double(self, r: u32) -> u64 {
        ((self.fpr[r + 1] as u64) << 32) | (self.fpr[r as int] as u64)
    }

    /// The pair starting at `r` written with the 64 bits `v`.
    pub open spec fn with_double(self, r: u32, v: u64) -> CpuState {
        self.with_fpr(r, v as u32).with_fpr((r + 1) as u32, (v >> 32) as u32)
    }

    /// The bit pattern of operand register `r` in format `f`.
    pub open spec fn float_operand(self, f: FloatFormat, r: u32) -> u64 {
        if f == FloatFormat::Double {
            self.double(r)
        } else {
            self.fpr[r as int] as u64
        }
    }

    /// An exception taken: BadVaddr recorded when an address is known, the code
    /// written into Cause, the mode stack pushed with kernel mode and interrupts
    /// off, `epc` saved, and control passed to the handler.
    pub open spec fn raise(self, code: u32, bad_address: Option<u32>, epc: u32) -> CpuState {
        let s = match bad_address {
            Some(a) => self.with_cp0(BAD_VADDR, a),
            None => self,
        };
        let cause = (s.cause() & !0x7Cu32) | ((code & 0x1F) << 2);
        let status = (s.status() & !0x3Fu32) | ((s.status() << 2) & 0x3C);
        s.with_cp0(CAUSE, cause).with_cp0(STATUS, status).with_cp0(EPC, epc).with_pc(
            EXCEPTION_HANDLER_ADDRESS,
        )
    }

    /// The mode stack popped: current takes previous, previous takes old.
    pub open spec fn restore_mode(self) -> CpuState {
        let status = self.status();
        self.with_cp0(STATUS, (status & !0xFu32) | ((status >> 2) & 0xF))
    }

    /// `pc` moved by `offset` instructions.
    pub open spec fn branch(self, offset: u32) -> CpuState {
        self.with_pc(wrap(self.pc + 4 * signed16(offset)))
    }

    /// A trap taken when `cond` holds.
    pub open spec fn trap_if(self, cond: bool) -> CpuState {
        if cond {
            self.raise(EXC_TRAP, None, self.instruction_address())
        } else {
            self
        }
    }

    /// An overflow exception taken when `x` is not a signed word.
    pub open spec fn overflow_if(self, x: int) -> CpuState {
        if overflows(x) {
            self.raise(EXC_OVERFLOW, None, self.instruction_address())
        } else {
            self
        }
    }

    /// The state of a freshly issued load or store.
    pub open spec fn request(
        self,
        address: u32,
        data: u32,
        size: u8,
        store: bool,
        register: u8,
        sign_extended: bool,
        partial_write: Option<PartialWrite>,
    ) -> CpuState {
        self.with_buffer(
            MemoryBuffer {
                address,
                data,
                data_size: size,
                store,
                write_back_register: register,
                sign_extended,
                partial_write,
            },
        )
    }
}

/// Base register plus sign-extended offset.
pub open spec fn effective_address(s: CpuState, w: u32) -> u32 {
    wrap(s.reg(rs(w)) + sign_extend16(imm(w)))
}

/// The integer instructions that neither touch memory nor fault.
pub open spec fn execute_integer(s: CpuState, op: Op, w: u32) -> CpuState {
    let a = s.reg(rs(w));
    let b = s.reg(rt(w));
    let i = imm(w);
    match op {
        Op::Sll => s.with_gpr(rd(w), b << shamt(w)),
        Op::Srl => s.with_gpr(rd(w), b >> shamt(w)),
        Op::Sra => s.with_gpr(rd(w), shift_right_arith(b, shamt(w))),
        Op::Sllv => s.with_gpr(rd(w), b << (a % 32)),
        Op::Srlv => s.with_gpr(rd(w), b >> (a % 32)),
        Op::Srav => s.with_gpr(rd(w), shift_right_arith(b, a % 32)),
        Op::Jr => s.with_pc(a),
        Op::Jalr => {
            let t = s.with_gpr(rd(w), s.pc);
            t.with_pc(t.reg(rs(w)))
        },
        Op::Syscall => s.raise(EXC_SYSCALL, None, s.instruction_address()),
        Op::Break => s.raise(EXC_BREAK, None, s.instruction_address()),
        Op::Mfhi => s.with_gpr(rd(w), s.hi),
        Op::Mthi => s.with_hi_lo(a, s.lo),
        Op::Mflo => s.with_gpr(rd(w), s.lo),
        Op::Mtlo => s.with_hi_lo(s.hi, a),
        Op::Mult => s.with_hi_lo(
            (signed_product(a, b) >> 32) as u32,
            signed_product(a, b) as u32,
        ),
        Op::Multu => s.with_hi_lo(
            (unsigned_product(a, b) >> 32) as u32,
            unsigned_product(a, b) as u32,
        ),
        Op::Div => if b == 0 {
            s.with_hi_lo(a, 0xFFFF_FFFF)
        } else {
            s.with_hi_lo(
                wrap(remainder(signed(a), signed(b))),
                wrap(quotient(signed(a), signed(b))),
            )
        },
        Op::Divu => if b == 0 {
            s.with_hi_lo(a, 0xFFFF_FFFF)
        } else {
            s.with_hi_lo(a % b, a / b)
        },
        Op::Add => s.overflow_if(signed(a) + signed(b)).with_gpr(rd(w), wrap(a + b)),
        Op::Addu => s.with_gpr(rd(w), wrap(a + b)),
        Op::Sub => s.overflow_if(signed(a) - signed(b)).with_gpr(rd(w), wrap(a - b)),
        Op::Subu => s.with_gpr(rd(w), wrap(a - b)),
        Op::And => s.with_gpr(rd(w), a & b),
        Op::Or => s.with_gpr(rd(w), a | b),
        Op::Xor => s.with_gpr(rd(w), a ^ b),
        Op::Nor => s.with_gpr(rd(w), !(a | b)),
        Op::Slt => s.with_gpr(rd(w), if signed(a) < signed(b) { 1 } else { 0 }),
        Op::Sltu => s.with_gpr(rd(w), if a < b { 1 } else { 0 }),
        Op::Tge => s.trap_if(signed(a) >= signed(b)),
        Op::Tgeu => s.trap_if(a >= b),
        Op::Tlt => s.trap_if(signed(a) < signed(b)),
        Op::Tltu => s.trap_if(a < b),
        Op::Teq => s.trap_if(a == b),
        Op::Tne => s.trap_if(a != b),
        Op::Tgei => s.trap_if(signed(a) >= signed16(i)),
        Op::Tgeiu => s.trap_if(a >= sign_extend16(i)),
        Op::Tlti => s.trap_if(signed(a) < signed16(i)),
        Op::Tltiu => s.trap_if(a < sign_extend16(i)),
        Op::Teqi => s.trap_if(a == sign_extend16(i)),
        Op::Tnei => s.trap_if(a != sign_extend16(i)),
        Op::J => s.with_pc((s.pc & 0xF000_0000) | (target(w) << 2)),
        Op::Jal => {
            let t = s.with_gpr(31, s.pc);
            t.with_pc((t.pc & 0xF000_0000) | (target(w) << 2))
        },
        Op::Beq => if a == b {
            s.branch(i)
        } else {
            s
        },
        Op::Bne => if a != b {
            s.branch(i)
        } else {
            s
        },
        Op::Blez => if signed(a) <= 0 {
            s.branch(i)
        } else {
            s
        },
        Op::Bgtz => if signed(a) > 0 {
            s.branch(i)
        } else {
            s
        },
        Op::Addi => s.overflow_if(signed(a) + signed16(i)).with_gpr(
            rt(w),
            wrap(a + sign_extend16(i)),
        ),
        Op::Addiu => s.with_gpr(rt(w), wrap(a + sign_extend16(i))),
        Op::Slti => s.with_gpr(rt(w), if signed(a) < signed16(i) { 1 } else { 0 }),
        Op::Sltiu => s.with_gpr(rt(w), if a < sign_extend16(i) { 1 } else { 0 }),
        Op::Andi => s.with_gpr(rt(w), a & i),
        Op::Ori => s.with_gpr(rt(w), a | i),
        Op::Xori => s.with_gpr(rt(w), a ^ i),
        Op::Lui => s.with_gpr(rt(w), i << 16),
        _ => s,
    }
}

/// Loads and stores: they only fill the memory buffer.
pub open spec fn execute_memory(s: CpuState, op: Op, w: u32) -> CpuState {
    let addr = effective_address(s, w);
    let t = rt(w) as u8;
    let b = s.reg(rt(w));
    match op {
        Op::Lb => s.request(addr, 0, 1, false, t, true, None),
        Op::Lh => s.request(addr, 0, 2, false, t, true, None),
        Op::Lw => s.request(addr, 0, 4, false, t, false, None),
        Op::Lbu => s.request(addr, 0, 1, false, t, false, None),
        Op::Lhu => s.request(addr, 0, 2, false, t, false, None),
        Op::Lwl => s.request(
            wrap(addr - addr % 4),
            0,
            4,
            false,
            t,
            false,
            Some(PartialWrite { from: 0, to: (3 - addr % 4) as u8 }),
        ),
        Op::Lwr => s.request(
            wrap(addr - addr % 4),
            0,
            4,
            false,
            t,
            false,
            Some(PartialWrite { from: (3 - addr % 4) as u8, to: 3 }),
        ),
        Op::Sb => s.request(addr, b % 0x100, 1, true, 0, false, None),
        Op::Sh => s.request(addr, b % 0x1_0000, 2, true, 0, false, None),
        Op::Sw => s.request(addr, b, 4, true, 0, false, None),
        Op::Lwc1 => s.request(addr, 0, 4, false, (t + 32) as u8, false, None),
        Op::Swc1 => s.request(addr, s.fpr[rt(w) as int], 4, true, 0, false, None),
        _ => s,
    }
}

/// The registers of a floating-point instruction that must be even.
pub open spec fn float_registers_even(op: Op, w: u32) -> bool {
    let fd = shamt(w);
    let fs = rd(w);
    let ft = rt(w);
    match op {
        Op::Mov(p) | Op::Abs(p) | Op::Neg(p) | Op::Movz(p) | Op::Movn(p) | Op::Movf(p) | Op::Movt(
            p,
        ) => p == Precision::Double ==> fd % 2 == 0 && fs % 2 == 0,
        Op::Float(k, f) => {
            &&& f == FloatFormat::Double ==> fs % 2 == 0
            &&& f == FloatFormat::Double && is_binary(k) ==> ft % 2 == 0
            &&& result_slot(k, f) == ResultSlot::Double ==> fd % 2 == 0
        },
        _ => true,
    }
}

/// `fs` copied to `fd` in precision `p`.
pub open spec fn move_float(s: CpuState, p: Precision, fd: u32, fs: u32) -> CpuState {
    if p == Precision::Single {
        s.with_fpr(fd, s.fpr[fs as int])
    } else {
        s.with_double(fd, s.double(fs))
    }
}

/// The floating-point instructions that move or recombine bits, and the hand-off
/// of the others to the floating-point unit.
pub open spec fn execute_float(s: CpuState, op: Op, w: u32) -> CpuState {
    let fd = shamt(w);
    let fs = rd(w);
    let ft = rt(w);
    match op {
        Op::Mfc1 => s.with_gpr(rt(w), s.fpr[fs as int]),
        Op::Mtc1 => s.with_fpr(fs, s.reg(rt(w))),
        Op::Mov(p) => move_float(s, p, fd, fs),
        Op::Abs(p) => if p == Precision::Single {
            s.with_fpr(fd, s.fpr[fs as int] & 0x7FFF_FFFF)
        } else {
            s.with_double(fd, s.double(fs) & 0x7FFF_FFFF_FFFF_FFFF)
        },
        Op::Neg(p) => if p == Precision::Single {
            s.with_fpr(fd, s.fpr[fs as int] ^ 0x8000_0000)
        } else {
            s.with_double(fd, s.double(fs) ^ 0x8000_0000_0000_0000)
        },
        Op::Movz(p) => if s.reg(rt(w)) == 0 {
            move_float(s, p, fd, fs)
        } else {
            s
        },
        Op::Movn(p) => if s.reg(rt(w)) != 0 {
            move_float(s, p, fd, fs)
        } else {
            s
        },
        Op::Movf(p) => if !s.cc[move_cc(w) as int] {
            move_float(s, p, fd, fs)
        } else {
            s
        },
        Op::Movt(p) => if s.cc[move_cc(w) as int] {
            move_float(s, p, fd, fs)
        } else {
            s
        },
        Op::Float(k, f) => s.with_pending(
            Some(
                FloatOp {
                    kind: k,
                    format: f,
                    dest: if is_compare(k) {
                        compare_cc(w) as u8
                    } else {
                        fd as u8
                    },
                    lhs: s.float_operand(f, fs),
                    rhs: if is_binary(k) {
                        s.float_operand(f, ft)
                    } else {
                        0
                    },
                },
            ),
        ),
        _ => s,
    }
}

pub open spec fn is_integer_op(op: Op) -> bool {
    !is_memory_op(op) && !is_system_op(op) && !is_float_op(op)
}

pub open spec fn is_memory_op(op: Op) -> bool {
    match op {
        Op::Lb | Op::Lh | Op::Lw | Op::Lbu | Op::Lhu | Op::Lwl | Op::Lwr | Op::Sb | Op::Sh | Op::Sw
        | Op::Lwc1 | Op::Swc1 => true,
        _ => false,
    }
}

pub open spec fn is_system_op(op: Op) -> bool {
    match op {
        Op::Mfc0 | Op::Mtc0 | Op::Rfe | Op::Eret => true,
        _ => false,
    }
}

pub open spec fn is_float_op(op: Op) -> bool {
    match op {
        Op::Mfc1 | Op::Mtc1 | Op::Mov(_) | Op::Abs(_) | Op::Neg(_) | Op::Movz(_) | Op::Movn(_)
        | Op::Movf(_) | Op::Movt(_) | Op::Float(_, _) => true,
        _ => false,
    }
}

/// The system-coprocessor instructions, which run in kernel mode only.
pub open spec fn execute_system(s: CpuState, op: Op, w: u32) -> CpuState {
    match op {
        Op::Mfc0 => s.with_gpr(rt(w), s.cp0[rd(w) as int]),
        Op::Mtc0 => s.with_cp0(rd(w), s.reg(rt(w))),
        Op::Rfe => s.restore_mode(),
        Op::Eret => {
            let t = s.restore_mode();
            t.with_pc(t.epc())
        },
        _ => s,
    }
}

/// One decoded instruction executed.
pub open spec fn execute(s: CpuState, op: Op, w: u32) -> Result<CpuState, Fault> {
    if is_system_op(op) {
        if !s.kernel_mode() {
            Err(Fault::PrivilegedInstruction(w))
        } else {
            Ok(execute_system(s, op, w))
        }
    } else if is_float_op(op) {
        if !float_registers_even(op, w) {
            Err(Fault::OddFloatRegister(w))
        } else {
            Ok(execute_float(s, op, w))
        }
    } else if is_memory_op(op) {
        Ok(execute_memory(s, op, w))
    } else {
        Ok(execute_integer(s, op, w))
    }
}

/// A completed load deposited into its destination register.
pub open spec fn write_back(s: CpuState) -> CpuState {
    let buf = s.buffer;
    let r = buf.write_back_register as u32;
    let current = if r < 32 {
        s.gpr[r as int]
    } else if r < 64 {
        s.fpr[r - 32]
    } else {
        0
    };
    let v = match buf.partial_write {
        Some(p) => merge_partial(current, buf.data, p.from as u32, p.to as u32),
        None => extend_load(buf.data, buf.data_size, buf.sign_extended),
    };
    if r < 32 {
        s.with_gpr(r, v)
    } else if r < 64 {
        s.with_fpr((r - 32) as u32, v)
    } else {
        s
    }
}

/// Cause bits 15..8 take the request lines; an interrupt is taken when
/// interrupts are enabled and a requested line is unmasked.
pub open spec fn check_interrupts(s: CpuState, requests: u8) -> CpuState {
    let t = s.with_cp0(CAUSE, (s.cause() & !0xFF00u32) | ((requests as u32) << 8));
    if t.status() & 1 == 1 && (requests as u32) & ((t.status() >> 8) & 0xFF) != 0 {
        t.raise(EXC_INTERRUPT, None, t.pc)
    } else {
        t
    }
}

/// True when the pending transaction targets the kernel segment from user mode.
pub open spec fn bus_violation(s: CpuState) -> bool {
    s.buffer.data_size > 0 && s.buffer.address & 0x8000_0000 != 0 && !s.kernel_mode()
}

/// The check after every phase: a transaction into the kernel segment from user
/// mode is canceled and an address exception taken.
pub open spec fn bus_check(s: CpuState) -> CpuState {
    if bus_violation(s) {
        let t = s.with_buffer(MemoryBuffer { data_size: 0, ..s.buffer });
        t.raise(
            if s.buffer.store {
                EXC_ADDRESS_STORE
            } else {
                EXC_ADDRESS_LOAD
            },
            Some(s.buffer.address),
            s.instruction_address(),
        )
    } else {
        s
    }
}

/// The work of the current phase, before the bus check.
pub open spec fn run_phase(s: CpuState, data: u32, requests: u8) -> Result<CpuState, Fault> {
    match s.phase {
        Phase::Fetch => Ok(
            s.with_buffer(fetch_request(s.pc)).with_pc(wrap(s.pc + 4)).with_phase(
                Phase::DecodeAndExecute,
            ),
        ),
        Phase::DecodeAndExecute => match decode(data) {
            None => Err(Fault::UnknownInstruction(data)),
            Some(op) => match execute(s.with_pending(None), op, data) {
                Err(f) => Err(f),
                Ok(t) => {
                    let u = if !t.buffer.store && t.buffer.write_back_register == 0 {
                        t.with_buffer(MemoryBuffer { data_size: 0, ..t.buffer })
                    } else {
                        t
                    };
                    Ok(u.with_phase(Phase::WriteBack))
                },
            },
        },
        Phase::WriteBack => {
            let t = if s.buffer.data_size > 0 {
                write_back(s.with_buffer(MemoryBuffer { data, ..s.buffer }))
            } else {
                s
            };
            Ok(
                t.with_buffer(MemoryBuffer { data_size: 0, ..t.buffer }).with_phase(
                    Phase::InterruptCheck,
                ),
            )
        },
        Phase::InterruptCheck => Ok(check_interrupts(s, requests).with_phase(Phase::Fetch)),
    }
}

/// One tick: the phase's work, then the bus check.
#[verifier::opaque]
pub open spec fn tick(s: CpuState, data: u32, requests: u8) -> Result<CpuState, Fault> {
    match run_phase(s, data, requests) {
        Ok(t) => Ok(bus_check(t)),
        Err(f) => Err(f),
    }
}

/// The result of the pending floating-point computation written to its destination.
pub open spec fn complete_float(s: CpuState, result: u64) -> CpuState {
    match s.pending {
        None => s,
        Some(op) => {
            let t = s.with_pending(None);
            match result_slot(op.kind, op.format) {
                ResultSlot::Condition => t.with_cc(op.dest as u32, result != 0),
                ResultSlot::Single => t.with_fpr(op.dest as u32, result as u32),
                ResultSlot::Double => t.with_double(op.dest as u32, result),
            }
        },
    }
}

} // verus!
