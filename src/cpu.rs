//! The processor: register files, the phase machine, and every instruction.
use vstd::prelude::*;
use crate::instruction::{decode, decode_word, FloatFormat, FloatOpKind, Op, Precision};
use crate::laws::lemma_tick_wf;
use crate::state::{
    bus_check, check_interrupts, complete_float, execute, execute_float, execute_integer,
    execute_memory, execute_system, float_registers_even, initial_state, is_binary, is_compare,
    is_float_op, is_memory_op, is_system_op, result_slot, tick, write_back, merge_partial, CpuState,
    FloatOp, Fault, MemoryBuffer, PartialWrite, Phase, ResultSlot, EXCEPTION_HANDLER_ADDRESS,
    EXC_ADDRESS_LOAD, EXC_ADDRESS_STORE, EXC_BREAK, EXC_INTERRUPT, EXC_OVERFLOW, EXC_SYSCALL,
    EXC_TRAP, STATUS_AT_RESET,
};
use crate::word::{
    add_wrapping, extend16, extend8, field_compare_cc, field_imm, field_move_cc, field_rd, field_rs,
    field_rt, field_shamt, field_target, signed_less, sub_wrapping, to_signed, wrap_signed,
    divide_signed,
};

verus! {

/// The processor. It never touches memory: each `tick` hands back the bus
/// transaction the driver must serve.
pub struct CPU {
    int_reg: [u32; 32],
    cp0_reg: [u32; 32],
    hi: u32,
    lo: u32,
    cp1_reg: [u32; 32],
    cc: [bool; 8],
    pc: u32,
    memory_buffer: MemoryBuffer,
    phase: Phase,
    pending: Option<FloatOp>,
}

impl View for CPU {
    type V = CpuState;

    closed spec fn view(&self) -> CpuState {
        CpuState {
            gpr: self.int_reg@,
            cp0: self.cp0_reg@,
            fpr: self.cp1_reg@,
            cc: self.cc@,
            hi: self.hi,
            lo: self.lo,
            pc: self.pc,
            buffer: self.memory_buffer,
            phase: self.phase,
            pending: self.pending,
        }
    }
}

spec fn is_alu_op(op: Op) -> bool {
    match op {
        Op::Sll | Op::Srl | Op::Sra | Op::Sllv | Op::Srlv | Op::Srav | Op::Add | Op::Addu | Op::Sub
        | Op::Subu | Op::And | Op::Or | Op::Xor | Op::Nor | Op::Slt | Op::Sltu => true,
        _ => false,
    }
}

spec fn is_hi_lo_op(op: Op) -> bool {
    match op {
        Op::Mfhi | Op::Mthi | Op::Mflo | Op::Mtlo | Op::Mult | Op::Multu | Op::Div | Op::Divu => true,
        _ => false,
    }
}

spec fn is_control_op(op: Op) -> bool {
    match op {
        Op::Jr | Op::Jalr | Op::Syscall | Op::Break | Op::J | Op::Jal | Op::Beq | Op::Bne | Op::Blez
        | Op::Bgtz => true,
        _ => false,
    }
}

spec fn is_immediate_op(op: Op) -> bool {
    match op {
        Op::Addi | Op::Addiu | Op::Slti | Op::Sltiu | Op::Andi | Op::Ori | Op::Xori | Op::Lui => true,
        _ => false,
    }
}

spec fn is_trap_op(op: Op) -> bool {
    match op {
        Op::Tge | Op::Tgeu | Op::Tlt | Op::Tltu | Op::Teq | Op::Tne | Op::Tgei | Op::Tgeiu
        | Op::Tlti | Op::Tltiu | Op::Teqi | Op::Tnei => true,
        _ => false,
    }
}

fn op_is_system(op: Op) -> (r: bool)
    ensures
        r == is_system_op(op),
{
    match op {
        Op::Mfc0 | Op::Mtc0 | Op::Rfe | Op::Eret => true,
        _ => false,
    }
}

fn op_is_float(op: Op) -> (r: bool)
    ensures
        r == is_float_op(op),
{
    match op {
        Op::Mfc1 | Op::Mtc1 | Op::Mov(_) | Op::Abs(_) | Op::Neg(_) | Op::Movz(_) | Op::Movn(_)
        | Op::Movf(_) | Op::Movt(_) | Op::Float(_, _) => true,
        _ => false,
    }
}

fn op_is_memory(op: Op) -> (r: bool)
    ensures
        r == is_memory_op(op),
{
    match op {
        Op::Lb | Op::Lh | Op::Lw | Op::Lbu | Op::Lhu | Op::Lwl | Op::Lwr | Op::Sb | Op::Sh | Op::Sw
        | Op::Lwc1 | Op::Swc1 => true,
        _ => false,
    }
}

fn op_is_alu(op: Op) -> (r: bool)
    ensures
        r == is_alu_op(op),
{
    match op {
        Op::Sll | Op::Srl | Op::Sra | Op::Sllv | Op::Srlv | Op::Srav | Op::Add | Op::Addu | Op::Sub
        | Op::Subu | Op::And | Op::Or | Op::Xor | Op::Nor | Op::Slt | Op::Sltu => true,
        _ => false,
    }
}

fn op_is_hi_lo(op: Op) -> (r: bool)
    ensures
        r == is_hi_lo_op(op),
{
    match op {
        Op::Mfhi | Op::Mthi | Op::Mflo | Op::Mtlo | Op::Mult | Op::Multu | Op::Div | Op::Divu => true,
        _ => false,
    }
}

fn op_is_control(op: Op) -> (r: bool)
    ensures
        r == is_control_op(op),
{
    match op {
        Op::Jr | Op::Jalr | Op::Syscall | Op::Break | Op::J | Op::Jal | Op::Beq | Op::Bne | Op::Blez
        | Op::Bgtz => true,
        _ => false,
    }
}

fn op_is_immediate(op: Op) -> (r: bool)
    ensures
        r == is_immediate_op(op),
{
    match op {
        Op::Addi | Op::Addiu | Op::Slti | Op::Sltiu | Op::Andi | Op::Ori | Op::Xori | Op::Lui => true,
        _ => false,
    }
}

/// True when a result of kind `k` from operands in format `f` fills a register pair.
fn fills_pair(k: FloatOpKind, f: FloatFormat) -> (r: bool)
    ensures
        r == (result_slot(k, f) == ResultSlot::Double),
{
    match k {
        FloatOpKind::Eq | FloatOpKind::Le | FloatOpKind::Lt => false,
        FloatOpKind::ToDouble => true,
        FloatOpKind::Add | FloatOpKind::Sub | FloatOpKind::Mul | FloatOpKind::Div
        | FloatOpKind::Sqrt => match f {
            FloatFormat::Double => true,
            _ => false,
        },
        _ => false,
    }
}

fn kind_is_compare(k: FloatOpKind) -> (r: bool)
    ensures
        r == is_compare(k),
{
    match k {
        FloatOpKind::Eq | FloatOpKind::Le | FloatOpKind::Lt => true,
        _ => false,
    }
}

fn kind_is_binary(k: FloatOpKind) -> (r: bool)
    ensures
        r == is_binary(k),
{
    match k {
        FloatOpKind::Add | FloatOpKind::Sub | FloatOpKind::Mul | FloatOpKind::Div | FloatOpKind::Eq
        | FloatOpKind::Le | FloatOpKind::Lt => true,
        _ => false,
    }
}

fn registers_even(op: Op, w: u32) -> (r: bool)
    ensures
        r == float_registers_even(op, w),
{
    let fd = field_shamt(w);
    let fs = field_rd(w);
    let ft = field_rt(w);
    match op {
        Op::Mov(p) | Op::Abs(p) | Op::Neg(p) | Op::Movz(p) | Op::Movn(p) | Op::Movf(p) | Op::Movt(
            p,
        ) => match p {
            Precision::Single => true,
            Precision::Double => fd % 2 == 0 && fs % 2 == 0,
        },
        Op::Float(k, f) => {
            let double_source = match f {
                FloatFormat::Double => true,
                _ => false,
            };
            (!double_source || fs % 2 == 0) && (!double_source || !kind_is_binary(k) || ft % 2
                == 0) && (!fills_pair(k, f) || fd % 2 == 0)
        },
        _ => true,
    }
}

impl CPU {
    /// A processor after reset.
    pub fn new() -> (r: CPU)
        ensures
            r@ == initial_state(),
            r@.wf(),
    {
        let memory_buffer = MemoryBuffer {
            address: 0,
            data: 0,
            data_size: 0,
            store: false,
            write_back_register: 0,
            sign_extended: false,
            partial_write: None,
        };
        let mut cp0_reg = [0u32; 32];
        cp0_reg[12] = STATUS_AT_RESET;
        let r = CPU {
            int_reg: [0u32; 32],
            cp0_reg,
            hi: 0,
            lo: 0,
            cp1_reg: [0u32; 32],
            cc: [false; 8],
            pc: 0,
            memory_buffer,
            phase: Phase::Fetch,
            pending: None,
        };
        assert(r@ =~= initial_state());
        r
    }

    /// Integer register `r`.
    pub fn gpr(&self, r: u8) -> (v: u32)
        requires
            r < 32,
        ensures
            v == self@.gpr[r as int],
    {
        self.int_reg[r as usize]
    }

    /// System register `r`.
    pub fn cp0(&self, r: u8) -> (v: u32)
        requires
            r < 32,
        ensures
            v == self@.cp0[r as int],
    {
        self.cp0_reg[r as usize]
    }

    /// The bit pattern of floating-point register `r`.
    pub fn fpr(&self, r: u8) -> (v: u32)
        requires
            r < 32,
        ensures
            v == self@.fpr[r as int],
    {
        self.cp1_reg[r as usize]
    }

    /// Floating-point condition code `i`.
    pub fn condition(&self, i: u8) -> (b: bool)
        requires
            i < 8,
        ensures
            b == self@.cc[i as int],
    {
        self.cc[i as usize]
    }

    pub fn hi(&self) -> (v: u32)
        ensures
            v == self@.hi,
    {
        self.hi
    }

    pub fn lo(&self) -> (v: u32)
        ensures
            v == self@.lo,
    {
        self.lo
    }

    pub fn pc(&self) -> (v: u32)
        ensures
            v == self@.pc,
    {
        self.pc
    }

    pub fn phase(&self) -> (p: Phase)
        ensures
            p == self@.phase,
    {
        self.phase
    }

    /// The pending bus transaction.
    pub fn memory_buffer(&self) -> (b: MemoryBuffer)
        ensures
            b == self@.buffer,
    {
        self.memory_buffer
    }

    /// The floating-point computation that the last executed instruction left
    /// for the host's floating-point unit, if any.
    pub fn float_request(&self) -> (r: Option<FloatOp>)
        ensures
            r == self@.pending,
    {
        self.pending
    }

    /// Writes integer register `r`, as a loader or debugger would; register 0 stays zero.
    pub fn set_gpr(&mut self, r: u8, v: u32)
        requires
            r < 32,
        ensures
            final(self)@ == old(self)@.with_gpr(r as u32, v),
    {
        self.write_to_reg(r, v);
    }

    /// Sets the program counter, as a loader would.
    pub fn set_pc(&mut self, pc: u32)
        ensures
            final(self)@ == old(self)@.with_pc(pc),
    {
        self.pc = pc;
    }

    fn is_kernel_mode(&self) -> (r: bool)
        ensures
            r == self@.kernel_mode(),
    {
        self.cp0_reg[12] & 2 == 0
    }

    fn write_to_reg(&mut self, reg_num: u8, val: u32)
        requires
            reg_num < 32,
        ensures
            final(self)@ == old(self)@.with_gpr(reg_num as u32, val),
    {
        if reg_num != 0 {
            self.int_reg[reg_num as usize] = val;
        }
    }

    fn instruction_address(&self) -> (r: u32)
        ensures
            r == self@.instruction_address(),
    {
        sub_wrapping(self.pc, 4)
    }

    /// Takes an exception: see `CpuState::raise`.
    fn execute_exception(&mut self, code: u32, bad_address: Option<u32>, epc: u32)
        ensures
            final(self)@ == old(self)@.raise(code, bad_address, epc),
    {
        if let Some(address) = bad_address {
            self.cp0_reg[8] = address;
        }
        let cause = (self.cp0_reg[13] & !0x7Cu32) | ((code & 0x1F) << 2);
        self.cp0_reg[13] = cause;
        let status = self.cp0_reg[12];
        self.cp0_reg[12] = (status & !0x3Fu32) | ((status << 2) & 0x3C);
        self.cp0_reg[14] = epc;
        self.pc = EXCEPTION_HANDLER_ADDRESS;
    }

    fn set_request(
        &mut self,
        address: u32,
        data: u32,
        size: u8,
        store: bool,
        register: u8,
        sign_extended: bool,
        partial_write: Option<PartialWrite>,
    )
        ensures
            final(self)@ == old(self)@.request(
                address,
                data,
                size,
                store,
                register,
                sign_extended,
                partial_write,
            ),
    {
        self.memory_buffer = MemoryBuffer {
            address,
            data,
            data_size: size,
            store,
            write_back_register: register,
            sign_extended,
            partial_write,
        };
    }

    fn branch(&mut self, imm: u32)
        requires
            imm < 0x1_0000,
        ensures
            final(self)@ == old(self)@.branch(imm),
    {
        let offset: i64 = if imm < 0x8000 {
            imm as i64
        } else {
            imm as i64 - 0x1_0000
        };
        self.pc = wrap_signed(self.pc as i64 + 4 * offset);
    }

    /// Shifts, register arithmetic and logic, and compares: the result goes to `rd`.
    fn execute_alu(&mut self, op: Op, w: u32)
        requires
            is_alu_op(op),
        ensures
            final(self)@ == execute_integer(old(self)@, op, w),
    {
        let rd = field_rd(w);
        let a = self.int_reg[field_rs(w) as usize];
        let b = self.int_reg[field_rt(w) as usize];
        let sh = field_shamt(w) as u32;
        match op {
            Op::Sll => self.write_to_reg(rd, b << sh),
            Op::Srl => self.write_to_reg(rd, b >> sh),
            Op::Sra => self.write_to_reg(rd, ((#[verifier::truncate] (b as i32)) >> sh) as u32),
            Op::Sllv => self.write_to_reg(rd, b << (a % 32)),
            Op::Srlv => self.write_to_reg(rd, b >> (a % 32)),
            Op::Srav => self.write_to_reg(rd, ((#[verifier::truncate] (b as i32)) >> (a % 32)) as u32),
            Op::Add => {
                let sum = to_signed(a) + to_signed(b);
                if sum < -0x8000_0000 || sum > 0x7FFF_FFFF {
                    let epc = self.instruction_address();
                    self.execute_exception(EXC_OVERFLOW, None, epc);
                }
                self.write_to_reg(rd, add_wrapping(a, b));
            },
            Op::Addu => self.write_to_reg(rd, add_wrapping(a, b)),
            Op::Sub => {
                let difference = to_signed(a) - to_signed(b);
                if difference < -0x8000_0000 || difference > 0x7FFF_FFFF {
                    let epc = self.instruction_address();
                    self.execute_exception(EXC_OVERFLOW, None, epc);
                }
                self.write_to_reg(rd, sub_wrapping(a, b));
            },
            Op::Subu => self.write_to_reg(rd, sub_wrapping(a, b)),
            Op::And => self.write_to_reg(rd, a & b),
            Op::Or => self.write_to_reg(rd, a | b),
            Op::Xor => self.write_to_reg(rd, a ^ b),
            Op::Nor => self.write_to_reg(rd, !(a | b)),
            Op::Slt => self.write_to_reg(
                rd,
                if signed_less(a, b) {
                    1
                } else {
                    0
                },
            ),
            _ => self.write_to_reg(
                rd,
                if a < b {
                    1
                } else {
                    0
                },
            ),
        }
    }

    /// Transfers to and from HI and LO, multiplication and division.
    fn execute_hi_lo(&mut self, op: Op, w: u32)
        requires
            is_hi_lo_op(op),
        ensures
            final(self)@ == execute_integer(old(self)@, op, w),
    {
        let rd = field_rd(w);
        let a = self.int_reg[field_rs(w) as usize];
        let b = self.int_reg[field_rt(w) as usize];
        match op {
            Op::Mfhi => self.write_to_reg(rd, self.hi),
            Op::Mthi => self.hi = a,
            Op::Mflo => self.write_to_reg(rd, self.lo),
            Op::Mtlo => self.lo = a,
            Op::Mult => {
                let x = to_signed(a);
                let y = to_signed(b);
                assert(-0x4000_0000_0000_0000 <= x * y <= 0x4000_0000_0000_0000) by (nonlinear_arith)
                    requires
                        -0x8000_0000 <= x <= 0x8000_0000,
                        -0x8000_0000 <= y <= 0x8000_0000,
                ;
                let product = (x * y) as u64;
                self.hi = (product >> 32) as u32;
                self.lo = product as u32;
            },
            Op::Multu => {
                assert(a * b <= 0xFFFF_FFFE_0000_0001) by (nonlinear_arith)
                    requires
                        a <= 0xFFFF_FFFF,
                        b <= 0xFFFF_FFFF,
                ;
                let product = a as u64 * b as u64;
                self.hi = (product >> 32) as u32;
                self.lo = product as u32;
            },
            Op::Div => {
                if b == 0 {
                    self.hi = a;
                    self.lo = 0xFFFF_FFFF;
                } else {
                    let (q, r) = divide_signed(a, b);
                    self.lo = wrap_signed(q);
                    self.hi = wrap_signed(r);
                }
            },
            _ => {
                if b == 0 {
                    self.hi = a;
                    self.lo = 0xFFFF_FFFF;
                } else {
                    self.hi = a % b;
                    self.lo = a / b;
                }
            },
        }
    }

    /// Jumps, branches, and the instructions that raise an exception outright.
    fn execute_control(&mut self, op: Op, w: u32)
        requires
            is_control_op(op),
        ensures
            final(self)@ == execute_integer(old(self)@, op, w),
    {
        let rs = field_rs(w);
        let a = self.int_reg[rs as usize];
        let b = self.int_reg[field_rt(w) as usize];
        let imm = field_imm(w);
        match op {
            Op::Jr => self.pc = a,
            Op::Jalr => {
                self.write_to_reg(field_rd(w), self.pc);
                self.pc = self.int_reg[rs as usize];
            },
            Op::Syscall => {
                let epc = self.instruction_address();
                self.execute_exception(EXC_SYSCALL, None, epc);
            },
            Op::Break => {
                let epc = self.instruction_address();
                self.execute_exception(EXC_BREAK, None, epc);
            },
            Op::J => self.pc = (self.pc & 0xF000_0000) | (field_target(w) << 2),
            Op::Jal => {
                self.write_to_reg(31, self.pc);
                self.pc = (self.pc & 0xF000_0000) | (field_target(w) << 2);
            },
            Op::Beq => if a == b {
                self.branch(imm);
            },
            Op::Bne => if a != b {
                self.branch(imm);
            },
            Op::Blez => if !signed_less(0, a) {
                self.branch(imm);
            },
            _ => if signed_less(0, a) {
                self.branch(imm);
            },
        }
    }

    /// Arithmetic, logic and compares with an immediate: the result goes to `rt`.
    fn execute_immediate(&mut self, op: Op, w: u32)
        requires
            is_immediate_op(op),
        ensures
            final(self)@ == execute_integer(old(self)@, op, w),
    {
        let rt = field_rt(w);
        let a = self.int_reg[field_rs(w) as usize];
        let imm = field_imm(w);
        let extended = extend16(imm);
        match op {
            Op::Addi => {
                let sum = to_signed(a) + to_signed(extended);
                if sum < -0x8000_0000 || sum > 0x7FFF_FFFF {
                    let epc = self.instruction_address();
                    self.execute_exception(EXC_OVERFLOW, None, epc);
                }
                self.write_to_reg(rt, add_wrapping(a, extended));
            },
            Op::Addiu => self.write_to_reg(rt, add_wrapping(a, extended)),
            Op::Slti => self.write_to_reg(
                rt,
                if signed_less(a, extended) {
                    1
                } else {
                    0
                },
            ),
            Op::Sltiu => self.write_to_reg(
                rt,
                if a < extended {
                    1
                } else {
                    0
                },
            ),
            Op::Andi => self.write_to_reg(rt, a & imm),
            Op::Ori => self.write_to_reg(rt, a | imm),
            Op::Xori => self.write_to_reg(rt, a ^ imm),
            _ => self.write_to_reg(rt, imm << 16),
        }
    }

    /// Compare-and-trap instructions.
    fn decode_trap_instruction(&mut self, op: Op, w: u32)
        requires
            is_trap_op(op),
        ensures
            final(self)@ == execute_integer(old(self)@, op, w),
    {
        let a = self.int_reg[field_rs(w) as usize];
        let b = self.int_reg[field_rt(w) as usize];
        let i = extend16(field_imm(w));
        let taken = match op {
            Op::Tge => !signed_less(a, b),
            Op::Tgeu => a >= b,
            Op::Tlt => signed_less(a, b),
            Op::Tltu => a < b,
            Op::Teq => a == b,
            Op::Tne => a != b,
            Op::Tgei => !signed_less(a, i),
            Op::Tgeiu => a >= i,
            Op::Tlti => signed_less(a, i),
            Op::Tltiu => a < i,
            Op::Teqi => a == i,
            _ => a != i,
        };
        if taken {
            let epc = self.instruction_address();
            self.execute_exception(EXC_TRAP, None, epc);
        }
    }

    /// Loads and stores, including the unaligned and floating-point ones: they
    /// only describe the bus transaction.
    fn execute_memory(&mut self, op: Op, w: u32)
        requires
            is_memory_op(op),
        ensures
            final(self)@ == execute_memory(old(self)@, op, w),
    {
        let rt = field_rt(w);
        let b = self.int_reg[rt as usize];
        let address = add_wrapping(self.int_reg[field_rs(w) as usize], extend16(field_imm(w)));
        let aligned = address - address % 4;
        let offset = (address % 4) as u8;
        match op {
            Op::Lb => self.set_request(address, 0, 1, false, rt, true, None),
            Op::Lh => self.set_request(address, 0, 2, false, rt, true, None),
            Op::Lw => self.set_request(address, 0, 4, false, rt, false, None),
            Op::Lbu => self.set_request(address, 0, 1, false, rt, false, None),
            Op::Lhu => self.set_request(address, 0, 2, false, rt, false, None),
            Op::Lwl => self.set_request(
                aligned,
                0,
                4,
                false,
                rt,
                false,
                Some(PartialWrite { from: 0, to: 3 - offset }),
            ),
            Op::Lwr => self.set_request(
                aligned,
                0,
                4,
                false,
                rt,
                false,
                Some(PartialWrite { from: 3 - offset, to: 3 }),
            ),
            Op::Sb => self.set_request(address, b % 0x100, 1, true, 0, false, None),
            Op::Sh => self.set_request(address, b % 0x1_0000, 2, true, 0, false, None),
            Op::Sw => self.set_request(address, b, 4, true, 0, false, None),
            Op::Lwc1 => self.set_request(address, 0, 4, false, rt + 32, false, None),
            _ => self.set_request(address, self.cp1_reg[rt as usize], 4, true, 0, false, None),
        }
    }

    /// System-coprocessor instructions; the caller has checked kernel mode.
    fn decode_cp0(&mut self, op: Op, w: u32)
        requires
            is_system_op(op),
        ensures
            final(self)@ == execute_system(old(self)@, op, w),
    {
        match op {
            Op::Mfc0 => self.write_to_reg(field_rt(w), self.cp0_reg[field_rd(w) as usize]),
            Op::Mtc0 => self.cp0_reg[field_rd(w) as usize] = self.int_reg[field_rt(w) as usize],
            Op::Rfe => self.rfe(),
            _ => {
                self.rfe();
                self.pc = self.cp0_reg[14];
            },
        }
    }

    fn rfe(&mut self)
        ensures
            final(self)@ == old(self)@.restore_mode(),
    {
        let status = self.cp0_reg[12];
        self.cp0_reg[12] = (status & !0xFu32) | ((status >> 2) & 0xF);
    }

    fn get_double_precision(&self, reg_num: u8) -> (r: u64)
        requires
            reg_num < 32,
            reg_num % 2 == 0,
        ensures
            r == self@.double(reg_num as u32),
    {
        ((self.cp1_reg[reg_num as usize + 1] as u64) << 32) | (self.cp1_reg[reg_num as usize] as u64)
    }

    fn write_to_double_register(&mut self, reg_num: u8, data: u64)
        requires
            reg_num < 32,
            reg_num % 2 == 0,
        ensures
            final(self)@ == old(self)@.with_double(reg_num as u32, data),
    {
        self.cp1_reg[reg_num as usize] = data as u32;
        self.cp1_reg[reg_num as usize + 1] = (data >> 32) as u32;
    }

    fn float_operand(&self, format: FloatFormat, reg_num: u8) -> (r: u64)
        requires
            reg_num < 32,
            format == FloatFormat::Double ==> reg_num % 2 == 0,
        ensures
            r == self@.float_operand(format, reg_num as u32),
    {
        match format {
            FloatFormat::Double => self.get_double_precision(reg_num),
            _ => self.cp1_reg[reg_num as usize] as u64,
        }
    }

    fn move_float(&mut self, precision: Precision, fd: u8, fs: u8)
        requires
            fd < 32,
            fs < 32,
            precision == Precision::Double ==> fd % 2 == 0 && fs % 2 == 0,
        ensures
            final(self)@ == crate::state::move_float(old(self)@, precision, fd as u32, fs as u32),
    {
        match precision {
            Precision::Single => self.cp1_reg[fd as usize] = self.cp1_reg[fs as usize],
            Precision::Double => {
                let bits = self.get_double_precision(fs);
                self.write_to_double_register(fd, bits);
            },
        }
    }

    /// Floating-point instructions; the caller has checked the register parity.
    fn decode_cp1(&mut self, op: Op, w: u32)
        requires
            is_float_op(op),
            float_registers_even(op, w),
        ensures
            final(self)@ == execute_float(old(self)@, op, w),
    {
        let fd = field_shamt(w);
        let fs = field_rd(w);
        let ft = field_rt(w);
        match op {
            Op::Mfc1 => self.write_to_reg(ft, self.cp1_reg[fs as usize]),
            Op::Mtc1 => self.cp1_reg[fs as usize] = self.int_reg[ft as usize],
            Op::Mov(p) => self.move_float(p, fd, fs),
            Op::Abs(p) => match p {
                Precision::Single => self.cp1_reg[fd as usize] = self.cp1_reg[fs as usize] & 0x7FFF_FFFF,
                Precision::Double => {
                    let bits = self.get_double_precision(fs);
                    self.write_to_double_register(fd, bits & 0x7FFF_FFFF_FFFF_FFFF);
                },
            },
            Op::Neg(p) => match p {
                Precision::Single => self.cp1_reg[fd as usize] = self.cp1_reg[fs as usize] ^ 0x8000_0000,
                Precision::Double => {
                    let bits = self.get_double_precision(fs);
                    self.write_to_double_register(fd, bits ^ 0x8000_0000_0000_0000);
                },
            },
            Op::Movz(p) => if self.int_reg[ft as usize] == 0 {
                self.move_float(p, fd, fs);
            },
            Op::Movn(p) => if self.int_reg[ft as usize] != 0 {
                self.move_float(p, fd, fs);
            },
            Op::Movf(p) => if !self.cc[field_move_cc(w) as usize] {
                self.move_float(p, fd, fs);
            },
            Op::Movt(p) => if self.cc[field_move_cc(w) as usize] {
                self.move_float(p, fd, fs);
            },
            Op::Float(kind, format) => {
                let dest = if kind_is_compare(kind) {
                    field_compare_cc(w)
                } else {
                    fd
                };
                let lhs = self.float_operand(format, fs);
                let rhs = if kind_is_binary(kind) {
                    self.float_operand(format, ft)
                } else {
                    0
                };
                self.pending = Some(FloatOp { kind, format, dest, lhs, rhs });
            },
            _ => {},
        }
    }

    /// Decodes and executes one instruction. A fault leaves the processor unchanged.
    fn decode_and_execute(&mut self, instruction: u32) -> (r: Result<(), Fault>)
        ensures
            match decode(instruction) {
                None => r == Err::<(), Fault>(Fault::UnknownInstruction(instruction))
                    && final(self)@ == old(self)@,
                Some(op) => match execute(old(self)@.with_pending(None), op, instruction) {
                    Ok(t) => r == Ok::<(), Fault>(()) && final(self)@ == t,
                    Err(f) => r == Err::<(), Fault>(f) && final(self)@ == old(self)@,
                },
            },
    {
        let op = match decode_word(instruction) {
            None => return Err(Fault::UnknownInstruction(instruction)),
            Some(op) => op,
        };
        if op_is_system(op) {
            if !self.is_kernel_mode() {
                return Err(Fault::PrivilegedInstruction(instruction));
            }
            self.pending = None;
            self.decode_cp0(op, instruction);
        } else if op_is_float(op) {
            if !registers_even(op, instruction) {
                return Err(Fault::OddFloatRegister(instruction));
            }
            self.pending = None;
            self.decode_cp1(op, instruction);
        } else if op_is_memory(op) {
            self.pending = None;
            self.execute_memory(op, instruction);
        } else {
            self.pending = None;
            self.decode_int_instruction(op, instruction);
        }
        Ok(())
    }

    /// The integer instructions that do not touch memory.
    fn decode_int_instruction(&mut self, op: Op, w: u32)
        requires
            !is_system_op(op),
            !is_float_op(op),
            !is_memory_op(op),
        ensures
            final(self)@ == execute_integer(old(self)@, op, w),
    {
        if op_is_alu(op) {
            self.execute_alu(op, w);
        } else if op_is_hi_lo(op) {
            self.execute_hi_lo(op, w);
        } else if op_is_control(op) {
            self.execute_control(op, w);
        } else if op_is_immediate(op) {
            self.execute_immediate(op, w);
        } else {
            self.decode_trap_instruction(op, w);
        }
    }

    /// The loaded word, or its selected bytes, deposited into the destination register.
    fn write_back(&mut self)
        requires
            old(self)@.buffer.partial_write matches Some(p) ==> p.from <= 3 && p.to <= 3,
        ensures
            final(self)@ == write_back(old(self)@),
    {
        let register = self.memory_buffer.write_back_register;
        let data = self.memory_buffer.data;
        let value = match self.memory_buffer.partial_write {
            Some(p) => {
                let current = if register < 32 {
                    self.int_reg[register as usize]
                } else if register < 64 {
                    self.cp1_reg[register as usize - 32]
                } else {
                    0
                };
                partial_write_back(current, data, p.from, p.to)
            },
            None => {
                let sign_extended = self.memory_buffer.sign_extended;
                let size = self.memory_buffer.data_size;
                if sign_extended && size == 1 {
                    extend8(data % 0x100)
                } else if sign_extended && size == 2 {
                    extend16(data % 0x1_0000)
                } else {
                    data
                }
            },
        };
        if register < 32 {
            self.write_to_reg(register, value);
        } else if register < 64 {
            self.cp1_reg[register as usize - 32] = value;
        }
    }

    /// Cause bits 15..8 take the request lines.
    fn set_interrupt_requests(&mut self, interrupt_requests: u8)
        ensures
            final(self)@ == old(self)@.with_cp0(
                13,
                (old(self)@.cause() & !0xFF00u32) | ((interrupt_requests as u32) << 8),
            ),
    {
        let cause = (self.cp0_reg[13] & !0xFF00u32) | ((interrupt_requests as u32) << 8);
        self.cp0_reg[13] = cause;
    }

    fn handle_interrupts(&mut self, interrupt_requests: u8)
        ensures
            final(self)@ == check_interrupts(old(self)@, interrupt_requests),
    {
        self.set_interrupt_requests(interrupt_requests);
        let status = self.cp0_reg[12];
        if status & 1 == 1 && (interrupt_requests as u32) & ((status >> 8) & 0xFF) != 0 {
            let epc = self.pc;
            self.execute_exception(EXC_INTERRUPT, None, epc);
        }
    }

    /// Cancels a transaction into the kernel segment from user mode and takes
    /// the address exception.
    fn check_memory_violation(&mut self)
        ensures
            final(self)@ == bus_check(old(self)@),
    {
        let address = self.memory_buffer.address;
        if self.memory_buffer.data_size > 0 && address & 0x8000_0000 != 0 && !self.is_kernel_mode() {
            self.memory_buffer.data_size = 0;
            let code = if self.memory_buffer.store {
                EXC_ADDRESS_STORE
            } else {
                EXC_ADDRESS_LOAD
            };
            let epc = self.instruction_address();
            self.execute_exception(code, Some(address), epc);
        }
    }

    /// Advances one phase. `data` is the fetched instruction in the
    /// decode-and-execute phase and the loaded word in the writeback phase;
    /// `interrupt_requests` is sampled in the interrupt-check phase. Returns
    /// the bus transaction to serve, or the fault that stops the processor, in
    /// which case nothing changes.
    pub fn tick(&mut self, data: u32, interrupt_requests: u8) -> (r: Result<MemoryBuffer, Fault>)
        requires
            old(self)@.wf(),
        ensures
            final(self)@.wf(),
            match tick(old(self)@, data, interrupt_requests) {
                Ok(t) => final(self)@ == t && r == Ok::<MemoryBuffer, Fault>(t.buffer),
                Err(f) => final(self)@ == old(self)@ && r == Err::<MemoryBuffer, Fault>(f),
            },
    {
        proof {
            reveal(tick);
            lemma_tick_wf(self@, data, interrupt_requests);
        }
        match self.phase {
            Phase::Fetch => {
                self.memory_buffer = MemoryBuffer {
                    address: self.pc,
                    data: 0,
                    data_size: 4,
                    store: false,
                    write_back_register: 0,
                    sign_extended: false,
                    partial_write: None,
                };
                self.pc = add_wrapping(self.pc, 4);
                self.phase = Phase::DecodeAndExecute;
            },
            Phase::DecodeAndExecute => {
                if let Err(f) = self.decode_and_execute(data) {
                    return Err(f);
                }
                if !self.memory_buffer.store && self.memory_buffer.write_back_register == 0 {
                    self.memory_buffer.data_size = 0;
                }
                self.phase = Phase::WriteBack;
            },
            Phase::WriteBack => {
                if self.memory_buffer.data_size > 0 {
                    self.memory_buffer.data = data;
                    self.write_back();
                }
                self.memory_buffer.data_size = 0;
                self.phase = Phase::InterruptCheck;
            },
            Phase::InterruptCheck => {
                self.handle_interrupts(interrupt_requests);
                self.phase = Phase::Fetch;
            },
        }
        self.check_memory_violation();
        Ok(self.memory_buffer)
    }

    /// Writes the host's result for the pending floating-point computation to
    /// its destination and clears the request; does nothing when none is pending.
    pub fn complete_float_op(&mut self, result: u64)
        requires
            old(self)@.wf(),
        ensures
            final(self)@ == complete_float(old(self)@, result),
            final(self)@.wf(),
    {
        if let Some(op) = self.pending {
            self.pending = None;
            if kind_is_compare(op.kind) {
                self.cc[op.dest as usize] = result != 0;
            } else if fills_pair(op.kind, op.format) {
                self.write_to_double_register(op.dest, result);
            } else {
                self.cp1_reg[op.dest as usize] = result as u32;
            }
        }
    }
}

/// `content` with the bytes `from..=to` replaced by the loaded word, shifted into place.
fn partial_write_back(content: u32, data: u32, from: u8, to: u8) -> (r: u32)
    requires
        from <= 3,
        to <= 3,
    ensures
        r == merge_partial(content, data, from as u32, to as u32),
{
    if from == 0 {
        let shift = 8 * (3 - to as u32);
        (content & !(0xFFFF_FFFFu32 << shift)) | (data << shift)
    } else {
        let shift = 8 * from as u32;
        (content & !(0xFFFF_FFFFu32 >> shift)) | (data >> shift)
    }
}

} // verus!
