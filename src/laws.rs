//! Properties of the processor that hold of every state and every input.
use vstd::prelude::*;
use crate::instruction::{decode, Op, ERET_WORD};
use crate::state::{
    tick, execute, execute_integer, execute_memory, execute_float, execute_system, check_interrupts,
    CpuState, run_phase, bus_check, MemoryBuffer, float_registers_even, EXC_OVERFLOW, EXC_SYSCALL,
    EXC_BREAK, EXC_TRAP, EXC_ADDRESS_LOAD, EXC_ADDRESS_STORE, BAD_VADDR, EXCEPTION_HANDLER_ADDRESS,
    next_phase, Phase, Fault, CAUSE, EXC_INTERRUPT,
};
use crate::word::{
    lemma_field_bounds, overflows, rd, rs, rt, sign_extend8, signed, wrap, target, imm, signed16,
};

verus! {

proof fn lemma_raise_wf(s: CpuState, code: u32, bad_address: Option<u32>, epc: u32)
    requires
        s.wf(),
    ensures
        s.raise(code, bad_address, epc).wf(),
{
}

/// Writing an integer register keeps the state well formed.
pub proof fn lemma_with_gpr_wf(s: CpuState, r: u32, v: u32)
    requires
        s.wf(),
        r < 32,
    ensures
        s.with_gpr(r, v).wf(),
{
}

proof fn lemma_integer_wf(s: CpuState, op: Op, w: u32)
    requires
        s.wf(),
    ensures
        execute_integer(s, op, w).wf(),
{
    lemma_field_bounds(w);
    let epc = s.instruction_address();
    // One arm per instruction keeps each case of the proof small.
    match op {
        Op::Add | Op::Sub | Op::Addi => {
            lemma_raise_wf(s, EXC_OVERFLOW, None, epc);
            let t = s.raise(EXC_OVERFLOW, None, epc);
            lemma_with_gpr_wf(t, rd(w), 0);
            assert(execute_integer(s, op, w).wf());
        },
        Op::Syscall => lemma_raise_wf(s, EXC_SYSCALL, None, epc),
        Op::Break => lemma_raise_wf(s, EXC_BREAK, None, epc),
        Op::Tge | Op::Tgeu | Op::Tlt | Op::Tltu | Op::Teq | Op::Tne | Op::Tgei | Op::Tgeiu
        | Op::Tlti | Op::Tltiu | Op::Teqi | Op::Tnei => lemma_raise_wf(s, EXC_TRAP, None, epc),
        Op::Sll => {},
        Op::Srl => {},
        Op::Sra => {},
        Op::Sllv => {},
        Op::Srlv => {},
        Op::Srav => {},
        Op::Jr => {},
        Op::Jalr => {},
        Op::Mfhi => {},
        Op::Mthi => {},
        Op::Mflo => {},
        Op::Mtlo => {},
        Op::Mult => {},
        Op::Multu => {},
        Op::Div => {},
        Op::Divu => {},
        Op::Addu => {},
        Op::Subu => {},
        Op::And => {},
        Op::Or => {},
        Op::Xor => {},
        Op::Nor => {},
        Op::Slt => {},
        Op::Sltu => {},
        Op::J => {},
        Op::Jal => {},
        Op::Beq => {},
        Op::Bne => {},
        Op::Blez => {},
        Op::Bgtz => {},
        Op::Addiu => {},
        Op::Slti => {},
        Op::Sltiu => {},
        Op::Andi => {},
        Op::Ori => {},
        Op::Xori => {},
        Op::Lui => {},
        _ => {},
    }
}

proof fn lemma_memory_wf(s: CpuState, op: Op, w: u32)
    requires
        s.wf(),
    ensures
        execute_memory(s, op, w).wf(),
{
    lemma_field_bounds(w);
}

proof fn lemma_float_wf(s: CpuState, op: Op, w: u32)
    requires
        s.wf(),
        float_registers_even(op, w),
    ensures
        execute_float(s, op, w).wf(),
{
    lemma_field_bounds(w);
}

proof fn lemma_system_wf(s: CpuState, op: Op, w: u32)
    requires
        s.wf(),
    ensures
        execute_system(s, op, w).wf(),
{
    lemma_field_bounds(w);
}

/// Every tick keeps the state well formed: register 0 reads zero, a store names
/// no writeback register, and a pending floating-point result has a valid destination.
pub proof fn lemma_tick_wf(s: CpuState, data: u32, requests: u8)
    requires
        s.wf(),
    ensures
        tick(s, data, requests) matches Ok(t) ==> t.wf(),
{
    reveal(tick);
    lemma_field_bounds(data);
    let s0 = s.with_pending(None);
    assert(s0.wf());
    if let Some(op) = decode(data) {
        lemma_integer_wf(s0, op, data);
        lemma_memory_wf(s0, op, data);
        lemma_system_wf(s0, op, data);
        if float_registers_even(op, data) {
            lemma_float_wf(s0, op, data);
        }
    }
    if let Ok(t) = run_phase(s, data, requests) {
        assert(t.wf());
    }
}

/// Register 0 reads zero after every tick, whatever instruction ran.
pub proof fn lemma_register_zero(s: CpuState, data: u32, requests: u8)
    requires
        s.wf(),
    ensures
        tick(s, data, requests) matches Ok(t) ==> t.gpr[0] == 0,
{
    lemma_tick_wf(s, data, requests);
}

proof fn lemma_execute_keeps_phase(s: CpuState, op: Op, w: u32)
    ensures
        execute(s, op, w) matches Ok(t) ==> t.phase == s.phase,
{
}

/// Each tick moves the phase one step along
/// Fetch → DecodeAndExecute → WriteBack → InterruptCheck → Fetch.
pub proof fn lemma_phase_advances(s: CpuState, data: u32, requests: u8)
    ensures
        tick(s, data, requests) matches Ok(t) ==> t.phase == next_phase(s.phase),
{
    reveal(tick);
    if let Some(op) = decode(data) {
        lemma_execute_keeps_phase(s.with_pending(None), op, data);
    }
}

/// The state after feeding the ticks `inputs` (data word, interrupt requests) in order.
pub open spec fn run(s: CpuState, inputs: Seq<(u32, u8)>) -> Result<CpuState, Fault>
    decreases inputs.len(),
{
    if inputs.len() == 0 {
        Ok(s)
    } else {
        match run(s, inputs.drop_last()) {
            Ok(t) => tick(t, inputs.last().0, inputs.last().1),
            Err(f) => Err(f),
        }
    }
}

/// The phase after `n` ticks from a fetch.
pub open spec fn phase_at(n: nat) -> Phase {
    if n % 4 == 0 {
        Phase::Fetch
    } else if n % 4 == 1 {
        Phase::DecodeAndExecute
    } else if n % 4 == 2 {
        Phase::WriteBack
    } else {
        Phase::InterruptCheck
    }
}

/// Starting from a fetch, the phase after `n` ticks is Fetch, DecodeAndExecute,
/// WriteBack or InterruptCheck as `n` is 0, 1, 2 or 3 modulo 4.
pub proof fn lemma_phase_cycle(s: CpuState, inputs: Seq<(u32, u8)>)
    requires
        s.phase == Phase::Fetch,
    ensures
        run(s, inputs) matches Ok(t) ==> t.phase == phase_at(inputs.len()),
    decreases inputs.len(),
{
    if inputs.len() > 0 {
        lemma_phase_cycle(s, inputs.drop_last());
        if let Ok(t) = run(s, inputs.drop_last()) {
            lemma_phase_advances(t, inputs.last().0, inputs.last().1);
        }
    }
}

/// A fetch moves the program counter forward by exactly 4, unless the fetch
/// itself is refused (an address in the kernel segment from user mode).
pub proof fn lemma_fetch_advances_pc(s: CpuState, data: u32, requests: u8)
    requires
        s.phase == Phase::Fetch,
        s.kernel_mode() || s.pc & 0x8000_0000 == 0,
    ensures
        tick(s, data, requests) matches Ok(t) && t.pc == wrap(s.pc + 4),
{
    reveal(tick);
}

/// After the writeback phase no transaction is pending, and a store never
/// names a writeback register.
pub proof fn lemma_buffer_discipline(s: CpuState, data: u32, requests: u8)
    requires
        s.wf(),
    ensures
        tick(s, data, requests) matches Ok(t) ==> {
            &&& s.phase == Phase::WriteBack ==> t.buffer.data_size == 0
            &&& t.buffer.store ==> t.buffer.write_back_register == 0
        },
{
    reveal(tick);
    lemma_tick_wf(s, data, requests);
}

/// A byte load deposits the byte sign-extended when the load is signed (`lb`),
/// zero-extended otherwise (`lbu`).
pub proof fn lemma_byte_load_extension(s: CpuState, byte: u32, requests: u8)
    requires
        s.wf(),
        s.phase == Phase::WriteBack,
        s.buffer.data_size == 1,
        s.buffer.partial_write is None,
        1 <= s.buffer.write_back_register < 32,
        byte < 0x100,
    ensures
        tick(s, byte, requests) matches Ok(t) && t.gpr[s.buffer.write_back_register as int] == if s.buffer.sign_extended {
            sign_extend8(byte)
        } else {
            byte
        },
{
    reveal(tick);
}

/// `lb` and `lbu` issue a one-byte read into `rt`, signed and unsigned respectively.
pub proof fn lemma_byte_load_request(s: CpuState, w: u32)
    requires
        decode(w) == Some(Op::Lb) || decode(w) == Some(Op::Lbu),
    ensures
        execute(s, decode(w).unwrap(), w) matches Ok(t) && t.buffer.data_size == 1 && !t.buffer.store
            && t.buffer.write_back_register == rt(w) && t.buffer.partial_write is None
            && t.buffer.sign_extended == (decode(w) == Some(Op::Lb)),
{
    lemma_field_bounds(w);
}

proof fn lemma_cause_code(cause: u32, code: u32)
    requires
        code < 32,
    ensures
        ((((cause & !0x7Cu32) | ((code & 0x1F) << 2)) >> 2) & 0x1F) == code,
{
    assert(code < 32 ==> ((((cause & !0x7Cu32) | ((code & 0x1F) << 2)) >> 2) & 0x1F) == code)
        by (bit_vector);
}

proof fn lemma_mode_stack(status: u32)
    ensures
        ((status & !0x3Fu32) | ((status << 2) & 0x3C)) & 2 == 0,
        ((status & !0x3Fu32) | ((status << 2) & 0x3C)) & 1 == 0,
        (((((status & !0x3Fu32) | ((status << 2) & 0x3C)) & !0xFu32) | ((((status & !0x3Fu32) | ((
        status << 2) & 0x3C)) >> 2) & 0xF)) & 0xF) == status & 0xF,
{
    assert(((status & !0x3Fu32) | ((status << 2) & 0x3C)) & 2 == 0) by (bit_vector);
    assert(((status & !0x3Fu32) | ((status << 2) & 0x3C)) & 1 == 0) by (bit_vector);
    assert((((((status & !0x3Fu32) | ((status << 2) & 0x3C)) & !0xFu32) | ((((status & !0x3Fu32)
        | ((status << 2) & 0x3C)) >> 2) & 0xF)) & 0xF) == status & 0xF) by (bit_vector);
}

/// Taking an exception records its code in Cause, saves `epc`, enters kernel
/// mode with interrupts off, and jumps to the handler.
pub proof fn lemma_raise(s: CpuState, code: u32, bad_address: Option<u32>, epc: u32)
    requires
        s.cp0.len() == 32,
        code < 32,
    ensures
        s.raise(code, bad_address, epc).exception_code() == code,
        s.raise(code, bad_address, epc).epc() == epc,
        s.raise(code, bad_address, epc).pc == EXCEPTION_HANDLER_ADDRESS,
        s.raise(code, bad_address, epc).kernel_mode(),
        s.raise(code, bad_address, epc).status() & 1 == 0,
        bad_address matches Some(a) ==> s.raise(code, bad_address, epc).cp0[BAD_VADDR as int] == a,
{
    let t = match bad_address {
        Some(a) => s.with_cp0(BAD_VADDR, a),
        None => s,
    };
    lemma_cause_code(t.cause(), code);
    lemma_mode_stack(t.status());
}

/// `add` whose operands overflow a signed word raises Overflow, with EPC at the
/// `add` itself, and still writes the truncated sum (to a register other than 0).
pub proof fn lemma_add_overflow(s: CpuState, w: u32)
    requires
        s.wf(),
        decode(w) == Some(Op::Add),
        overflows(signed(s.reg(rs(w))) + signed(s.reg(rt(w)))),
    ensures
        execute(s, Op::Add, w) matches Ok(t) && t.exception_code() == EXC_OVERFLOW && t.epc()
            == s.instruction_address() && t.pc == EXCEPTION_HANDLER_ADDRESS && (rd(w) != 0 ==> t.reg(
            rd(w),
        ) == wrap(s.reg(rs(w)) + s.reg(rt(w)))),
{
    lemma_field_bounds(w);
    lemma_raise(s, EXC_OVERFLOW, None, s.instruction_address());
}

/// In user mode, a transaction into the kernel segment is canceled by the
/// check that ends every tick (`bus_check`, applied by `tick` to the state the
/// phase left), and an address exception is taken with BadVaddr set to its address.
pub proof fn lemma_privilege_gate(u: CpuState)
    requires
        u.cp0.len() == 32,
        !u.kernel_mode(),
        u.buffer.data_size > 0,
        u.buffer.address & 0x8000_0000 != 0,
    ensures
        bus_check(u).buffer.data_size == 0,
        bus_check(u).cp0[BAD_VADDR as int] == u.buffer.address,
        bus_check(u).exception_code() == if u.buffer.store {
            EXC_ADDRESS_STORE
        } else {
            EXC_ADDRESS_LOAD
        },
        bus_check(u).kernel_mode(),
        bus_check(u).pc == EXCEPTION_HANDLER_ADDRESS,
{
    let v = u.with_buffer(MemoryBuffer { data_size: 0, ..u.buffer });
    let code = if u.buffer.store {
        EXC_ADDRESS_STORE
    } else {
        EXC_ADDRESS_LOAD
    };
    lemma_raise(v, code, Some(u.buffer.address), u.instruction_address());
}

/// `j` keeps the top four bits of the program counter and takes the other
/// 28 from the target field.
pub proof fn lemma_jump_keeps_segment(s: CpuState, w: u32)
    requires
        decode(w) == Some(Op::J),
    ensures
        execute(s, Op::J, w) matches Ok(t) && t.pc & 0xF000_0000 == s.pc & 0xF000_0000 && t.pc
            & 0x0FFF_FFFF == target(w) << 2,
{
    lemma_field_bounds(w);
    let pc = s.pc;
    let x = target(w);
    assert(x < 0x400_0000 ==> ((pc & 0xF000_0000) | (x << 2)) & 0xF000_0000 == pc & 0xF000_0000
        && ((pc & 0xF000_0000) | (x << 2)) & 0x0FFF_FFFF == x << 2) by (bit_vector);
}

/// `beq` with equal operands moves the program counter by four times the
/// signed immediate, modulo 2^32.
pub proof fn lemma_branch_equal(s: CpuState, w: u32)
    requires
        decode(w) == Some(Op::Beq),
        s.reg(rs(w)) == s.reg(rt(w)),
    ensures
        execute(s, Op::Beq, w) matches Ok(t) && t.pc == wrap(s.pc + 4 * signed16(imm(w))),
{
}

/// An exception followed by `eret` returns to the saved EPC (the interrupted
/// program counter for an interrupt, the faulting instruction otherwise) and
/// restores the current and previous mode bits.
pub proof fn lemma_eret_round_trip(s: CpuState, code: u32, bad_address: Option<u32>, epc: u32)
    requires
        s.cp0.len() == 32,
        code < 32,
    ensures
        execute(s.raise(code, bad_address, epc), Op::Eret, ERET_WORD) matches Ok(u) && u.pc == epc
            && u.status() & 0xF == s.status() & 0xF,
{
    lemma_raise(s, code, bad_address, epc);
    lemma_mode_stack(s.status());
}

/// An interrupt taken in the interrupt-check phase saves the program counter
/// of the next instruction, so `eret` resumes exactly where it left off.
pub proof fn lemma_interrupt_resumes(s: CpuState, requests: u8)
    requires
        s.cp0.len() == 32,
        s.status() & 1 == 1,
        (requests as u32) & ((s.status() >> 8) & 0xFF) != 0,
    ensures
        check_interrupts(s, requests).epc() == s.pc,
        check_interrupts(s, requests).exception_code() == EXC_INTERRUPT,
        execute(check_interrupts(s, requests), Op::Eret, ERET_WORD) matches Ok(u) && u.pc == s.pc
            && u.status() & 0xF == s.status() & 0xF,
{
    let t = s.with_cp0(CAUSE, (s.cause() & !0xFF00u32) | ((requests as u32) << 8));
    lemma_raise(t, EXC_INTERRUPT, None, t.pc);
    lemma_eret_round_trip(t, EXC_INTERRUPT, None, t.pc);
}

} // verus!
