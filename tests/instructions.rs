use mips_emulator::{
    Computer, Fault, FloatFormat, FloatOpKind, Memory, MemoryLayout, Phase, StepFault, CPU,
};

fn machine() -> Computer {
    let layout = MemoryLayout { program: 0..4, video_ram: 4..0x800, data: 0x800..0x1000 };
    Computer::new(0x1000, layout)
}

fn i_type(opcode: u32, rs: u32, rt: u32, imm: u32) -> u32 {
    (opcode << 26) | (rs << 21) | (rt << 16) | (imm & 0xFFFF)
}

fn r_type(rs: u32, rt: u32, rd: u32, shamt: u32, funct: u32) -> u32 {
    (rs << 21) | (rt << 16) | (rd << 11) | (shamt << 6) | funct
}

fn cop1(fmt: u32, ft: u32, fs: u32, fd: u32, funct: u32) -> u32 {
    (0x11 << 26) | (fmt << 21) | (ft << 16) | (fs << 11) | (fd << 6) | funct
}

/// Runs one instruction on a bare processor, with no memory transaction served.
fn execute(cpu: &mut CPU, instruction: u32) {
    assert_eq!(cpu.phase(), Phase::Fetch);
    cpu.tick(0, 0).unwrap();
    cpu.tick(instruction, 0).unwrap();
    cpu.tick(0, 0).unwrap();
    cpu.tick(0, 0).unwrap();
}

fn cause_code(cpu: &CPU) -> u32 {
    (cpu.cp0(13) >> 2) & 0x1F
}

#[test]
fn phases_cycle_in_order() {
    let mut cpu = CPU::new();
    let expected = [Phase::DecodeAndExecute, Phase::WriteBack, Phase::InterruptCheck, Phase::Fetch];
    for n in 0..12 {
        assert_eq!(cpu.phase(), if n % 4 == 0 { Phase::Fetch } else { expected[n % 4 - 1] });
        let before = cpu.pc();
        let was_fetch = cpu.phase() == Phase::Fetch;
        cpu.tick(0, 0).unwrap();
        if was_fetch {
            assert_eq!(cpu.pc(), before + 4);
        }
        assert_eq!(cpu.phase(), expected[n % 4]);
    }
}

#[test]
fn fetch_requests_a_word_at_pc() {
    let mut cpu = CPU::new();
    let b = cpu.tick(0, 0).unwrap();
    assert_eq!((b.address, b.data_size, b.store, b.write_back_register), (0, 4, false, 0));
    assert_eq!(cpu.pc(), 4);
}

#[test]
fn buffer_is_empty_after_writeback() {
    let mut cpu = CPU::new();
    cpu.tick(0, 0).unwrap();
    let load = cpu.tick(i_type(35, 0, 2, 0x40), 0).unwrap();
    assert_eq!(load.data_size, 4);
    let after = cpu.tick(0x1234_5678, 0).unwrap();
    assert_eq!(after.data_size, 0);
    assert_eq!(cpu.gpr(2), 0x1234_5678);
}

#[test]
fn store_buffer_names_no_register() {
    let mut cpu = CPU::new();
    cpu.set_gpr(4, 0xA1B2_C3D4);
    cpu.tick(0, 0).unwrap();
    let b = cpu.tick(i_type(40, 0, 4, 0x20), 0).unwrap();
    assert!(b.store);
    assert_eq!((b.data_size, b.data, b.write_back_register), (1, 0xD4, 0));
    let mut cpu = CPU::new();
    cpu.set_gpr(4, 0xA1B2_C3D4);
    cpu.tick(0, 0).unwrap();
    let b = cpu.tick(i_type(41, 0, 4, 0x20), 0).unwrap();
    assert_eq!((b.data_size, b.data, b.write_back_register), (2, 0xC3D4, 0));
}

#[test]
fn negative_offset_address() {
    let mut cpu = CPU::new();
    cpu.set_gpr(5, 0x100);
    cpu.tick(0, 0).unwrap();
    let b = cpu.tick(i_type(35, 5, 2, 0xFFFC), 0).unwrap();
    assert_eq!(b.address, 0xFC);
}

#[test]
fn shifts() {
    let mut cpu = CPU::new();
    cpu.set_gpr(1, 0x8000_00F0);
    cpu.set_gpr(2, 36);
    execute(&mut cpu, r_type(0, 1, 3, 4, 0));
    assert_eq!(cpu.gpr(3), 0x0000_0F00);
    execute(&mut cpu, r_type(0, 1, 3, 4, 2));
    assert_eq!(cpu.gpr(3), 0x0800_000F);
    execute(&mut cpu, r_type(0, 1, 3, 4, 3));
    assert_eq!(cpu.gpr(3), 0xF800_000F);
    execute(&mut cpu, r_type(2, 1, 3, 0, 4));
    assert_eq!(cpu.gpr(3), 0x0000_0F00);
    execute(&mut cpu, r_type(2, 1, 3, 0, 6));
    assert_eq!(cpu.gpr(3), 0x0800_000F);
    execute(&mut cpu, r_type(2, 1, 3, 0, 7));
    assert_eq!(cpu.gpr(3), 0xF800_000F);
}

#[test]
fn logic_and_compares() {
    let mut cpu = CPU::new();
    cpu.set_gpr(1, 0xF0F0_FFFF);
    cpu.set_gpr(2, 0x0FF0_0001);
    execute(&mut cpu, r_type(1, 2, 3, 0, 36));
    assert_eq!(cpu.gpr(3), 0x00F0_0001);
    execute(&mut cpu, r_type(1, 2, 3, 0, 37));
    assert_eq!(cpu.gpr(3), 0xFFF0_FFFF);
    execute(&mut cpu, r_type(1, 2, 3, 0, 38));
    assert_eq!(cpu.gpr(3), 0xFF00_FFFE);
    execute(&mut cpu, r_type(1, 2, 3, 0, 39));
    assert_eq!(cpu.gpr(3), 0x000F_0000);
    execute(&mut cpu, r_type(1, 2, 3, 0, 42));
    assert_eq!(cpu.gpr(3), 1);
    execute(&mut cpu, r_type(1, 2, 3, 0, 43));
    assert_eq!(cpu.gpr(3), 0);
    execute(&mut cpu, i_type(10, 1, 3, 0xFFFF));
    assert_eq!(cpu.gpr(3), 1);
    execute(&mut cpu, i_type(11, 1, 3, 0xFFFF));
    assert_eq!(cpu.gpr(3), 1);
    execute(&mut cpu, i_type(12, 1, 3, 0x8F0F));
    assert_eq!(cpu.gpr(3), 0x0000_8F0F);
    execute(&mut cpu, i_type(14, 1, 3, 0x00FF));
    assert_eq!(cpu.gpr(3), 0xF0F0_FF00);
}

#[test]
fn subtraction() {
    let mut cpu = CPU::new();
    cpu.set_gpr(1, 3);
    cpu.set_gpr(2, 5);
    execute(&mut cpu, r_type(1, 2, 3, 0, 35));
    assert_eq!(cpu.gpr(3), 0xFFFF_FFFE);
    execute(&mut cpu, r_type(1, 2, 3, 0, 34));
    assert_eq!(cpu.gpr(3), 0xFFFF_FFFE);
    assert_eq!(cpu.pc(), 8);
    cpu.set_gpr(1, 0x8000_0000);
    cpu.set_gpr(2, 1);
    execute(&mut cpu, r_type(1, 2, 3, 0, 34));
    assert_eq!(cause_code(&cpu), 12);
    assert_eq!(cpu.gpr(3), 0x7FFF_FFFF);
    assert_eq!(cpu.cp0(14), 8);
}

#[test]
fn multiply() {
    let mut cpu = CPU::new();
    cpu.set_gpr(1, 0xFFFF_FFFF);
    cpu.set_gpr(2, 2);
    execute(&mut cpu, r_type(1, 2, 0, 0, 24));
    assert_eq!((cpu.hi(), cpu.lo()), (0xFFFF_FFFF, 0xFFFF_FFFE));
    execute(&mut cpu, r_type(1, 2, 0, 0, 25));
    assert_eq!((cpu.hi(), cpu.lo()), (1, 0xFFFF_FFFE));
    execute(&mut cpu, r_type(0, 0, 5, 0, 16));
    execute(&mut cpu, r_type(0, 0, 6, 0, 18));
    assert_eq!((cpu.gpr(5), cpu.gpr(6)), (1, 0xFFFF_FFFE));
    execute(&mut cpu, r_type(2, 0, 0, 0, 17));
    execute(&mut cpu, r_type(1, 0, 0, 0, 19));
    assert_eq!((cpu.hi(), cpu.lo()), (2, 0xFFFF_FFFF));
}

#[test]
fn divide() {
    let mut cpu = CPU::new();
    cpu.set_gpr(1, (-7i32) as u32);
    cpu.set_gpr(2, 2);
    execute(&mut cpu, r_type(1, 2, 0, 0, 26));
    assert_eq!((cpu.lo(), cpu.hi()), ((-3i32) as u32, (-1i32) as u32));
    execute(&mut cpu, r_type(1, 2, 0, 0, 27));
    assert_eq!((cpu.lo(), cpu.hi()), (0x7FFF_FFFC, 1));
    cpu.set_gpr(1, 0x8000_0000);
    cpu.set_gpr(2, 0xFFFF_FFFF);
    execute(&mut cpu, r_type(1, 2, 0, 0, 26));
    assert_eq!((cpu.lo(), cpu.hi()), (0x8000_0000, 0));
}

#[test]
fn divide_by_zero_is_not_trapped() {
    let mut cpu = CPU::new();
    cpu.set_gpr(1, 42);
    execute(&mut cpu, r_type(1, 0, 0, 0, 26));
    assert_eq!((cpu.lo(), cpu.hi()), (0xFFFF_FFFF, 42));
    execute(&mut cpu, r_type(1, 0, 0, 0, 27));
    assert_eq!((cpu.lo(), cpu.hi()), (0xFFFF_FFFF, 42));
    assert_eq!(cpu.pc(), 8);
}

#[test]
fn traps() {
    let cases: [(u32, bool); 12] = [
        (r_type(1, 2, 0, 0, 0x34), false),
        (r_type(1, 2, 0, 0, 0x36), true),
        (r_type(1, 2, 0, 0, 0x30), false),
        (r_type(1, 2, 0, 0, 0x31), true),
        (r_type(1, 2, 0, 0, 0x32), true),
        (r_type(1, 2, 0, 0, 0x33), false),
        (i_type(1, 1, 12, 0xFFFF), true),
        (i_type(1, 1, 14, 0xFFFF), false),
        (i_type(1, 1, 8, 0), false),
        (i_type(1, 1, 9, 0), true),
        (i_type(1, 1, 10, 0), true),
        (i_type(1, 1, 11, 0), false),
    ];
    for (instruction, taken) in cases {
        let mut cpu = CPU::new();
        cpu.set_gpr(1, 0xFFFF_FFFF);
        cpu.set_gpr(2, 1);
        execute(&mut cpu, instruction);
        if taken {
            assert_eq!(cause_code(&cpu), 13, "{:08X}", instruction);
            assert_eq!(cpu.pc(), 0x8000_0180);
            assert_eq!(cpu.cp0(14), 0);
        } else {
            assert_eq!(cpu.pc(), 4, "{:08X}", instruction);
        }
    }
}

#[test]
fn unknown_instruction_faults() {
    let mut cpu = CPU::new();
    cpu.tick(0, 0).unwrap();
    let r = cpu.tick(0xFC00_0000, 0);
    assert_eq!(r, Err(Fault::UnknownInstruction(0xFC00_0000)));
    assert_eq!(cpu.phase(), Phase::DecodeAndExecute);
    assert_eq!(cpu.pc(), 4);
}

#[test]
fn system_instruction_faults_in_user_mode() {
    let mut cpu = CPU::new();
    cpu.set_gpr(1, 0xFF02);
    execute(&mut cpu, (16 << 26) | (4 << 21) | (1 << 16) | (12 << 11));
    cpu.tick(0, 0).unwrap();
    let mfc0 = (16 << 26) | (2 << 16) | (12 << 11);
    assert_eq!(cpu.tick(mfc0, 0), Err(Fault::PrivilegedInstruction(mfc0)));
    assert_eq!(cpu.tick(0x4200_0010, 0), Err(Fault::PrivilegedInstruction(0x4200_0010)));
}

#[test]
fn move_from_system_register() {
    let mut cpu = CPU::new();
    execute(&mut cpu, (16 << 26) | (2 << 16) | (12 << 11));
    assert_eq!(cpu.gpr(2), 0xFF01);
}

#[test]
fn interrupt_taken_when_unmasked() {
    let mut cpu = CPU::new();
    cpu.tick(0, 0).unwrap();
    cpu.tick(0, 0).unwrap();
    cpu.tick(0, 0).unwrap();
    cpu.tick(0, 0b0000_0100).unwrap();
    assert_eq!(cpu.pc(), 0x8000_0180);
    assert_eq!(cpu.cp0(14), 4);
    assert_eq!(cause_code(&cpu), 0);
    assert_eq!((cpu.cp0(13) >> 8) & 0xFF, 0b0000_0100);
    assert_eq!(cpu.cp0(12) & 0x3F, 0b0001_00);
}

#[test]
fn interrupt_ignored_when_disabled_or_masked() {
    let mut cpu = CPU::new();
    cpu.set_gpr(1, 0x0401);
    execute(&mut cpu, (16 << 26) | (4 << 21) | (1 << 16) | (12 << 11));
    cpu.tick(0, 0).unwrap();
    cpu.tick(0, 0).unwrap();
    cpu.tick(0, 0).unwrap();
    cpu.tick(0b0000_0010, 0b0000_0010).unwrap();
    assert_eq!(cpu.pc(), 8);
    assert_eq!((cpu.cp0(13) >> 8) & 0xFF, 0b0000_0010);
    let mut cpu = CPU::new();
    cpu.set_gpr(1, 0xFF00);
    execute(&mut cpu, (16 << 26) | (4 << 21) | (1 << 16) | (12 << 11));
    cpu.tick(0, 0).unwrap();
    cpu.tick(0, 0).unwrap();
    cpu.tick(0, 0).unwrap();
    cpu.tick(0, 0xFF).unwrap();
    assert_eq!(cpu.pc(), 8);
}

#[test]
fn float_moves_are_bit_exact() {
    let mut cpu = CPU::new();
    cpu.set_gpr(1, 0x7FC0_0001);
    execute(&mut cpu, cop1(4, 1, 2, 0, 0));
    assert_eq!(cpu.fpr(2), 0x7FC0_0001);
    execute(&mut cpu, cop1(0x10, 0, 2, 3, 6));
    assert_eq!(cpu.fpr(3), 0x7FC0_0001);
    execute(&mut cpu, cop1(0, 4, 3, 0, 0));
    assert_eq!(cpu.gpr(4), 0x7FC0_0001);
    execute(&mut cpu, cop1(0x10, 0, 2, 5, 7));
    assert_eq!(cpu.fpr(5), 0xFFC0_0001);
    execute(&mut cpu, cop1(0x10, 0, 5, 6, 5));
    assert_eq!(cpu.fpr(6), 0x7FC0_0001);
}

#[test]
fn double_moves_use_register_pairs() {
    let mut cpu = CPU::new();
    let bits = (-2.5f64).to_bits();
    cpu.set_gpr(1, bits as u32);
    cpu.set_gpr(2, (bits >> 32) as u32);
    execute(&mut cpu, cop1(4, 1, 2, 0, 0));
    execute(&mut cpu, cop1(4, 2, 3, 0, 0));
    execute(&mut cpu, cop1(0x11, 0, 2, 4, 5));
    let abs = (cpu.fpr(4) as u64) | ((cpu.fpr(5) as u64) << 32);
    assert_eq!(f64::from_bits(abs), 2.5);
    execute(&mut cpu, cop1(0x11, 0, 4, 6, 7));
    let neg = (cpu.fpr(6) as u64) | ((cpu.fpr(7) as u64) << 32);
    assert_eq!(f64::from_bits(neg), -2.5);
}

#[test]
fn odd_double_register_faults() {
    let mut cpu = CPU::new();
    cpu.tick(0, 0).unwrap();
    let mov_d = cop1(0x11, 0, 3, 4, 6);
    assert_eq!(cpu.tick(mov_d, 0), Err(Fault::OddFloatRegister(mov_d)));
    let add_d = cop1(0x11, 5, 2, 4, 0);
    assert_eq!(cpu.tick(add_d, 0), Err(Fault::OddFloatRegister(add_d)));
}

#[test]
fn conditional_float_moves() {
    let mut cpu = CPU::new();
    cpu.set_gpr(1, 0x3F80_0000);
    execute(&mut cpu, cop1(4, 1, 2, 0, 0));
    execute(&mut cpu, cop1(0x10, 0, 2, 3, 0x12));
    assert_eq!(cpu.fpr(3), 0x3F80_0000);
    execute(&mut cpu, cop1(0x10, 1, 2, 4, 0x12));
    assert_eq!(cpu.fpr(4), 0);
    execute(&mut cpu, cop1(0x10, 1, 2, 4, 0x13));
    assert_eq!(cpu.fpr(4), 0x3F80_0000);
    execute(&mut cpu, cop1(0x10, 0, 2, 5, 0x11));
    assert_eq!(cpu.fpr(5), 0x3F80_0000);
    execute(&mut cpu, cop1(0x10, 1, 2, 6, 0x11));
    assert_eq!(cpu.fpr(6), 0);
}

#[test]
fn float_arithmetic_is_handed_to_the_host() {
    let mut cpu = CPU::new();
    cpu.set_gpr(1, 1.5f32.to_bits());
    cpu.set_gpr(2, 2.25f32.to_bits());
    execute(&mut cpu, cop1(4, 1, 2, 0, 0));
    execute(&mut cpu, cop1(4, 2, 4, 0, 0));
    execute(&mut cpu, cop1(0x10, 4, 2, 6, 0));
    let op = cpu.float_request().unwrap();
    assert_eq!((op.kind, op.format, op.dest), (FloatOpKind::Add, FloatFormat::Single, 6));
    let sum = f32::from_bits(op.lhs as u32) + f32::from_bits(op.rhs as u32);
    cpu.complete_float_op(sum.to_bits() as u64);
    assert_eq!(f32::from_bits(cpu.fpr(6)), 3.75);
    assert!(cpu.float_request().is_none());
}

#[test]
fn float_compare_sets_condition() {
    let mut cpu = CPU::new();
    execute(&mut cpu, cop1(0x10, 4, 2, 3 << 2, 0x3C));
    let op = cpu.float_request().unwrap();
    assert_eq!((op.kind, op.dest), (FloatOpKind::Lt, 3));
    cpu.complete_float_op(1);
    assert!(cpu.condition(3));
    execute(&mut cpu, cop1(0x10, 4, 2, 3 << 2, 0x32));
    cpu.complete_float_op(0);
    assert!(!cpu.condition(3));
}

#[test]
fn float_request_is_cleared_by_next_instruction() {
    let mut cpu = CPU::new();
    execute(&mut cpu, cop1(0x11, 0, 2, 4, 4));
    let op = cpu.float_request().unwrap();
    assert_eq!((op.kind, op.format, op.rhs), (FloatOpKind::Sqrt, FloatFormat::Double, 0));
    execute(&mut cpu, 0);
    assert!(cpu.float_request().is_none());
}

#[test]
fn double_result_fills_pair() {
    let mut cpu = CPU::new();
    execute(&mut cpu, cop1(0x14, 0, 2, 4, 0x21));
    let op = cpu.float_request().unwrap();
    assert_eq!((op.kind, op.format, op.dest), (FloatOpKind::ToDouble, FloatFormat::Word, 4));
    cpu.complete_float_op(0x4004_0000_0000_0000);
    assert_eq!((cpu.fpr(4), cpu.fpr(5)), (0, 0x4004_0000));
}

#[test]
fn float_load_and_store() {
    let mut c = machine();
    c.write_memory(0x100, 0x4049_0FDB, 4);
    c.set_gpr(3, 0x100);
    c.write_memory(0, i_type(0x31, 3, 7, 0), 4);
    c.write_memory(4, i_type(0x39, 3, 7, 0x10), 4);
    c.cpu_step(0).unwrap();
    assert_eq!(c.cpu().fpr(7), 0x4049_0FDB);
    c.cpu_step(0).unwrap();
    assert_eq!(c.ram().read_data(0x110, 4), 0x4049_0FDB);
}

#[test]
fn step_outside_ram_reports_bus_fault() {
    let mut c = machine();
    c.set_gpr(3, 0x2000);
    c.write_memory(0, i_type(35, 3, 2, 0), 4);
    match c.cpu_step(0) {
        Err(StepFault::Bus(b)) => assert_eq!(b.address, 0x2000),
        other => panic!("unexpected {:?}", other),
    }
}

#[test]
fn memory_is_big_endian() {
    let mut m = Memory::new(16);
    m.write_data(4, 0x0102_0304, 4);
    assert_eq!(m.read_byte(4), 0x01);
    assert_eq!(m.read_byte(7), 0x04);
    assert_eq!(m.read_halfword(5), 0x0203);
    assert_eq!(m.read_word(4), 0x0102_0304);
    m.write_halfword(0, 0xABCD_EF12);
    assert_eq!(m.read_data(0, 2), 0xEF12);
    m.write_byte(2, 0x1FF);
    assert_eq!(m.read_data(2, 1), 0xFF);
    m.write_word(8, 0xDEAD_BEEF);
    assert_eq!(m.read_data(8, 4), 0xDEAD_BEEF);
    assert_eq!(m.len(), 16);
}

#[test]
fn memory_round_trip_truncates() {
    let mut m = Memory::new(8);
    for (size, expected) in [(1u8, 0x78u32), (2, 0x5678), (4, 0x1234_5678)] {
        m.write_data(0, 0x1234_5678, size);
        assert_eq!(m.read_data(0, size), expected);
    }
    assert_eq!(Memory::new(3).read_data(0, 2), 0);
}

#[test]
fn read_words_sweeps_pixels() {
    let mut m = Memory::new(32);
    m.write_data(8, 0x00FF_0000, 4);
    m.write_data(12, 0x0000_FF00, 4);
    assert_eq!(m.read_words(8, 3), vec![0x00FF_0000, 0x0000_FF00, 0]);
}

#[test]
fn step_with_unknown_instruction_reports_cpu_fault() {
    let mut c = machine();
    c.write_memory(0, 0xFC00_0000, 4);
    assert_eq!(c.cpu_step(0), Err(StepFault::Cpu(Fault::UnknownInstruction(0xFC00_0000))));
}

#[test]
fn user_mode_fetch_from_kernel_segment_is_refused() {
    let mut cpu = CPU::new();
    cpu.set_gpr(1, 0xFF02);
    execute(&mut cpu, (16 << 26) | (4 << 21) | (1 << 16) | (12 << 11));
    cpu.set_pc(0x8000_0000);
    let b = cpu.tick(0, 0).unwrap();
    assert_eq!(b.data_size, 0);
    assert_eq!(cause_code(&cpu), 4);
    assert_eq!(cpu.cp0(8), 0x8000_0000);
    assert_eq!(cpu.cp0(14), 0x8000_0000);
    assert_eq!(cpu.pc(), 0x8000_0180);
}
