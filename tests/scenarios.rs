use mips_emulator::{Computer, MemoryLayout, CPU, Phase};

const MEMORY_SIZE: usize = 0x1000;

fn machine() -> Computer {
    let layout = MemoryLayout { program: 0..4, video_ram: 4..0x800, data: 0x800..0x1000 };
    Computer::new(MEMORY_SIZE, layout)
}

fn i_type(opcode: u32, rs: u32, rt: u32, imm: u32) -> u32 {
    (opcode << 26) | (rs << 21) | (rt << 16) | (imm & 0xFFFF)
}

fn r_type(rs: u32, rt: u32, rd: u32, shamt: u32, funct: u32) -> u32 {
    (rs << 21) | (rt << 16) | (rd << 11) | (shamt << 6) | funct
}

fn load_program(c: &mut Computer, words: &[u32]) {
    for (i, w) in words.iter().enumerate() {
        c.write_memory(4 * i as u32, *w, 4);
    }
}

fn run(c: &mut Computer, cycles: usize) {
    for _ in 0..cycles {
        c.cpu_step(0).unwrap();
    }
}

fn cause_code(cpu: &CPU) -> u32 {
    (cpu.cp0(13) >> 2) & 0x1F
}

#[test]
fn addiu_immediate() {
    let mut c = machine();
    load_program(&mut c, &[i_type(9, 0, 1, 5)]);
    run(&mut c, 1);
    assert_eq!(c.cpu().gpr(1), 5);
    assert_eq!(c.cpu().pc(), 4);
}

#[test]
fn lui_then_ori() {
    let mut c = machine();
    load_program(&mut c, &[i_type(15, 0, 2, 0xDEAD), i_type(13, 2, 2, 0xBEEF)]);
    run(&mut c, 2);
    assert_eq!(c.cpu().gpr(2), 0xDEAD_BEEF);
}

#[test]
fn signed_overflow_of_addi() {
    let mut c = machine();
    c.set_gpr(1, 0x7FFF_FFFE);
    load_program(&mut c, &[i_type(9, 1, 1, 1), i_type(8, 1, 2, 1)]);
    run(&mut c, 1);
    assert_eq!(c.cpu().gpr(1), 0x7FFF_FFFF);
    run(&mut c, 1);
    assert_eq!(cause_code(c.cpu()), 12);
    assert_eq!(c.cpu().cp0(14), 4);
    assert_eq!(c.cpu().pc(), 0x8000_0180);
}

#[test]
fn store_then_load_round_trip() {
    let mut c = machine();
    c.set_gpr(1, 0x1122_3344);
    load_program(&mut c, &[i_type(43, 0, 1, 0x100), i_type(35, 0, 2, 0x100)]);
    run(&mut c, 2);
    assert_eq!(c.cpu().gpr(2), 0x1122_3344);
    assert_eq!(c.ram().read_data(0x100, 4), 0x1122_3344);
    assert_eq!(c.ram().read_data(0x100, 1), 0x11);
}

#[test]
fn unaligned_load_left_then_right() {
    let mut c = machine();
    c.write_memory(0x100, 0xAABB_CCDD, 4);
    c.write_memory(0x104, 0xEE00_0000, 4);
    load_program(&mut c, &[i_type(34, 0, 1, 0x101), i_type(38, 0, 1, 0x104)]);
    run(&mut c, 1);
    assert_eq!(c.cpu().gpr(1), 0xBBCC_DD00);
    run(&mut c, 1);
    assert_eq!(c.cpu().gpr(1), 0xBBCC_DDEE);
}

#[test]
fn unaligned_load_keeps_untouched_bytes() {
    let mut c = machine();
    c.set_gpr(1, 0x1122_3344);
    c.write_memory(0x100, 0xAABB_CCDD, 4);
    load_program(&mut c, &[i_type(34, 0, 1, 0x102), i_type(38, 0, 2, 0x101)]);
    c.set_gpr(2, 0x5566_7788);
    run(&mut c, 2);
    assert_eq!(c.cpu().gpr(1), 0xCCDD_3344);
    assert_eq!(c.cpu().gpr(2), 0x5566_AABB);
}

#[test]
fn syscall_taken() {
    let mut c = machine();
    load_program(&mut c, &[r_type(0, 0, 0, 0, 12)]);
    run(&mut c, 1);
    let cpu = c.cpu();
    assert_eq!(cpu.cp0(14), 0);
    assert_eq!(cpu.pc(), 0x8000_0180);
    assert_eq!(cause_code(cpu), 8);
    let status = cpu.cp0(12);
    assert_eq!(status & 0b11, 0);
    assert_eq!((status >> 2) & 0b11, 0b01);
    assert_eq!(status & 0xFF00, 0xFF00);
}

#[test]
fn break_taken() {
    let mut c = machine();
    load_program(&mut c, &[r_type(0, 0, 0, 0, 13)]);
    run(&mut c, 1);
    assert_eq!(cause_code(c.cpu()), 9);
    assert_eq!(c.cpu().cp0(14), 0);
}

#[test]
fn load_byte_sign_extends() {
    let mut c = machine();
    c.write_memory(0x200, 0x80, 1);
    load_program(&mut c, &[i_type(32, 0, 3, 0x200), i_type(36, 0, 4, 0x200)]);
    run(&mut c, 2);
    assert_eq!(c.cpu().gpr(3), 0xFFFF_FF80);
    assert_eq!(c.cpu().gpr(4), 0x0000_0080);
}

#[test]
fn load_halfword_sign_extends() {
    let mut c = machine();
    c.write_memory(0x200, 0x8001, 2);
    load_program(&mut c, &[i_type(33, 0, 3, 0x200), i_type(37, 0, 4, 0x200)]);
    run(&mut c, 2);
    assert_eq!(c.cpu().gpr(3), 0xFFFF_8001);
    assert_eq!(c.cpu().gpr(4), 0x0000_8001);
}

#[test]
fn add_overflow_sets_epc_to_instruction() {
    let mut c = machine();
    c.set_gpr(1, 0x7FFF_FFFF);
    c.set_gpr(2, 1);
    load_program(&mut c, &[r_type(0, 0, 0, 0, 0), r_type(1, 2, 3, 0, 32)]);
    run(&mut c, 2);
    assert_eq!(cause_code(c.cpu()), 12);
    assert_eq!(c.cpu().cp0(14), 4);
    assert_eq!(c.cpu().pc(), 0x8000_0180);
    assert_eq!(c.cpu().gpr(3), 0x8000_0000);
}

#[test]
fn addu_wraps_without_exception() {
    let mut c = machine();
    c.set_gpr(1, 0xFFFF_FFFF);
    c.set_gpr(2, 2);
    load_program(&mut c, &[r_type(1, 2, 3, 0, 33)]);
    run(&mut c, 1);
    assert_eq!(c.cpu().gpr(3), 1);
    assert_eq!(c.cpu().pc(), 4);
}

#[test]
fn register_zero_stays_zero() {
    let mut c = machine();
    load_program(&mut c, &[i_type(9, 0, 0, 7), i_type(15, 0, 0, 0x1234)]);
    run(&mut c, 2);
    assert_eq!(c.cpu().gpr(0), 0);
    c.set_gpr(0, 9);
    assert_eq!(c.cpu().gpr(0), 0);
}

#[test]
fn user_mode_kernel_load_is_canceled() {
    let mut c = machine();
    c.set_gpr(1, 0xFF02);
    c.set_gpr(3, 0x8000_0000);
    // mtc0 $1, $12 then lw $2, 0($3)
    load_program(&mut c, &[(16 << 26) | (4 << 21) | (1 << 16) | (12 << 11), i_type(35, 3, 2, 0)]);
    run(&mut c, 1);
    assert_eq!(c.cpu().cp0(12) & 0b10, 0b10);
    run(&mut c, 1);
    let cpu = c.cpu();
    assert_eq!(cause_code(cpu), 4);
    assert_eq!(cpu.cp0(8), 0x8000_0000);
    assert_eq!(cpu.cp0(14), 4);
    assert_eq!(cpu.pc(), 0x8000_0180);
    assert_eq!(cpu.gpr(2), 0);
    assert_eq!(cpu.cp0(12) & 0b11, 0);
}

#[test]
fn user_mode_kernel_store_is_canceled() {
    let mut c = machine();
    c.set_gpr(1, 0xFF02);
    c.set_gpr(3, 0x8000_0100);
    load_program(&mut c, &[(16 << 26) | (4 << 21) | (1 << 16) | (12 << 11), i_type(43, 3, 1, 0)]);
    run(&mut c, 2);
    assert_eq!(cause_code(c.cpu()), 5);
    assert_eq!(c.cpu().cp0(8), 0x8000_0100);
}

#[test]
fn kernel_mode_may_touch_kernel_segment() {
    let mut cpu = CPU::new();
    cpu.set_gpr(3, 0x8000_0000);
    let fetch = cpu.tick(0, 0).unwrap();
    assert_eq!(fetch.data_size, 4);
    let load = cpu.tick(i_type(35, 3, 2, 4), 0).unwrap();
    assert_eq!(load.data_size, 4);
    assert_eq!(load.address, 0x8000_0004);
    assert!(!load.store);
}

#[test]
fn jump_keeps_upper_bits() {
    let mut cpu = CPU::new();
    cpu.set_pc(0x9000_0010);
    cpu.tick(0, 0).unwrap();
    cpu.tick((2 << 26) | 0x40, 0).unwrap();
    assert_eq!(cpu.pc(), 0x9000_0100);
}

#[test]
fn jump_and_link_saves_return_address() {
    let mut c = machine();
    load_program(&mut c, &[(3 << 26) | 0x10]);
    run(&mut c, 1);
    assert_eq!(c.cpu().gpr(31), 4);
    assert_eq!(c.cpu().pc(), 0x40);
}

#[test]
fn jump_register_and_link() {
    let mut c = machine();
    c.set_gpr(5, 0x300);
    load_program(&mut c, &[r_type(5, 0, 7, 0, 9)]);
    run(&mut c, 1);
    assert_eq!(c.cpu().gpr(7), 4);
    assert_eq!(c.cpu().pc(), 0x300);
}

#[test]
fn branch_equal_forward_and_back() {
    let mut c = machine();
    load_program(&mut c, &[i_type(4, 0, 0, 3)]);
    run(&mut c, 1);
    assert_eq!(c.cpu().pc(), 16);
    let mut c = machine();
    load_program(&mut c, &[i_type(4, 0, 0, 0xFFFF)]);
    run(&mut c, 1);
    assert_eq!(c.cpu().pc(), 0);
}

#[test]
fn branch_not_taken() {
    let mut c = machine();
    c.set_gpr(1, 1);
    load_program(&mut c, &[i_type(4, 0, 1, 3), i_type(7, 0, 0, 5), i_type(6, 1, 0, 5)]);
    run(&mut c, 3);
    assert_eq!(c.cpu().pc(), 12);
}

#[test]
fn branch_on_sign() {
    let mut c = machine();
    c.set_gpr(1, 0xFFFF_FFFF);
    load_program(&mut c, &[i_type(6, 1, 0, 2)]);
    run(&mut c, 1);
    assert_eq!(c.cpu().pc(), 12);
    let mut c = machine();
    c.set_gpr(1, 5);
    load_program(&mut c, &[i_type(7, 1, 0, 2)]);
    run(&mut c, 1);
    assert_eq!(c.cpu().pc(), 12);
}

#[test]
fn placeholder_loop_spins() {
    let mut c = machine();
    run(&mut c, 3);
    assert_eq!(c.cpu().pc(), 0);
    assert_eq!(c.ram().read_data(0, 4), 0x0800_0000);
}

#[test]
fn eret_returns_from_exception() {
    let mut cpu = CPU::new();
    cpu.tick(0, 0).unwrap();
    cpu.tick(r_type(0, 0, 0, 0, 12), 0).unwrap();
    cpu.tick(0, 0).unwrap();
    cpu.tick(0, 0).unwrap();
    assert_eq!(cpu.pc(), 0x8000_0180);
    assert_eq!(cpu.cp0(12) & 0x3F, 0b0001_00);
    cpu.tick(0, 0).unwrap();
    cpu.tick(0x4200_0018, 0).unwrap();
    assert_eq!(cpu.pc(), 0);
    assert_eq!(cpu.cp0(12) & 0xF, 0b0001);
    assert_eq!(cpu.phase(), Phase::WriteBack);
}

#[test]
fn rfe_pops_mode_stack() {
    let mut cpu = CPU::new();
    cpu.set_gpr(1, 0b10_11_00);
    cpu.tick(0, 0).unwrap();
    cpu.tick((16 << 26) | (4 << 21) | (1 << 16) | (12 << 11), 0).unwrap();
    cpu.tick(0, 0).unwrap();
    cpu.tick(0, 0).unwrap();
    cpu.tick(0, 0).unwrap();
    cpu.tick(0x4200_0010, 0).unwrap();
    assert_eq!(cpu.cp0(12) & 0x3F, 0b10_10_11);
}
