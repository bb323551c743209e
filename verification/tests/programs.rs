use riscv_emu::bus::DRAM_BASE;
use riscv_emu::cpu::Cpu;
use riscv_emu::dram::DRAM_SIZE;
use riscv_emu::exception::Exception;
use riscv_emu::register::Register;

fn image(words: &[u32]) -> Vec<u8> {
    let mut bytes = Vec::new();
    for word in words {
        bytes.push((word & 0xff) as u8);
        bytes.push((word >> 8 & 0xff) as u8);
        bytes.push((word >> 16 & 0xff) as u8);
        bytes.push((word >> 24 & 0xff) as u8);
    }
    bytes
}

fn addi(rd: u32, rs1: u32, imm: i32) -> u32 {
    ((imm as u32) & 0xfff) << 20 | rs1 << 15 | rd << 7 | 0b0010011
}

fn addiw(rd: u32, rs1: u32, imm: i32) -> u32 {
    ((imm as u32) & 0xfff) << 20 | rs1 << 15 | rd << 7 | 0b0011011
}

fn add(rd: u32, rs1: u32, rs2: u32) -> u32 {
    rs2 << 20 | rs1 << 15 | rd << 7 | 0b0110011
}

fn lui(rd: u32, upper: u32) -> u32 {
    upper << 12 | rd << 7 | 0b0110111
}

fn beq(rs1: u32, rs2: u32, imm: i32) -> u32 {
    let imm = imm as u32;
    ((imm >> 12) & 1) << 31
        | ((imm >> 5) & 0x3f) << 25
        | rs2 << 20
        | rs1 << 15
        | ((imm >> 1) & 0xf) << 8
        | ((imm >> 11) & 1) << 7
        | 0b1100011
}

fn bne(rs1: u32, rs2: u32, imm: i32) -> u32 {
    beq(rs1, rs2, imm) | 1 << 12
}

fn jal(rd: u32, imm: i32) -> u32 {
    let imm = imm as u32;
    ((imm >> 20) & 1) << 31
        | ((imm >> 1) & 0x3ff) << 21
        | ((imm >> 11) & 1) << 20
        | ((imm >> 12) & 0xff) << 12
        | rd << 7
        | 0b1101111
}

fn sd(rs2: u32, rs1: u32, imm: i32) -> u32 {
    let imm = imm as u32;
    ((imm >> 5) & 0x7f) << 25 | rs2 << 20 | rs1 << 15 | 0b011 << 12 | (imm & 0x1f) << 7 | 0b0100011
}

fn ld(rd: u32, rs1: u32, imm: i32) -> u32 {
    ((imm as u32) & 0xfff) << 20 | rs1 << 15 | 0b011 << 12 | rd << 7 | 0b0000011
}

const ECALL: u32 = 0x0000_0073;
const EBREAK: u32 = 0x0010_0073;

/// Runs the program until it stops; the memory behind a program is zero,
/// and a word of zeros is no instruction.
fn run(words: &[u32]) -> Cpu {
    let mut cpu = Cpu::new(image(words));
    assert_eq!(cpu.run(1000), Some(Exception::IllegalInstruction));
    assert_eq!(cpu.pc(), DRAM_BASE + 4 * words.len() as u64 + 4);
    cpu
}

#[test]
fn the_assembler_of_these_tests_agrees_with_known_words() {
    assert_eq!(addi(1, 0, 5), 0x00500093);
    assert_eq!(addi(2, 0, 10), 0x00a00113);
    assert_eq!(add(3, 1, 2), 0x002081b3);
    assert_eq!(lui(5, 0x12341), 0x123412b7);
    assert_eq!(addi(5, 5, 0x678), 0x67828293);
    assert_eq!(beq(1, 2, 8), 0x00208463);
    assert_eq!(jal(1, 16), 0x010000ef);
    assert_eq!(sd(5, 2, -8), 0xfe513c23);
    assert_eq!(ld(6, 2, -8), 0xff813303);
    assert_eq!(
        image(&[0x00500093, 0x00a00113]),
        vec![0x93, 0x00, 0x50, 0x00, 0x13, 0x01, 0xa0, 0x00]
    );
}

#[test]
fn addi_then_add() {
    let cpu = run(&[addi(1, 0, 5), addi(2, 0, 10), add(3, 1, 2)]);
    assert_eq!(cpu.reg(Register::X1), 5);
    assert_eq!(cpu.reg(Register::X2), 10);
    assert_eq!(cpu.reg(Register::X3), 15);
}

#[test]
fn lui_then_addi() {
    let cpu = run(&[lui(5, 0x12341), addi(5, 5, 0x678)]);
    assert_eq!(cpu.reg(Register::X5), 0x12341678);
}

#[test]
fn store_then_load_below_the_stack_pointer() {
    let mut cpu = Cpu::new(image(&[sd(5, 2, -8), ld(6, 2, -8)]));
    cpu.set_reg(Register::X5, 0xdeadbeef_cafebabe);
    assert_eq!(cpu.run(1000), Some(Exception::IllegalInstruction));
    assert_eq!(cpu.reg(Register::X6), 0xdeadbeef_cafebabe);
    assert_eq!(cpu.reg(Register::X2), DRAM_BASE + DRAM_SIZE);
    assert_eq!(cpu.load(DRAM_BASE + DRAM_SIZE - 8, 64), Ok(0xdeadbeef_cafebabe));
}

#[test]
fn branch_taken() {
    let cpu = run(&[addi(1, 0, 3), addi(2, 0, 3), beq(1, 2, 8), addi(3, 0, 1), addi(4, 0, 2)]);
    assert_eq!(cpu.reg(Register::X3), 0);
    assert_eq!(cpu.reg(Register::X4), 2);
}

#[test]
fn branch_not_taken() {
    let cpu = run(&[addi(1, 0, 3), addi(2, 0, 3), bne(1, 2, 8), addi(3, 0, 1), addi(4, 0, 2)]);
    assert_eq!(cpu.reg(Register::X3), 1);
    assert_eq!(cpu.reg(Register::X4), 2);
}

#[test]
fn addiw_sign_extends() {
    let cpu = run(&[addi(1, 0, -1), addiw(2, 1, 0)]);
    assert_eq!(cpu.reg(Register::X1), 0xFFFFFFFF_FFFFFFFF);
    assert_eq!(cpu.reg(Register::X2), 0xFFFFFFFF_FFFFFFFF);
}

#[test]
fn x0_is_zero() {
    let cpu = run(&[addi(0, 0, 42), add(1, 0, 0)]);
    assert_eq!(cpu.reg(Register::X0), 0);
    assert_eq!(cpu.reg(Register::X1), 0);
}

#[test]
fn a_loop_counts_down() {
    // x1 = 5; x2 = 0; loop: x2 += x1; x1 -= 1; bne x1, x0, loop
    let cpu = run(&[addi(1, 0, 5), addi(2, 0, 0), add(2, 2, 1), addi(1, 1, -1), bne(1, 0, -8)]);
    assert_eq!(cpu.reg(Register::X1), 0);
    assert_eq!(cpu.reg(Register::X2), 15);
}

#[test]
fn jal_links_and_skips() {
    let mut cpu = Cpu::new(image(&[jal(1, 8), addi(3, 0, 1), addi(4, 0, 2)]));
    assert_eq!(cpu.step(), Ok(()));
    assert_eq!(cpu.reg(Register::X1), DRAM_BASE + 4);
    assert_eq!(cpu.pc(), DRAM_BASE + 8);
    assert_eq!(cpu.run(1000), Some(Exception::IllegalInstruction));
    assert_eq!(cpu.reg(Register::X3), 0);
    assert_eq!(cpu.reg(Register::X4), 2);
}

#[test]
fn a_step_advances_the_program_counter_by_four() {
    let mut cpu = Cpu::new(image(&[addi(1, 0, 5), addi(2, 0, 10), add(3, 1, 2)]));
    assert_eq!(cpu.step(), Ok(()));
    assert_eq!(cpu.pc(), DRAM_BASE + 4);
    assert_eq!(cpu.reg(Register::X1), 5);
    assert_eq!(cpu.step(), Ok(()));
    assert_eq!(cpu.pc(), DRAM_BASE + 8);
    assert_eq!(cpu.step(), Ok(()));
    assert_eq!(cpu.pc(), DRAM_BASE + 12);
    assert_eq!(cpu.reg(Register::X3), 15);
}

#[test]
fn an_instruction_that_raises_leaves_the_program_counter_behind_it() {
    let mut cpu = Cpu::new(image(&[addi(1, 0, 5), ECALL, addi(1, 0, 6), EBREAK]));
    assert_eq!(cpu.run(1000), Some(Exception::EnvCall));
    assert_eq!(cpu.pc(), DRAM_BASE + 8);
    assert_eq!(cpu.reg(Register::X1), 5);
    assert_eq!(cpu.run(1000), Some(Exception::Breakpoint));
    assert_eq!(cpu.pc(), DRAM_BASE + 16);
    assert_eq!(cpu.reg(Register::X1), 6);
    assert_eq!(cpu.step(), Err(Exception::IllegalInstruction));
    assert_eq!(cpu.pc(), DRAM_BASE + 20);
}

#[test]
fn a_fetch_that_fails_leaves_the_hart_as_it_was() {
    let mut cpu = Cpu::new(image(&[jal(0, -4)]));
    assert_eq!(cpu.step(), Ok(()));
    assert_eq!(cpu.pc(), DRAM_BASE - 4);
    assert_eq!(cpu.step(), Err(Exception::Unmapped));
    assert_eq!(cpu.pc(), DRAM_BASE - 4);
    assert_eq!(cpu.run(10), Some(Exception::Unmapped));
    assert_eq!(cpu.pc(), DRAM_BASE - 4);
    cpu.set_pc(DRAM_BASE + DRAM_SIZE);
    assert_eq!(cpu.step(), Err(Exception::OutOfBounds));
    assert_eq!(cpu.pc(), DRAM_BASE + DRAM_SIZE);
    cpu.set_pc(DRAM_BASE + DRAM_SIZE - 2);
    assert_eq!(cpu.run(10), Some(Exception::OutOfBounds));
    cpu.set_pc(u64::MAX);
    assert_eq!(cpu.run(10), Some(Exception::OutOfBounds));
}

#[test]
fn a_run_stops_when_its_turns_are_used_up() {
    // loop: jal x0, loop
    let mut cpu = Cpu::new(image(&[addi(1, 1, 1), jal(0, -4)]));
    assert_eq!(cpu.run(0), None);
    assert_eq!(cpu.pc(), DRAM_BASE);
    assert_eq!(cpu.reg(Register::X1), 0);
    assert_eq!(cpu.run(1), None);
    assert_eq!(cpu.pc(), DRAM_BASE + 4);
    assert_eq!(cpu.run(2001), None);
    assert_eq!(cpu.reg(Register::X1), 1001);
    assert_eq!(cpu.pc(), DRAM_BASE);
}

#[test]
fn register_zero_reads_as_zero_after_any_program() {
    let programs: [&[u32]; 4] = [
        &[addi(0, 0, 42), add(0, 0, 0), lui(0, 0xfffff)],
        &[jal(0, 8), 0, addi(0, 2, 1), ld(0, 2, -8), ECALL],
        &[addiw(0, 2, -1), EBREAK],
        &[0xffff_ffff],
    ];
    for program in programs {
        let mut cpu = Cpu::new(image(program));
        assert!(cpu.run(100).is_some());
        assert_eq!(cpu.reg(Register::X0), 0);
    }
}
