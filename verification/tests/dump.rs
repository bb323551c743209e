use riscv_emu::cpu::Cpu;
use riscv_emu::dump::render;
use riscv_emu::register::Register;

const NAMES: [&str; 32] = [
    "zero", "ra", "sp", "gp", "tp", "t0", "t1", "t2", "s0", "s1", "a0", "a1", "a2", "a3", "a4",
    "a5", "a6", "a7", "s2", "s3", "s4", "s5", "s6", "s7", "s8", "s9", "s10", "s11", "t3", "t4",
    "t5", "t6",
];

/// The dump as the formatting of the standard library writes it.
fn expected(regs: &[u64; 32]) -> String {
    let mut text = String::new();
    for i in 0..32 {
        text += &format!("x{:02}({})={:>#18x}", i, NAMES[i], regs[i]);
        text += if i % 4 == 3 { "\n" } else { " " };
    }
    text
}

#[test]
fn the_registers_have_their_names() {
    for (i, name) in NAMES.iter().enumerate() {
        assert_eq!(Register::from_index(i).unwrap().abi_name(), *name);
    }
    assert_eq!(Register::X0.abi_name(), "zero");
    assert_eq!(Register::X2.abi_name(), "sp");
    assert_eq!(Register::X27.abi_name(), "s11");
    assert_eq!(Register::X31.abi_name(), "t6");
}

#[test]
fn the_dump_of_a_hart_at_reset() {
    let cpu = Cpu::new(Vec::new());
    let text = String::from_utf8(cpu.dump_registers()).unwrap();
    let lines: Vec<&str> = text.lines().collect();
    assert_eq!(lines.len(), 8);
    assert_eq!(
        lines[0],
        "x00(zero)=               0x0 x01(ra)=               0x0 \
         x02(sp)=        0x88000000 x03(gp)=               0x0"
    );
    assert_eq!(
        lines[7],
        "x28(t3)=               0x0 x29(t4)=               0x0 \
         x30(t5)=               0x0 x31(t6)=               0x0"
    );
    assert!(text.ends_with("0x0\n"));
    let mut regs = [0u64; 32];
    regs[2] = 0x8800_0000;
    assert_eq!(text, expected(&regs));
}

#[test]
fn the_dump_writes_every_value_in_hexadecimal() {
    let values = [
        0u64,
        1,
        9,
        10,
        15,
        16,
        0xff,
        0x100,
        0xabc_def0,
        0x1234_5678_9abc_def0,
        0xdead_beef_cafe_babe,
        0x0fff_ffff_ffff_ffff,
        0x1000_0000_0000_0000,
        u64::MAX,
        u64::MAX - 1,
        1 << 63,
    ];
    let mut regs = [0u64; 32];
    for (i, value) in values.iter().enumerate() {
        regs[i] = *value;
        regs[31 - i] = value.rotate_left(17) ^ 0x5a5a;
    }
    let text = String::from_utf8(render(&regs)).unwrap();
    assert_eq!(text, expected(&regs));
    assert!(text.contains("x10(a0)=0xdeadbeefcafebabe "));
    assert!(text.contains("x13(a3)=0xffffffffffffffff "));
    assert!(text.contains("x01(ra)=               0x1 "));
    assert!(text.contains("x05(t0)=              0x10 "));
}

#[test]
fn the_dump_shows_what_a_program_left() {
    let mut cpu = Cpu::new(Vec::new());
    let mut regs = [0u64; 32];
    for i in 0..32 {
        let value = (i as u64).wrapping_mul(0x0123_4567_89ab_cdef);
        cpu.set_reg(Register::from_index(i).unwrap(), value);
        regs[i] = value;
    }
    assert_eq!(String::from_utf8(cpu.dump_registers()).unwrap(), expected(&regs));
}
