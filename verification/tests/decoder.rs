use riscv_emu::instruction::{decode, InstType, Instruction};
use riscv_emu::register::Register;

fn r_type(funct7: u32, rs2: u32, rs1: u32, funct3: u32, rd: u32, opcode: u32) -> u32 {
    funct7 << 25 | rs2 << 20 | rs1 << 15 | funct3 << 12 | rd << 7 | opcode
}

fn i_type(imm: i32, rs1: u32, funct3: u32, rd: u32, opcode: u32) -> u32 {
    ((imm as u32) & 0xfff) << 20 | rs1 << 15 | funct3 << 12 | rd << 7 | opcode
}

fn s_type(imm: i32, rs2: u32, rs1: u32, funct3: u32, opcode: u32) -> u32 {
    let imm = imm as u32;
    ((imm >> 5) & 0x7f) << 25 | rs2 << 20 | rs1 << 15 | funct3 << 12 | (imm & 0x1f) << 7 | opcode
}

fn b_type(imm: i32, rs2: u32, rs1: u32, funct3: u32) -> u32 {
    let imm = imm as u32;
    ((imm >> 12) & 1) << 31
        | ((imm >> 5) & 0x3f) << 25
        | rs2 << 20
        | rs1 << 15
        | funct3 << 12
        | ((imm >> 1) & 0xf) << 8
        | ((imm >> 11) & 1) << 7
        | 0b1100011
}

fn j_type(imm: i32, rd: u32) -> u32 {
    let imm = imm as u32;
    ((imm >> 20) & 1) << 31
        | ((imm >> 1) & 0x3ff) << 21
        | ((imm >> 11) & 1) << 20
        | ((imm >> 12) & 0xff) << 12
        | rd << 7
        | 0b1101111
}

#[test]
fn test() {
    let inst = 0x0105053b;
    let decoded = decode(inst);
    println!("Instruction {:#010x} is {:?}.\n", inst, decoded);
    let expected = Instruction::Addw { rd: Register::X10, rs1: Register::X10, rs2: Register::X16 };
    if decoded != expected {
        panic!("Failed")
    }
}

#[test]
fn decodes_the_words_of_a_known_program() {
    assert_eq!(
        decode(0x00500093),
        Instruction::Addi { rd: Register::X1, rs1: Register::X0, imm: 5 }
    );
    assert_eq!(
        decode(0x00a00113),
        Instruction::Addi { rd: Register::X2, rs1: Register::X0, imm: 10 }
    );
    assert_eq!(
        decode(0x002081b3),
        Instruction::Add { rd: Register::X3, rs1: Register::X1, rs2: Register::X2 }
    );
    assert_eq!(
        decode(0x000081b3),
        Instruction::Add { rd: Register::X3, rs1: Register::X1, rs2: Register::X0 }
    );
    assert_eq!(decode(0x123412b7), Instruction::Lui { rd: Register::X5, imm: 0x12341000 });
    assert_eq!(
        decode(0x67f28293),
        Instruction::Addi { rd: Register::X5, rs1: Register::X5, imm: 0x67f }
    );
}

#[test]
fn decodes_every_load() {
    let rd = Register::X7;
    let rs1 = Register::X9;
    let imm = -3;
    let word = |funct3: u32| i_type(-3, 9, funct3, 7, 0b0000011);
    assert_eq!(decode(word(0b000)), Instruction::Lb { rd, rs1, imm });
    assert_eq!(decode(word(0b001)), Instruction::Lh { rd, rs1, imm });
    assert_eq!(decode(word(0b010)), Instruction::Lw { rd, rs1, imm });
    assert_eq!(decode(word(0b011)), Instruction::Ld { rd, rs1, imm });
    assert_eq!(decode(word(0b100)), Instruction::Lbu { rd, rs1, imm });
    assert_eq!(decode(word(0b101)), Instruction::Lhu { rd, rs1, imm });
    assert_eq!(decode(word(0b110)), Instruction::Lwu { rd, rs1, imm });
    assert_eq!(decode(word(0b111)), Instruction::Undefined);
}

#[test]
fn decodes_every_operation_with_an_immediate() {
    let rd = Register::X31;
    let rs1 = Register::X30;
    let word = |imm: i32, funct3: u32| i_type(imm, 30, funct3, 31, 0b0010011);
    assert_eq!(decode(word(2047, 0b000)), Instruction::Addi { rd, rs1, imm: 2047 });
    assert_eq!(decode(word(-2048, 0b000)), Instruction::Addi { rd, rs1, imm: -2048 });
    assert_eq!(decode(word(-1, 0b010)), Instruction::Slti { rd, rs1, imm: -1 });
    assert_eq!(decode(word(-1, 0b011)), Instruction::Sltiu { rd, rs1, imm: -1 });
    assert_eq!(decode(word(0x555, 0b100)), Instruction::Xori { rd, rs1, imm: 0x555 });
    assert_eq!(decode(word(0x2aa, 0b110)), Instruction::Ori { rd, rs1, imm: 0x2aa });
    assert_eq!(decode(word(0x7ff, 0b111)), Instruction::Andi { rd, rs1, imm: 0x7ff });
}

#[test]
fn decodes_shifts_by_immediate_with_six_bits() {
    let rd = Register::X1;
    let rs1 = Register::X2;
    let word = |upper: u32, shamt: u32, funct3: u32| {
        (upper << 26) | (shamt << 20) | (2 << 15) | (funct3 << 12) | (1 << 7) | 0b0010011
    };
    assert_eq!(decode(word(0, 63, 0b001)), Instruction::Slli { rd, rs1, shamt: 63 });
    assert_eq!(decode(word(0, 63, 0b101)), Instruction::Srli { rd, rs1, shamt: 63 });
    assert_eq!(decode(word(0b010000, 63, 0b101)), Instruction::Srai { rd, rs1, shamt: 63 });
    assert_eq!(decode(word(0b010000, 0, 0b101)), Instruction::Srai { rd, rs1, shamt: 0 });
    assert_eq!(decode(word(0b000001, 5, 0b101)), Instruction::Undefined);
    assert_eq!(decode(word(0b110000, 5, 0b101)), Instruction::Undefined);
    // The upper bits of a left shift are not looked at.
    assert_eq!(decode(word(0b010000, 5, 0b001)), Instruction::Slli { rd, rs1, shamt: 5 });
}

#[test]
fn decodes_operations_on_words_with_an_immediate() {
    let rd = Register::X1;
    let rs1 = Register::X2;
    let word =
        |funct7: u32, shamt: u32, funct3: u32| r_type(funct7, shamt, 2, funct3, 1, 0b0011011);
    assert_eq!(
        decode(i_type(-7, 2, 0b000, 1, 0b0011011)),
        Instruction::Addiw { rd, rs1, imm: -7 }
    );
    assert_eq!(decode(word(0, 31, 0b001)), Instruction::Slliw { rd, rs1, shamt: 31 });
    assert_eq!(decode(word(0, 31, 0b101)), Instruction::Srliw { rd, rs1, shamt: 31 });
    assert_eq!(decode(word(0b0100000, 31, 0b101)), Instruction::Sraiw { rd, rs1, shamt: 31 });
    assert_eq!(decode(word(0b0000001, 31, 0b101)), Instruction::Undefined);
    assert_eq!(decode(word(0, 0, 0b010)), Instruction::Undefined);
    assert_eq!(decode(word(0, 0, 0b111)), Instruction::Undefined);
}

#[test]
fn decodes_every_operation_on_registers() {
    let rd = Register::X3;
    let rs1 = Register::X4;
    let rs2 = Register::X5;
    let word = |funct7: u32, funct3: u32| r_type(funct7, 5, 4, funct3, 3, 0b0110011);
    assert_eq!(decode(word(0, 0b000)), Instruction::Add { rd, rs1, rs2 });
    assert_eq!(decode(word(0b0100000, 0b000)), Instruction::Sub { rd, rs1, rs2 });
    assert_eq!(decode(word(0, 0b001)), Instruction::Sll { rd, rs1, rs2 });
    assert_eq!(decode(word(0, 0b010)), Instruction::Slt { rd, rs1, rs2 });
    assert_eq!(decode(word(0, 0b011)), Instruction::Sltu { rd, rs1, rs2 });
    assert_eq!(decode(word(0, 0b100)), Instruction::Xor { rd, rs1, rs2 });
    assert_eq!(decode(word(0, 0b101)), Instruction::Srl { rd, rs1, rs2 });
    assert_eq!(decode(word(0b0100000, 0b101)), Instruction::Sra { rd, rs1, rs2 });
    assert_eq!(decode(word(0, 0b110)), Instruction::Or { rd, rs1, rs2 });
    assert_eq!(decode(word(0, 0b111)), Instruction::And { rd, rs1, rs2 });
    assert_eq!(decode(word(0b0100000, 0b001)), Instruction::Undefined);
    assert_eq!(decode(word(0b0000001, 0b000)), Instruction::Undefined);
}

#[test]
fn decodes_every_operation_on_words_in_registers() {
    let rd = Register::X3;
    let rs1 = Register::X4;
    let rs2 = Register::X5;
    let word = |funct7: u32, funct3: u32| r_type(funct7, 5, 4, funct3, 3, 0b0111011);
    assert_eq!(decode(word(0, 0b000)), Instruction::Addw { rd, rs1, rs2 });
    assert_eq!(decode(word(0b0100000, 0b000)), Instruction::Subw { rd, rs1, rs2 });
    assert_eq!(decode(word(0, 0b001)), Instruction::Sllw { rd, rs1, rs2 });
    assert_eq!(decode(word(0, 0b101)), Instruction::Srlw { rd, rs1, rs2 });
    assert_eq!(decode(word(0b0100000, 0b101)), Instruction::Sraw { rd, rs1, rs2 });
    assert_eq!(decode(word(0, 0b010)), Instruction::Undefined);
    assert_eq!(decode(word(0b0100000, 0b001)), Instruction::Undefined);
}

#[test]
fn decodes_every_store_with_its_split_immediate() {
    let rs1 = Register::X8;
    let rs2 = Register::X17;
    assert_eq!(
        decode(s_type(-8, 17, 8, 0b000, 0b0100011)),
        Instruction::Sb { rs1, rs2, imm: -8 }
    );
    assert_eq!(
        decode(s_type(2047, 17, 8, 0b001, 0b0100011)),
        Instruction::Sh { rs1, rs2, imm: 2047 }
    );
    assert_eq!(
        decode(s_type(-2048, 17, 8, 0b010, 0b0100011)),
        Instruction::Sw { rs1, rs2, imm: -2048 }
    );
    assert_eq!(
        decode(s_type(0x155, 17, 8, 0b011, 0b0100011)),
        Instruction::Sd { rs1, rs2, imm: 0x155 }
    );
    assert_eq!(decode(s_type(0, 17, 8, 0b100, 0b0100011)), Instruction::Undefined);
    // sd x5, -8(x2)
    assert_eq!(
        decode(0xfe513c23),
        Instruction::Sd { rs1: Register::X2, rs2: Register::X5, imm: -8 }
    );
}

#[test]
fn decodes_every_branch_with_its_scattered_immediate() {
    let rs1 = Register::X1;
    let rs2 = Register::X2;
    assert_eq!(decode(b_type(8, 2, 1, 0b000)), Instruction::Beq { rs1, rs2, imm: 8 });
    assert_eq!(decode(b_type(-2, 2, 1, 0b001)), Instruction::Bne { rs1, rs2, imm: -2 });
    assert_eq!(decode(b_type(4094, 2, 1, 0b100)), Instruction::Blt { rs1, rs2, imm: 4094 });
    assert_eq!(decode(b_type(-4096, 2, 1, 0b101)), Instruction::Bge { rs1, rs2, imm: -4096 });
    assert_eq!(decode(b_type(2048, 2, 1, 0b110)), Instruction::Bltu { rs1, rs2, imm: 2048 });
    assert_eq!(decode(b_type(0x554, 2, 1, 0b111)), Instruction::Bgeu { rs1, rs2, imm: 0x554 });
    assert_eq!(decode(b_type(8, 2, 1, 0b010)), Instruction::Undefined);
    assert_eq!(decode(b_type(8, 2, 1, 0b011)), Instruction::Undefined);
    // beq x1, x2, +8
    assert_eq!(decode(0x00208463), Instruction::Beq { rs1, rs2, imm: 8 });
}

#[test]
fn decodes_upper_immediates_in_place() {
    assert_eq!(decode(0xfffff0b7), Instruction::Lui { rd: Register::X1, imm: -4096 });
    assert_eq!(decode(0x80000137), Instruction::Lui { rd: Register::X2, imm: i32::MIN });
    assert_eq!(decode(0x00001097), Instruction::Auipc { rd: Register::X1, imm: 0x1000 });
    assert_eq!(decode(0x7ffff097), Instruction::Auipc { rd: Register::X1, imm: 0x7ffff000 });
}

#[test]
fn decodes_jumps() {
    assert_eq!(decode(j_type(2048, 1)), Instruction::Jal { rd: Register::X1, imm: 2048 });
    assert_eq!(decode(j_type(-2, 1)), Instruction::Jal { rd: Register::X1, imm: -2 });
    assert_eq!(decode(j_type(0xffffe, 0)), Instruction::Jal { rd: Register::X0, imm: 0xffffe });
    assert_eq!(
        decode(j_type(-0x100000, 31)),
        Instruction::Jal { rd: Register::X31, imm: -0x100000 }
    );
    assert_eq!(decode(j_type(0x12344, 5)), Instruction::Jal { rd: Register::X5, imm: 0x12344 });
    // jal x1, +16
    assert_eq!(decode(0x010000ef), Instruction::Jal { rd: Register::X1, imm: 16 });
    assert_eq!(
        decode(i_type(-4, 6, 0b000, 1, 0b1100111)),
        Instruction::Jalr { rd: Register::X1, rs1: Register::X6, imm: -4 }
    );
    assert_eq!(decode(i_type(-4, 6, 0b001, 1, 0b1100111)), Instruction::Undefined);
}

#[test]
fn decodes_fence_and_the_environment_instructions() {
    assert_eq!(
        decode(0x0ff0000f),
        Instruction::Fence { rd: Register::X0, rs1: Register::X0, imm: 0x0ff }
    );
    assert_eq!(decode(0x0000100f), Instruction::Undefined);
    assert_eq!(decode(0x00000073), Instruction::Ecall);
    assert_eq!(decode(0x00100073), Instruction::Ebreak);
    assert_eq!(decode(0x00200073), Instruction::Undefined);
    assert_eq!(decode(0x000000f3), Instruction::Undefined);
    assert_eq!(decode(0x00008073), Instruction::Undefined);
    assert_eq!(decode(0x00001073), Instruction::Undefined);
}

#[test]
fn every_unknown_opcode_is_undefined() {
    let known = [
        0b0000011, 0b0001111, 0b0010011, 0b0010111, 0b0011011, 0b0100011, 0b0110011, 0b0110111,
        0b0111011, 0b1100011, 0b1100111, 0b1101111, 0b1110011,
    ];
    for opcode in 0u32..128 {
        if !known.contains(&opcode) {
            assert_eq!(decode(opcode), Instruction::Undefined);
            assert_eq!(decode(0xffff_ff80 | opcode), Instruction::Undefined);
            assert_eq!(decode(0x0020_8000 | opcode), Instruction::Undefined);
        }
    }
    assert_eq!(decode(0), Instruction::Undefined);
    assert_eq!(decode(0xffff_ffff), Instruction::Undefined);
}

#[test]
fn a_layout_decodes_only_words_of_its_opcodes() {
    let add = 0x002081b3;
    let addi = 0x00500093;
    assert_eq!(
        InstType::R.decode(add),
        Instruction::Add { rd: Register::X3, rs1: Register::X1, rs2: Register::X2 }
    );
    assert_eq!(
        InstType::I.decode(addi),
        Instruction::Addi { rd: Register::X1, rs1: Register::X0, imm: 5 }
    );
    assert_eq!(InstType::I.decode(add), Instruction::Undefined);
    assert_eq!(InstType::R.decode(addi), Instruction::Undefined);
    assert_eq!(InstType::S.decode(addi), Instruction::Undefined);
    assert_eq!(InstType::B.decode(addi), Instruction::Undefined);
    assert_eq!(InstType::U.decode(addi), Instruction::Undefined);
    assert_eq!(InstType::J.decode(addi), Instruction::Undefined);
    assert_eq!(
        InstType::S.decode(0xfe513c23),
        Instruction::Sd { rs1: Register::X2, rs2: Register::X5, imm: -8 }
    );
    assert_eq!(
        InstType::B.decode(0x00208463),
        Instruction::Beq { rs1: Register::X1, rs2: Register::X2, imm: 8 }
    );
    assert_eq!(
        InstType::U.decode(0x123412b7),
        Instruction::Lui { rd: Register::X5, imm: 0x12341000 }
    );
    assert_eq!(InstType::J.decode(0x010000ef), Instruction::Jal { rd: Register::X1, imm: 16 });
}

#[test]
fn register_fields_name_all_thirty_two_registers() {
    for n in 0u32..32 {
        let decoded = decode(r_type(0, n, n, 0, n, 0b0110011));
        let register = Register::from_index(n as usize).unwrap();
        assert_eq!(decoded, Instruction::Add { rd: register, rs1: register, rs2: register });
        assert_eq!(register.index(), n as usize);
    }
    assert_eq!(Register::from_index(32), None);
    assert_eq!(Register::from_index(usize::MAX), None);
    assert_eq!(Register::from_index(0), Some(Register::X0));
    assert_eq!(Register::from_index(2), Some(Register::X2));
    assert_eq!(Register::X31.index(), 31);
}
