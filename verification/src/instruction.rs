//! The instructions of RV64I as typed values, and the decoder that takes a
//! 32-bit instruction word to the instruction it stands for.

use crate::arith::twos_complement;
use crate::register::Register;
use vstd::prelude::*;

verus! {

/// An instruction of the RV64I base set, with the operands it needs.
///
/// Register operands are `rd`, `rs1` and `rs2`. An immediate `imm` is the
/// signed number that the instruction word encodes, already sign-extended
/// from its width in the word. A shift amount `shamt` is the unsigned number
/// of bit positions; a shift on 64 bits counts with its low six bits and a
/// shift on a word with its low five, as the shifts by a register do.
#[derive(Clone, Copy, Debug, PartialEq, Eq, Structural)]
pub enum Instruction {
    /// A word that encodes no supported instruction.
    Undefined,
    Addi { rd: Register, rs1: Register, imm: i32 },
    Slti { rd: Register, rs1: Register, imm: i32 },
    Sltiu { rd: Register, rs1: Register, imm: i32 },
    Xori { rd: Register, rs1: Register, imm: i32 },
    Ori { rd: Register, rs1: Register, imm: i32 },
    Andi { rd: Register, rs1: Register, imm: i32 },
    Slli { rd: Register, rs1: Register, shamt: u32 },
    Srli { rd: Register, rs1: Register, shamt: u32 },
    Srai { rd: Register, rs1: Register, shamt: u32 },
    Lb { rd: Register, rs1: Register, imm: i32 },
    Lh { rd: Register, rs1: Register, imm: i32 },
    Lw { rd: Register, rs1: Register, imm: i32 },
    Lbu { rd: Register, rs1: Register, imm: i32 },
    Lhu { rd: Register, rs1: Register, imm: i32 },
    Lwu { rd: Register, rs1: Register, imm: i32 },
    Ld { rd: Register, rs1: Register, imm: i32 },
    Fence { rd: Register, rs1: Register, imm: i32 },
    Jalr { rd: Register, rs1: Register, imm: i32 },
    Ecall,
    Ebreak,
    Add { rd: Register, rs1: Register, rs2: Register },
    Sub { rd: Register, rs1: Register, rs2: Register },
    Sll { rd: Register, rs1: Register, rs2: Register },
    Slt { rd: Register, rs1: Register, rs2: Register },
    Sltu { rd: Register, rs1: Register, rs2: Register },
    Xor { rd: Register, rs1: Register, rs2: Register },
    Srl { rd: Register, rs1: Register, rs2: Register },
    Sra { rd: Register, rs1: Register, rs2: Register },
    Or { rd: Register, rs1: Register, rs2: Register },
    And { rd: Register, rs1: Register, rs2: Register },
    Auipc { rd: Register, imm: i32 },
    Lui { rd: Register, imm: i32 },
    Sb { rs1: Register, rs2: Register, imm: i32 },
    Sh { rs1: Register, rs2: Register, imm: i32 },
    Sw { rs1: Register, rs2: Register, imm: i32 },
    Sd { rs1: Register, rs2: Register, imm: i32 },
    Beq { rs1: Register, rs2: Register, imm: i32 },
    Bne { rs1: Register, rs2: Register, imm: i32 },
    Blt { rs1: Register, rs2: Register, imm: i32 },
    Bge { rs1: Register, rs2: Register, imm: i32 },
    Bltu { rs1: Register, rs2: Register, imm: i32 },
    Bgeu { rs1: Register, rs2: Register, imm: i32 },
    Jal { rd: Register, imm: i32 },
    Addiw { rd: Register, rs1: Register, imm: i32 },
    Slliw { rd: Register, rs1: Register, shamt: u32 },
    Srliw { rd: Register, rs1: Register, shamt: u32 },
    Sraiw { rd: Register, rs1: Register, shamt: u32 },
    Addw { rd: Register, rs1: Register, rs2: Register },
    Subw { rd: Register, rs1: Register, rs2: Register },
    Sllw { rd: Register, rs1: Register, rs2: Register },
    Srlw { rd: Register, rs1: Register, rs2: Register },
    Sraw { rd: Register, rs1: Register, rs2: Register },
}

impl Instruction {
    /// Whether the instruction loads a register from memory.
    pub open spec fn is_load(self) -> bool {
        self is Lb || self is Lh || self is Lw || self is Ld || self is Lbu
        || self is Lhu || self is Lwu
    }

    /// Whether the instruction stores a register to memory.
    pub open spec fn is_store(self) -> bool {
        self is Sb || self is Sh || self is Sw || self is Sd
    }

    /// Whether the instruction is a conditional branch.
    pub open spec fn is_branch(self) -> bool {
        self is Beq || self is Bne || self is Blt || self is Bge || self is Bltu
        || self is Bgeu
    }

    /// Whether the instruction operates on a register and an immediate, on all
    /// 64 bits.
    pub open spec fn is_op_imm(self) -> bool {
        self is Addi || self is Slti || self is Sltiu || self is Xori || self is Ori
        || self is Andi || self is Slli || self is Srli || self is Srai
    }

    /// Whether the instruction operates on two registers, on all 64 bits.
    pub open spec fn is_op(self) -> bool {
        self is Add || self is Sub || self is Sll || self is Slt || self is Sltu
        || self is Xor || self is Srl || self is Sra || self is Or || self is And
    }

    /// Whether the instruction operates on the low word of a register and an
    /// immediate.
    pub open spec fn is_op_imm_word(self) -> bool {
        self is Addiw || self is Slliw || self is Srliw || self is Sraiw
    }

    /// Whether the instruction operates on the low words of two registers.
    pub open spec fn is_op_word(self) -> bool {
        self is Addw || self is Subw || self is Sllw || self is Srlw || self is Sraw
    }

    /// Whether the instruction forms a value from an upper immediate.
    pub open spec fn is_upper(self) -> bool {
        self is Lui || self is Auipc
    }

    /// Whether the instruction is a jump that links.
    pub open spec fn is_jump(self) -> bool {
        self is Jal || self is Jalr
    }

    /// Whether the instruction is a fence, an environment call, a breakpoint or
    /// no instruction at all.
    pub open spec fn is_other(self) -> bool {
        self is Fence || self is Ecall || self is Ebreak || self is Undefined
    }
}

/// The six layouts of an instruction word.
#[derive(Clone, Copy, Debug, PartialEq, Eq, Structural)]
pub enum InstType {
    /// funct7, rs2, rs1, funct3, rd, opcode
    R,
    /// imm[11:0], rs1, funct3, rd, opcode
    I,
    /// imm[11:5], rs2, rs1, funct3, imm[4:0], opcode
    S,
    /// imm[12|10:5], rs2, rs1, funct3, imm[4:1|11], opcode
    B,
    /// imm[31:12], rd, opcode
    U,
    /// imm[20|10:1|11|19:12], rd, opcode
    J,
}

/// The opcode of an instruction word: its bits 6 to 0.
pub open spec fn opcode_of(inst: u32) -> u32 {
    inst % 0x80
}

/// The destination register of an instruction word: its bits 11 to 7.
pub open spec fn rd_of(inst: u32) -> Register {
    Register::of(((inst / 0x80) % 32) as int)
}

/// The field `funct3` of an instruction word: its bits 14 to 12.
pub open spec fn funct3_of(inst: u32) -> u32 {
    (inst / 0x1000) % 8
}

/// The first source register of an instruction word: its bits 19 to 15.
pub open spec fn rs1_of(inst: u32) -> Register {
    Register::of(((inst / 0x8000) % 32) as int)
}

/// The second source register of an instruction word: its bits 24 to 20.
pub open spec fn rs2_of(inst: u32) -> Register {
    Register::of(((inst / 0x10_0000) % 32) as int)
}

/// The field `funct7` of an instruction word: its bits 31 to 25.
pub open spec fn funct7_of(inst: u32) -> u32 {
    inst / 0x200_0000
}

/// Bit number `k` of an instruction word, where `weight` is two to the
/// power `k`.
pub open spec fn bit_of(inst: u32, weight: u32) -> u32 {
    (inst / weight) % 2
}

/// The immediate of an I-type word: bits 31 to 20 as a signed number of
/// twelve bits.
pub open spec fn imm_i(inst: u32) -> i32 {
    twos_complement(inst as int / 0x10_0000, 0x1000) as i32
}

/// The immediate of an S-type word: bits 31 to 25 above bits 11 to 7, as a
/// signed number of twelve bits.
pub open spec fn imm_s(inst: u32) -> i32 {
    twos_complement((inst as int / 0x200_0000) * 32 + (inst as int / 0x80) % 32, 0x1000) as i32
}

/// The immediate of a B-type word, a signed number of thirteen bits whose
/// lowest bit is zero: bit 31 of the word is its bit 12, bit 7 its bit 11,
/// bits 30 to 25 its bits 10 to 5 and bits 11 to 8 its bits 4 to 1.
pub open spec fn imm_b(inst: u32) -> i32 {
    twos_complement(
        bit_of(inst, 0x8000_0000) * 0x1000 + bit_of(inst, 0x80) * 0x800 + ((inst as int
            / 0x200_0000) % 64) * 32 + ((inst as int / 0x100) % 16) * 2,
        0x2000,
    ) as i32
}

/// The immediate of a U-type word: bits 31 to 12 in place, above twelve
/// zeros, as a signed number of 32 bits.
pub open spec fn imm_u(inst: u32) -> i32 {
    twos_complement((inst as int / 0x1000) * 0x1000, 0x1_0000_0000) as i32
}

/// The immediate of a J-type word, a signed number of 21 bits whose lowest
/// bit is zero: bit 31 of the word is its bit 20, bits 19 to 12 stay in
/// place, bit 20 is its bit 11 and bits 30 to 21 its bits 10 to 1.
pub open spec fn imm_j(inst: u32) -> i32 {
    twos_complement(
        bit_of(inst, 0x8000_0000) * 0x10_0000 + ((inst as int / 0x1000) % 256) * 0x1000 + bit_of(
            inst,
            0x10_0000,
        ) * 0x800 + ((inst as int / 0x20_0000) % 1024) * 2,
        0x20_0000,
    ) as i32
}

/// The shift amount of a shift by immediate on 64 bits: bits 25 to 20.
pub open spec fn shamt_of(inst: u32) -> u32 {
    (inst / 0x10_0000) % 64
}

/// The shift amount of a shift by immediate on a word: bits 24 to 20.
pub open spec fn shamt_word_of(inst: u32) -> u32 {
    (inst / 0x10_0000) % 32
}

/// Bits 31 to 26, which tell the right shifts by immediate on 64 bits apart.
pub open spec fn shift_kind_of(inst: u32) -> u32 {
    inst / 0x400_0000
}

/// The layout of the words that carry `opcode`, for the opcodes that the
/// core supports.
pub open spec fn format_of(opcode: u32) -> Option<InstType> {
    match opcode {
        0b0000011 => Some(InstType::I),
        0b0001111 => Some(InstType::I),
        0b0010011 => Some(InstType::I),
        0b0010111 => Some(InstType::U),
        0b0011011 => Some(InstType::I),
        0b0100011 => Some(InstType::S),
        0b0110011 => Some(InstType::R),
        0b0110111 => Some(InstType::U),
        0b0111011 => Some(InstType::R),
        0b1100011 => Some(InstType::B),
        0b1100111 => Some(InstType::I),
        0b1101111 => Some(InstType::J),
        0b1110011 => Some(InstType::I),
        _ => None,
    }
}

/// The instruction that an I-type word stands for.
pub open spec fn decode_i(inst: u32) -> Instruction {
    let rd = rd_of(inst);
    let rs1 = rs1_of(inst);
    let imm = imm_i(inst);
    let funct3 = funct3_of(inst);
    match opcode_of(inst) {
        0b0000011 => match funct3 {
            0b000 => Instruction::Lb { rd, rs1, imm },
            0b001 => Instruction::Lh { rd, rs1, imm },
            0b010 => Instruction::Lw { rd, rs1, imm },
            0b100 => Instruction::Lbu { rd, rs1, imm },
            0b101 => Instruction::Lhu { rd, rs1, imm },
            0b110 => Instruction::Lwu { rd, rs1, imm },
            0b011 => Instruction::Ld { rd, rs1, imm },
            _ => Instruction::Undefined,
        },
        0b0010011 => match funct3 {
            0b000 => Instruction::Addi { rd, rs1, imm },
            0b010 => Instruction::Slti { rd, rs1, imm },
            0b011 => Instruction::Sltiu { rd, rs1, imm },
            0b100 => Instruction::Xori { rd, rs1, imm },
            0b110 => Instruction::Ori { rd, rs1, imm },
            0b111 => Instruction::Andi { rd, rs1, imm },
            0b001 => Instruction::Slli { rd, rs1, shamt: shamt_of(inst) },
            0b101 => if shift_kind_of(inst) == 0 {
                Instruction::Srli { rd, rs1, shamt: shamt_of(inst) }
            } else if shift_kind_of(inst) == 0b010000 {
                Instruction::Srai { rd, rs1, shamt: shamt_of(inst) }
            } else {
                Instruction::Undefined
            },
            _ => Instruction::Undefined,
        },
        0b0001111 => if funct3 == 0 {
            Instruction::Fence { rd, rs1, imm }
        } else {
            Instruction::Undefined
        },
        0b1100111 => if funct3 == 0 {
            Instruction::Jalr { rd, rs1, imm }
        } else {
            Instruction::Undefined
        },
        0b1110011 => if funct3 == 0 && rd == Register::X0 && rs1 == Register::X0 && imm == 0 {
            Instruction::Ecall
        } else if funct3 == 0 && rd == Register::X0 && rs1 == Register::X0 && imm == 1 {
            Instruction::Ebreak
        } else {
            Instruction::Undefined
        },
        0b0011011 => match funct3 {
            0b000 => Instruction::Addiw { rd, rs1, imm },
            0b001 => Instruction::Slliw { rd, rs1, shamt: shamt_word_of(inst) },
            0b101 => if funct7_of(inst) == 0 {
                Instruction::Srliw { rd, rs1, shamt: shamt_word_of(inst) }
            } else if funct7_of(inst) == 0b0100000 {
                Instruction::Sraiw { rd, rs1, shamt: shamt_word_of(inst) }
            } else {
                Instruction::Undefined
            },
            _ => Instruction::Undefined,
        },
        _ => Instruction::Undefined,
    }
}

/// The instruction that an R-type word stands for.
pub open spec fn decode_r(inst: u32) -> Instruction {
    let rd = rd_of(inst);
    let rs1 = rs1_of(inst);
    let rs2 = rs2_of(inst);
    match opcode_of(inst) {
        0b0110011 => match (funct3_of(inst), funct7_of(inst)) {
            (0b000, 0b0000000) => Instruction::Add { rd, rs1, rs2 },
            (0b000, 0b0100000) => Instruction::Sub { rd, rs1, rs2 },
            (0b001, 0b0000000) => Instruction::Sll { rd, rs1, rs2 },
            (0b010, 0b0000000) => Instruction::Slt { rd, rs1, rs2 },
            (0b011, 0b0000000) => Instruction::Sltu { rd, rs1, rs2 },
            (0b100, 0b0000000) => Instruction::Xor { rd, rs1, rs2 },
            (0b101, 0b0000000) => Instruction::Srl { rd, rs1, rs2 },
            (0b101, 0b0100000) => Instruction::Sra { rd, rs1, rs2 },
            (0b110, 0b0000000) => Instruction::Or { rd, rs1, rs2 },
            (0b111, 0b0000000) => Instruction::And { rd, rs1, rs2 },
            _ => Instruction::Undefined,
        },
        0b0111011 => match (funct3_of(inst), funct7_of(inst)) {
            (0b000, 0b0000000) => Instruction::Addw { rd, rs1, rs2 },
            (0b000, 0b0100000) => Instruction::Subw { rd, rs1, rs2 },
            (0b001, 0b0000000) => Instruction::Sllw { rd, rs1, rs2 },
            (0b101, 0b0000000) => Instruction::Srlw { rd, rs1, rs2 },
            (0b101, 0b0100000) => Instruction::Sraw { rd, rs1, rs2 },
            _ => Instruction::Undefined,
        },
        _ => Instruction::Undefined,
    }
}

/// The instruction that an S-type word stands for.
pub open spec fn decode_s(inst: u32) -> Instruction {
    let rs1 = rs1_of(inst);
    let rs2 = rs2_of(inst);
    let imm = imm_s(inst);
    if opcode_of(inst) == 0b0100011 {
        match funct3_of(inst) {
            0b000 => Instruction::Sb { rs1, rs2, imm },
            0b001 => Instruction::Sh { rs1, rs2, imm },
            0b010 => Instruction::Sw { rs1, rs2, imm },
            0b011 => Instruction::Sd { rs1, rs2, imm },
            _ => Instruction::Undefined,
        }
    } else {
        Instruction::Undefined
    }
}

/// The instruction that a U-type word stands for.
pub open spec fn decode_u(inst: u32) -> Instruction {
    let rd = rd_of(inst);
    let imm = imm_u(inst);
    match opcode_of(inst) {
        0b0010111 => Instruction::Auipc { rd, imm },
        0b0110111 => Instruction::Lui { rd, imm },
        _ => Instruction::Undefined,
    }
}

/// The instruction that a B-type word stands for.
pub open spec fn decode_b(inst: u32) -> Instruction {
    let rs1 = rs1_of(inst);
    let rs2 = rs2_of(inst);
    let imm = imm_b(inst);
    if opcode_of(inst) == 0b1100011 {
        match funct3_of(inst) {
            0b000 => Instruction::Beq { rs1, rs2, imm },
            0b001 => Instruction::Bne { rs1, rs2, imm },
            0b100 => Instruction::Blt { rs1, rs2, imm },
            0b101 => Instruction::Bge { rs1, rs2, imm },
            0b110 => Instruction::Bltu { rs1, rs2, imm },
            0b111 => Instruction::Bgeu { rs1, rs2, imm },
            _ => Instruction::Undefined,
        }
    } else {
        Instruction::Undefined
    }
}

/// The instruction that a J-type word stands for.
pub open spec fn decode_j(inst: u32) -> Instruction {
    if opcode_of(inst) == 0b1101111 {
        Instruction::Jal { rd: rd_of(inst), imm: imm_j(inst) }
    } else {
        Instruction::Undefined
    }
}

impl InstType {
    /// The instruction that `inst` stands for when it is read in this
    /// layout. A word whose opcode belongs to another layout stands for
    /// nothing.
    pub open spec fn decode_spec(self, inst: u32) -> Instruction {
        match self {
            InstType::I => decode_i(inst),
            InstType::R => decode_r(inst),
            InstType::S => decode_s(inst),
            InstType::U => decode_u(inst),
            InstType::B => decode_b(inst),
            InstType::J => decode_j(inst),
        }
    }
}

/// The instruction that the word `inst` stands for: the opcode picks the
/// layout, and the layout's fields pick the instruction and its operands.
/// A word with any other opcode, or with fields that name no instruction,
/// is `Undefined`.
#[verifier::opaque]
pub open spec fn decode_spec(inst: u32) -> Instruction {
    match format_of(opcode_of(inst)) {
        Some(format) => format.decode_spec(inst),
        None => Instruction::Undefined,
    }
}

/// Whether `inst` is the word of an instruction that the core supports: its
/// opcode is one of the thirteen that the core knows, and the fields that
/// tell the instructions of that opcode apart name one of them.
pub open spec fn is_supported(inst: u32) -> bool {
    let funct3 = funct3_of(inst);
    let funct7 = funct7_of(inst);
    match opcode_of(inst) {
        // loads
        0b0000011 => funct3 != 0b111,
        // fence
        0b0001111 => funct3 == 0b000,
        // operations with an immediate; a right shift is logical or arithmetic
        0b0010011 => funct3 != 0b101 || shift_kind_of(inst) == 0b000000 || shift_kind_of(inst)
            == 0b010000,
        // auipc
        0b0010111 => true,
        // operations on words with an immediate
        0b0011011 => funct3 == 0b000 || funct3 == 0b001 || funct3 == 0b101 && (funct7 == 0b0000000
            || funct7 == 0b0100000),
        // stores
        0b0100011 => funct3 <= 0b011,
        // operations on registers
        0b0110011 => funct7 == 0b0000000 || funct7 == 0b0100000 && (funct3 == 0b000 || funct3
            == 0b101),
        // lui
        0b0110111 => true,
        // operations on words in registers
        0b0111011 => (funct7 == 0b0000000 || funct7 == 0b0100000) && (funct3 == 0b000 || funct3
            == 0b101) || funct7 == 0b0000000 && funct3 == 0b001,
        // branches
        0b1100011 => funct3 != 0b010 && funct3 != 0b011,
        // jalr
        0b1100111 => funct3 == 0b000,
        // jal
        0b1101111 => true,
        // ecall and ebreak, which have one word each
        0b1110011 => inst == 0x0000_0073 || inst == 0x0010_0073,
        _ => false,
    }
}

/// The decoder gives every word a meaning, and that meaning is `Undefined`
/// exactly for the words of no supported instruction.
pub proof fn lemma_undefined_iff_unsupported(inst: u32)
    ensures
        decode_spec(inst) is Undefined <==> !is_supported(inst),
        inst == 0x0000_0073 <==> decode_spec(inst) is Ecall,
        inst == 0x0010_0073 <==> decode_spec(inst) is Ebreak,
{
    reveal(decode_spec);
    match format_of(opcode_of(inst)) {
        Some(format) => {
            Register::lemma_of_index(((inst / 0x80) % 32) as int);
            Register::lemma_of_index(((inst / 0x8000) % 32) as int);
        },
        None => {},
    }
}

/// The shifts and masks that cut the fixed fields out of a word agree with
/// division and remainder.
proof fn lemma_fields(inst: u32)
    by (bit_vector)
    ensures
        inst & 0b1111111 == inst % 0x80,
        (inst >> 7) & 0b11111 == (inst / 0x80) % 32,
        (inst >> 12) & 0b111 == (inst / 0x1000) % 8,
        (inst >> 15) & 0b11111 == (inst / 0x8000) % 32,
        (inst >> 20) & 0b11111 == (inst / 0x10_0000) % 32,
        (inst >> 25) & 0b1111111 == inst / 0x200_0000,
{
}

/// Sign extension of the twelve bits of an I-type immediate by a shift to
/// the top and back gives the signed number that they encode, and its low
/// bits are the fields of the shifts by immediate.
proof fn lemma_imm_i(inst: u32)
    by (bit_vector)
    ensures
        ({
            let imm = ((((inst >> 20) & 0xfff) as i32) << 20) >> 20;
            &&& imm == (if 2 * (inst / 0x10_0000) >= 0x1000 {
                inst / 0x10_0000 - 0x1000
            } else {
                (inst / 0x10_0000) as int
            })
            &&& (imm & 0b111111) as u32 == (inst / 0x10_0000) % 64
            &&& 0 <= (imm >> 6) & 0b111111
            &&& ((imm >> 6) & 0b111111) as u32 == inst / 0x400_0000
            &&& (imm & 0b11111) as u32 == (inst / 0x10_0000) % 32
            &&& 0 <= (imm >> 5) & 0b1111111
            &&& ((imm >> 5) & 0b1111111) as u32 == inst / 0x200_0000
        }),
{
}

/// The two parts of an S-type immediate, joined and sign-extended by a shift
/// to the top and back, give the signed number that they encode.
proof fn lemma_imm_s(inst: u32)
    by (bit_vector)
    ensures
        ((((((inst >> 25) & 0b1111111) << 5) | ((inst >> 7) & 0b11111)) as i32) << 20) >> 20 == ({
            let value = (inst / 0x200_0000) * 32 + (inst / 0x80) % 32;
            if 2 * value >= 0x1000 {
                value - 0x1000
            } else {
                value as int
            }
        }),
{
}

/// The four parts of a B-type immediate, put in their places and
/// sign-extended by a shift to the top and back, give the signed number that
/// they encode.
proof fn lemma_imm_b(inst: u32)
    by (bit_vector)
    ensures
        ({
            let upper = (inst >> 25) & 0b1111111;
            let lower = (inst >> 7) & 0b11111;
            let imm12 = (upper & 0b1000000) >> 6;
            let imm105 = upper & 0b0111111;
            let imm41 = (lower & 0b11110) >> 1;
            let imm11 = lower & 0b00001;
            let imm = (imm12 << 12) | (imm11 << 11) | (imm105 << 5) | (imm41 << 1);
            ((imm as i32) << 19) >> 19
        }) == ({
            let value = ((inst / 0x8000_0000) % 2) * 0x1000 + ((inst / 0x80) % 2) * 0x800 + ((inst
                / 0x200_0000) % 64) * 32 + ((inst / 0x100) % 16) * 2;
            if 2 * value >= 0x2000 {
                value - 0x2000
            } else {
                value as int
            }
        }),
{
}

/// The upper twenty bits of a word, read as a signed number of 32 bits,
/// are the U-type immediate.
proof fn lemma_imm_u(inst: u32)
    by (bit_vector)
    ensures
        (inst & 0xfffff000) as i32 == ({
            let value = (inst / 0x1000) * 0x1000;
            if 2 * value >= 0x1_0000_0000 {
                value - 0x1_0000_0000
            } else {
                value as int
            }
        }),
{
}

/// The four parts of a J-type immediate, put in their places and
/// sign-extended by a shift to the top and back, give the signed number that
/// they encode.
proof fn lemma_imm_j(inst: u32)
    by (bit_vector)
    ensures
        ({
            let upper = (inst & 0xfffff000) >> 12;
            let imm20 = (upper >> 19) & 0b1;
            let imm101 = (upper >> 9) & 0b1111111111;
            let imm11 = (upper >> 8) & 0b1;
            let imm1912 = upper & 0b11111111;
            let imm = (imm20 << 20) | (imm1912 << 12) | (imm11 << 11) | (imm101 << 1);
            ((imm as i32) << 11) >> 11
        }) == ({
            let value = ((inst / 0x8000_0000) % 2) * 0x10_0000 + ((inst / 0x1000) % 256) * 0x1000
                + ((inst / 0x10_0000) % 2) * 0x800 + ((inst / 0x20_0000) % 1024) * 2;
            if 2 * value >= 0x20_0000 {
                value - 0x20_0000
            } else {
                value as int
            }
        }),
{
}

/// Returns the register that a five-bit field of an instruction word names.
fn register(field: u32) -> (register: Register)
    requires
        field < 32,
    ensures
        register == Register::of(field as int),
{
    Register::from_index(field as usize).unwrap()
}

/// Returns the layout of the words that carry `opcode`, if the core
/// supports the opcode.
fn opcode_type(opcode: u32) -> (format: Option<InstType>)
    ensures
        format == format_of(opcode),
{
    match opcode {
        0b0000011 => Some(InstType::I),
        0b0001111 => Some(InstType::I),
        0b0010011 => Some(InstType::I),
        0b0010111 => Some(InstType::U),
        0b0011011 => Some(InstType::I),
        0b0100011 => Some(InstType::S),
        0b0110011 => Some(InstType::R),
        0b0110111 => Some(InstType::U),
        0b0111011 => Some(InstType::R),
        0b1100011 => Some(InstType::B),
        0b1100111 => Some(InstType::I),
        0b1101111 => Some(InstType::J),
        0b1110011 => Some(InstType::I),
        _ => None,
    }
}

impl InstType {
    /// Decodes `inst` as a word of this layout.
    pub fn decode(&self, inst: u32) -> (instruction: Instruction)
        ensures
            instruction == self.decode_spec(inst),
    {
        return match self {
            InstType::I => InstType::decode_type_i(inst),
            InstType::R => InstType::decode_type_r(inst),
            InstType::S => InstType::decode_type_s(inst),
            InstType::U => InstType::decode_type_u(inst),
            InstType::B => InstType::decode_type_b(inst),
            InstType::J => InstType::decode_type_j(inst),
        };
    }

    fn decode_type_i(inst: u32) -> (instruction: Instruction)
        ensures
            instruction == decode_i(inst),
    {
        proof {
            lemma_fields(inst);
            lemma_imm_i(inst);
        }
        let opcode: u32 = inst & 0b1111111;

        let imm: u32 = (inst >> 20) & 0b1111_1111_1111;
        let rs1: Register = register((inst >> 15) & 0b1111_1);
        let func3: u32 = (inst >> 12) & 0b111;
        let rd: Register = register((inst >> 7) & 0b1111_1);

        // Sign extend the immediate
        let imm: i32 = ((imm as i32) << 20) >> 20;

        return match opcode {
            0b0000011 => {
                match func3 {
                    0b000 => Instruction::Lb { rd, rs1, imm },
                    0b001 => Instruction::Lh { rd, rs1, imm },
                    0b010 => Instruction::Lw { rd, rs1, imm },
                    0b100 => Instruction::Lbu { rd, rs1, imm },
                    0b101 => Instruction::Lhu { rd, rs1, imm },
                    0b110 => Instruction::Lwu { rd, rs1, imm },
                    0b011 => Instruction::Ld { rd, rs1, imm },
                    _ => Instruction::Undefined,
                }
            },
            0b0010011 => {
                // Extract shift fields
                let shamt: u32 = (imm & 0b111_111) as u32;
                let shiftop: i32 = (imm >> 6) & 0b111_111;

                match func3 {
                    0b000 => Instruction::Addi { rd, rs1, imm },
                    0b010 => Instruction::Slti { rd, rs1, imm },
                    0b011 => Instruction::Sltiu { rd, rs1, imm },
                    0b100 => Instruction::Xori { rd, rs1, imm },
                    0b110 => Instruction::Ori { rd, rs1, imm },
                    0b111 => Instruction::Andi { rd, rs1, imm },
                    0b001 => Instruction::Slli { rd, rs1, shamt },
                    0b101 if shiftop == 0 => Instruction::Srli { rd, rs1, shamt },
                    0b101 if shiftop == 0b010_000 => Instruction::Srai { rd, rs1, shamt },
                    _ => Instruction::Undefined,
                }
            },
            0b0001111 => {
                match func3 {
                    0b000 => Instruction::Fence { rd, rs1, imm },
                    _ => Instruction::Undefined,
                }
            },
            0b1100111 => {
                match func3 {
                    0b000 => Instruction::Jalr { rd, rs1, imm },
                    _ => Instruction::Undefined,
                }
            },
            0b1110011 => {
                match func3 {
                    0b000 if imm == 0 && rs1 == Register::X0 && rd == Register::X0 => {
                        Instruction::Ecall
                    },
                    0b000 if imm == 1 && rs1 == Register::X0 && rd == Register::X0 => {
                        Instruction::Ebreak
                    },
                    _ => Instruction::Undefined,
                }
            },
            0b0011011 => {
                // Extract word shift fields
                let shamtw: u32 = (imm & 0b1_1111) as u32;
                let shiftopw: i32 = (imm >> 5) & 0b111_1111;

                match func3 {
                    0b000 => Instruction::Addiw { rd, rs1, imm },
                    0b001 => Instruction::Slliw { rd, rs1, shamt: shamtw },
                    0b101 if shiftopw == 0b0000000 => Instruction::Srliw { rd, rs1, shamt: shamtw },
                    0b101 if shiftopw == 0b0100000 => Instruction::Sraiw { rd, rs1, shamt: shamtw },
                    _ => Instruction::Undefined,
                }
            },
            _ => { Instruction::Undefined },
        };
    }

    fn decode_type_r(inst: u32) -> (instruction: Instruction)
        ensures
            instruction == decode_r(inst),
    {
        proof {
            lemma_fields(inst);
        }
        let opcode: u32 = inst & 0b1111111;

        let func7: u32 = (inst >> 25) & 0b111_1111;
        let rs2: Register = register((inst >> 20) & 0b11111);
        let rs1: Register = register((inst >> 15) & 0b1111_1);
        let func3: u32 = (inst >> 12) & 0b111;
        let rd: Register = register((inst >> 7) & 0b1111_1);

        return match opcode {
            0b0110011 => {
                match (func3, func7) {
                    (0b000, 0b000_0000) => Instruction::Add { rd, rs1, rs2 },
                    (0b000, 0b010_0000) => Instruction::Sub { rd, rs1, rs2 },
                    (0b001, 0b000_0000) => Instruction::Sll { rd, rs1, rs2 },
                    (0b010, 0b000_0000) => Instruction::Slt { rd, rs1, rs2 },
                    (0b011, 0b000_0000) => Instruction::Sltu { rd, rs1, rs2 },
                    (0b100, 0b000_0000) => Instruction::Xor { rd, rs1, rs2 },
                    (0b101, 0b000_0000) => Instruction::Srl { rd, rs1, rs2 },
                    (0b101, 0b010_0000) => Instruction::Sra { rd, rs1, rs2 },
                    (0b110, 0b000_0000) => Instruction::Or { rd, rs1, rs2 },
                    (0b111, 0b000_0000) => Instruction::And { rd, rs1, rs2 },
                    (_, _) => Instruction::Undefined,
                }
            },
            0b0111011 => {
                match (func3, func7) {
                    (0b000, 0b000_0000) => Instruction::Addw { rd, rs1, rs2 },
                    (0b000, 0b010_0000) => Instruction::Subw { rd, rs1, rs2 },
                    (0b001, 0b000_0000) => Instruction::Sllw { rd, rs1, rs2 },
                    (0b101, 0b000_0000) => Instruction::Srlw { rd, rs1, rs2 },
                    (0b101, 0b010_0000) => Instruction::Sraw { rd, rs1, rs2 },
                    (_, _) => Instruction::Undefined,
                }
            },
            _ => Instruction::Undefined,
        };
    }

    fn decode_type_s(inst: u32) -> (instruction: Instruction)
        ensures
            instruction == decode_s(inst),
    {
        proof {
            lemma_fields(inst);
            lemma_imm_s(inst);
        }
        let opcode: u32 = inst & 0b1111111;

        let imm115: u32 = (inst >> 25) & 0b111_1111;
        let rs2: Register = register((inst >> 20) & 0b11111);
        let rs1: Register = register((inst >> 15) & 0b1111_1);
        let func3: u32 = (inst >> 12) & 0b111;
        let imm40: u32 = (inst >> 7) & 0b1111_1;

        // Merge and sign extend the immediate
        let imm: u32 = (imm115 << 5) | imm40;
        let imm: i32 = ((imm as i32) << 20) >> 20;

        return match opcode {
            0b0100011 => {
                match func3 {
                    0b000 => Instruction::Sb { rs1, rs2, imm },
                    0b001 => Instruction::Sh { rs1, rs2, imm },
                    0b010 => Instruction::Sw { rs1, rs2, imm },
                    0b011 => Instruction::Sd { rs1, rs2, imm },
                    _ => Instruction::Undefined,
                }
            },
            _ => Instruction::Undefined,
        };
    }

    fn decode_type_u(inst: u32) -> (instruction: Instruction)
        ensures
            instruction == decode_u(inst),
    {
        proof {
            lemma_fields(inst);
            lemma_imm_u(inst);
        }
        let opcode: u32 = inst & 0b1111111;

        let rd: Register = register((inst >> 7) & 0b1111_1);

        // The upper twenty bits stay where they are
        let imm: i32 = (inst & 0xfffff000) as i32;

        return match opcode {
            0b0010111 => Instruction::Auipc { rd, imm },
            0b0110111 => Instruction::Lui { rd, imm },
            _ => Instruction::Undefined,
        };
    }

    fn decode_type_b(inst: u32) -> (instruction: Instruction)
        ensures
            instruction == decode_b(inst),
    {
        proof {
            lemma_fields(inst);
            lemma_imm_b(inst);
        }
        let opcode: u32 = inst & 0b1111111;

        let imm12105: u32 = (inst >> 25) & 0b111_1111;
        let rs2: Register = register((inst >> 20) & 0b11111);
        let rs1: Register = register((inst >> 15) & 0b1111_1);
        let func3: u32 = (inst >> 12) & 0b111;
        let imm4111: u32 = (inst >> 7) & 0b1111_1;

        // Split the immediate
        let imm12: u32 = (imm12105 & 0b100_0000) >> 6;
        let imm105: u32 = imm12105 & 0b011_1111;
        let imm41: u32 = (imm4111 & 0b1111_0) >> 1;
        let imm11: u32 = imm4111 & 0b0000_1;

        // Merge and sign extend the immediate
        let imm: u32 = (imm12 << 12) | (imm11 << 11) | (imm105 << 5) | (imm41 << 1);
        let imm: i32 = ((imm as i32) << 19) >> 19;

        return match opcode {
            0b1100011 => {
                match func3 {
                    0b000 => Instruction::Beq { rs1, rs2, imm },
                    0b001 => Instruction::Bne { rs1, rs2, imm },
                    0b100 => Instruction::Blt { rs1, rs2, imm },
                    0b101 => Instruction::Bge { rs1, rs2, imm },
                    0b110 => Instruction::Bltu { rs1, rs2, imm },
                    0b111 => Instruction::Bgeu { rs1, rs2, imm },
                    _ => Instruction::Undefined,
                }
            },
            _ => Instruction::Undefined,
        };
    }

    fn decode_type_j(inst: u32) -> (instruction: Instruction)
        ensures
            instruction == decode_j(inst),
    {
        proof {
            lemma_fields(inst);
            lemma_imm_j(inst);
        }
        let opcode: u32 = inst & 0b1111111;

        let imm: u32 = (inst & 0xfffff_000) >> 12;
        let rd: Register = register((inst >> 7) & 0b1111_1);

        let imm20: u32 = (imm >> 19) & 0b1;
        let imm101: u32 = (imm >> 9) & 0b11_1111_1111;
        let imm11: u32 = (imm >> 8) & 0b1;
        let imm1912: u32 = imm & 0b1111_1111;
        let imm: u32 = (imm20 << 20) | (imm1912 << 12) | (imm11 << 11) | (imm101 << 1);

        // Sign extend the immediate
        let imm: i32 = ((imm as i32) << 11) >> 11;

        return match opcode {
            0b1101111 => Instruction::Jal { rd, imm },
            _ => Instruction::Undefined,
        };
    }
}

/// Decodes a 32-bit instruction word. Every word decodes to something;
/// the words of no supported instruction decode to `Undefined`, and no other
/// word does.
pub fn decode(inst: u32) -> (instruction: Instruction)
    ensures
        instruction == decode_spec(inst),
        instruction is Undefined <==> !is_supported(inst),
{
    proof {
        reveal(decode_spec);
        lemma_fields(inst);
        lemma_undefined_iff_unsupported(inst);
    }
    let opcode: u32 = inst & 0b1111111;

    if let Some(typ) = opcode_type(opcode) {
        typ.decode(inst)
    } else {
        Instruction::Undefined
    }
}

} // verus!
