//! What holds of the hart whatever the program: register 0 stays zero,
//! memory gives back what was stored and is little-endian, instructions on
//! words sign-extend, branches and jumps land where their offsets say, and
//! right shifts fill with zeros or with the sign.

use crate::arith::{
    lemma_sign_extend_word, shift_right_arithmetic, shift_right_arithmetic_word,
    shift_right_logical, shift_right_logical_word, sign_extend_word, signed64, wrap64,
};
use crate::bus::{bus_load, bus_store, DRAM_BASE};
use crate::dram::{
    access_bytes, dram_load, dram_store, in_window, le_byte, le_value, lemma_split_bytes,
    DRAM_SIZE,
};
use crate::exception::Exception;
use crate::instruction::{decode_spec, Instruction};
use crate::register::Register;
use crate::state::State;
use vstd::prelude::*;

verus! {

/// The instructions that compute a value from registers and immediates keep
/// a well-formed state well formed.
proof fn lemma_operation_keeps_wf(s: State, instruction: Instruction)
    requires
        s.wf(),
        instruction is Addi || instruction is Slti || instruction is Sltiu
        || instruction is Xori || instruction is Ori || instruction is Andi
        || instruction is Slli || instruction is Srli || instruction is Srai
        || instruction is Add || instruction is Sub || instruction is Sll
        || instruction is Slt || instruction is Sltu || instruction is Xor
        || instruction is Srl || instruction is Sra || instruction is Or
        || instruction is And || instruction is Addiw || instruction is Slliw
        || instruction is Srliw || instruction is Sraiw || instruction is Addw
        || instruction is Subw || instruction is Sllw || instruction is Srlw
        || instruction is Sraw,
    ensures
        s.execute(instruction) matches Ok(next) ==> next.wf(),
{
    reveal(State::execute);
}

/// The instructions that move data or control keep a well-formed state well
/// formed.
proof fn lemma_transfer_keeps_wf(s: State, instruction: Instruction)
    requires
        s.wf(),
        instruction is Lb || instruction is Lh || instruction is Lw || instruction is Ld
        || instruction is Lbu || instruction is Lhu || instruction is Lwu
        || instruction is Sb || instruction is Sh || instruction is Sw || instruction is Sd
        || instruction is Beq || instruction is Bne || instruction is Blt
        || instruction is Bge || instruction is Bltu || instruction is Bgeu
        || instruction is Lui || instruction is Auipc || instruction is Jal
        || instruction is Jalr || instruction is Fence || instruction is Ecall
        || instruction is Ebreak || instruction is Undefined,
    ensures
        s.execute(instruction) matches Ok(next) ==> next.wf(),
{
    reveal(State::execute);
}

/// Whatever instruction executes, a state that was well formed is well
/// formed afterwards. In particular register 0 still holds zero.
pub proof fn lemma_execute_keeps_wf(s: State, instruction: Instruction)
    requires
        s.wf(),
    ensures
        s.execute(instruction) matches Ok(next) ==> next.wf() && next.reg(Register::X0) == 0,
{
    if instruction.is_op_imm() || instruction.is_op() || instruction.is_op_imm_word()
        || instruction.is_op_word() {
        lemma_operation_keeps_wf(s, instruction);
    } else {
        lemma_transfer_keeps_wf(s, instruction);
    }
}

/// A turn of the hart takes a well-formed state to a well-formed state.
pub proof fn lemma_step_keeps_wf(s: State)
    requires
        s.wf(),
    ensures
        s.step().0.wf(),
{
    if let Ok(word) = s.fetch() {
        lemma_execute_keeps_wf(s.jump((s.pc + 4) as u64), decode_spec(word));
    }
}

/// Register 0 reads as zero after any run: whatever program the memory
/// holds and however many turns the hart takes, from a well-formed state it
/// ends in a well-formed state.
pub proof fn lemma_run_keeps_wf(s: State, limit: nat)
    requires
        s.wf(),
    ensures
        s.run(limit).0.wf(),
        s.run(limit).0.reg(Register::X0) == 0,
    decreases limit,
{
    if limit > 0 {
        lemma_step_keeps_wf(s);
        if s.step().1 is None {
            lemma_run_keeps_wf(s.step().0, (limit - 1) as nat);
        }
    }
}

/// The part of `value` that an access of `size` bits carries: `value` under
/// a mask of `size` ones.
pub open spec fn low_bits(value: u64, size: u64) -> u64 {
    if size == 8 {
        value & 0xff
    } else if size == 16 {
        value & 0xffff
    } else if size == 32 {
        value & 0xffff_ffff
    } else {
        value
    }
}

/// The low bytes of a number, each times its power of 256, add up to the
/// number under a mask.
proof fn lemma_sum_of_bytes(v: u64)
    by (bit_vector)
    ensures
        v % 256 == v & 0xff,
        v % 256 + 256 * ((v / 256) % 256) == v & 0xffff,
        v % 256 + 256 * ((v / 256) % 256 + 256 * (((v / 256) / 256) % 256 + 256 * ((((v / 256)
            / 256) / 256) % 256))) == v & 0xffff_ffff,
        v % 256 + 256 * ((v / 256) % 256 + 256 * (((v / 256) / 256) % 256 + 256 * ((((v / 256)
            / 256) / 256) % 256 + 256 * (((((v / 256) / 256) / 256) / 256) % 256 + 256 * ((((((v
            / 256) / 256) / 256) / 256) / 256) % 256 + 256 * (((((((v / 256) / 256) / 256) / 256)
            / 256) / 256) % 256 + 256 * ((((((((v / 256) / 256) / 256) / 256) / 256) / 256) / 256)
            % 256))))))) == v,
{
}

/// A store followed by a load of the same width at the same address gives
/// back the value stored, cut to that width. This holds for every address
/// at which the access lies in the memory window, at the memory and through
/// the bus.
pub proof fn lemma_store_then_load(mem: Seq<u8>, addr: u64, size: u64, value: u64)
    requires
        mem.len() == DRAM_SIZE,
        access_bytes(size) matches Some(count) && in_window(addr, count),
    ensures
        dram_store(mem, addr, size, value) matches Ok(after) && after.len() == DRAM_SIZE
            && dram_load(after, addr, size) == Ok::<u64, Exception>(low_bits(value, size)),
        bus_store(mem, addr, size, value) matches Ok(after) && bus_load(after, addr, size) == Ok::<
            u64,
            Exception,
        >(low_bits(value, size)),
{
    let after = dram_store(mem, addr, size, value)->Ok_0;
    let at = addr - DRAM_BASE;
    lemma_sum_of_bytes(value);
    reveal_with_fuel(le_byte, 9);
    reveal_with_fuel(le_value, 9);
    assert(after[at] == le_byte(value, 0));
    if size >= 16 {
        assert(after[at + 1] == le_byte(value, 1));
    }
    if size >= 32 {
        assert(after[at + 2] == le_byte(value, 2));
        assert(after[at + 3] == le_byte(value, 3));
    }
    if size == 64 {
        assert(after[at + 4] == le_byte(value, 4));
        assert(after[at + 5] == le_byte(value, 5));
        assert(after[at + 6] == le_byte(value, 6));
        assert(after[at + 7] == le_byte(value, 7));
    }
}

/// Memory is little-endian: after a store, byte number `k` of the value,
/// counted from the least significant one, lies `k` bytes above the address
/// of the store. Every byte that the store does not reach stays as it was.
pub proof fn lemma_store_is_little_endian(mem: Seq<u8>, addr: u64, size: u64, value: u64, k: u64)
    requires
        mem.len() == DRAM_SIZE,
        access_bytes(size) matches Some(count) && in_window(addr, count) && k < count,
    ensures
        dram_store(mem, addr, size, value) matches Ok(after) && after[addr - DRAM_BASE + k] == (
        value >> ((8 * k) as u64)) & 0xff,
        dram_store(mem, addr, size, value) matches Ok(after) && (forall|i: int|
            0 <= i < DRAM_SIZE && !(addr - DRAM_BASE <= i < addr - DRAM_BASE + size / 8)
                ==> after[i] == mem[i]),
{
    lemma_split_bytes(value);
    reveal_with_fuel(le_byte, 9);
    assert(value >> 0u64 == value) by (bit_vector);
}

/// Whether bits 63 to 32 of `value` all equal its bit 31, as they do in a
/// word that was sign-extended.
pub open spec fn is_sign_extended_word(value: u64) -> bool {
    value >> 32 == (if (value >> 31) & 1 == 1 {
        0xffff_ffffu64
    } else {
        0u64
    })
}

/// A word that was widened to 64 bits with its sign repeats its bit 31 in
/// its bits 63 to 32.
proof fn lemma_widened_word(word: i32)
    by (bit_vector)
    ensures
        is_sign_extended_word(word as i64 as u64),
        is_sign_extended_word(0u64),
{
}

/// What `sign_extend_word` returns is a sign-extended word.
pub proof fn lemma_sign_extend_word_is_sign_extended(value: u64)
    ensures
        is_sign_extended_word(sign_extend_word(value)),
{
    lemma_sign_extend_word(value);
    lemma_widened_word(value as i32);
}

/// The result of every instruction that works on words is a sign-extended
/// word: bits 63 to 32 of what it leaves in its destination register repeat
/// bit 31. This holds of `ADDIW` and `ADDW`, and of the other seven as well.
pub proof fn lemma_word_results_are_sign_extended(
    s: State,
    rd: Register,
    rs1: Register,
    rs2: Register,
    imm: i32,
    shamt: u32,
)
    requires
        s.wf(),
    ensures
        s.execute(Instruction::Addiw { rd, rs1, imm }) matches Ok(next) && is_sign_extended_word(
            next.reg(rd),
        ),
        s.execute(Instruction::Addw { rd, rs1, rs2 }) matches Ok(next) && is_sign_extended_word(
            next.reg(rd),
        ),
        s.execute(Instruction::Subw { rd, rs1, rs2 }) matches Ok(next) && is_sign_extended_word(
            next.reg(rd),
        ),
        s.execute(Instruction::Slliw { rd, rs1, shamt }) matches Ok(next) && is_sign_extended_word(
            next.reg(rd),
        ),
        s.execute(Instruction::Srliw { rd, rs1, shamt }) matches Ok(next) && is_sign_extended_word(
            next.reg(rd),
        ),
        s.execute(Instruction::Sraiw { rd, rs1, shamt }) matches Ok(next) && is_sign_extended_word(
            next.reg(rd),
        ),
        s.execute(Instruction::Sllw { rd, rs1, rs2 }) matches Ok(next) && is_sign_extended_word(
            next.reg(rd),
        ),
        s.execute(Instruction::Srlw { rd, rs1, rs2 }) matches Ok(next) && is_sign_extended_word(
            next.reg(rd),
        ),
        s.execute(Instruction::Sraw { rd, rs1, rs2 }) matches Ok(next) && is_sign_extended_word(
            next.reg(rd),
        ),
{
    reveal(State::execute);
    let a = s.reg(rs1);
    let b = s.reg(rs2);
    let by = shamt as u64;
    // Register 0 holds zero, which is a sign-extended word.
    lemma_widened_word(0);
    lemma_sign_extend_word_is_sign_extended(wrap64(a + imm));
    lemma_sign_extend_word_is_sign_extended(wrap64(a + b));
    lemma_sign_extend_word_is_sign_extended(wrap64(a - b));
    lemma_sign_extend_word_is_sign_extended(((a as u32) << (by % 32)) as u64);
    lemma_sign_extend_word_is_sign_extended(((a as u32) >> (by % 32)) as u64);
    lemma_sign_extend_word_is_sign_extended(((a as u32) << (b % 32)) as u64);
    lemma_sign_extend_word_is_sign_extended(((a as u32) >> (b % 32)) as u64);
    lemma_widened_word((a as i32) >> (by % 32));
    lemma_widened_word((a as i32) >> (b % 32));
}

/// For a conditional branch, whether it is taken in state `s` and the offset
/// it carries; `None` for every other instruction.
pub open spec fn branch_of(s: State, instruction: Instruction) -> Option<(bool, i32)> {
    match instruction {
        Instruction::Beq { rs1, rs2, imm } => Some((s.reg(rs1) == s.reg(rs2), imm)),
        Instruction::Bne { rs1, rs2, imm } => Some((s.reg(rs1) != s.reg(rs2), imm)),
        Instruction::Blt { rs1, rs2, imm } => Some(
            (signed64(s.reg(rs1)) < signed64(s.reg(rs2)), imm),
        ),
        Instruction::Bge { rs1, rs2, imm } => Some(
            (signed64(s.reg(rs1)) >= signed64(s.reg(rs2)), imm),
        ),
        Instruction::Bltu { rs1, rs2, imm } => Some((s.reg(rs1) < s.reg(rs2), imm)),
        Instruction::Bgeu { rs1, rs2, imm } => Some((s.reg(rs1) >= s.reg(rs2), imm)),
        _ => None,
    }
}

/// A turn that executes a conditional branch moves the program counter to
/// the address of the branch plus its offset, modulo 2^64, if the condition
/// holds, and to the next instruction if it does not. It changes nothing
/// else and raises no exception.
pub proof fn lemma_branch_target(s: State, word: u32, taken: bool, imm: i32)
    requires
        s.wf(),
        s.fetch() == Ok::<u32, Exception>(word),
        branch_of(s, decode_spec(word)) == Some((taken, imm)),
    ensures
        s.step() == (
            s.jump(
                if taken {
                    wrap64(s.pc + imm)
                } else {
                    (s.pc + 4) as u64
                },
            ),
            None::<Exception>,
        ),
{
    reveal(State::execute);
}

/// A turn that executes `JAL` writes the address of the next instruction to
/// `rd`, unless `rd` is register 0, and moves the program counter to the
/// address of the `JAL` plus its offset, modulo 2^64. It changes nothing else
/// and raises no exception.
pub proof fn lemma_jal_links(s: State, word: u32, rd: Register, imm: i32)
    requires
        s.wf(),
        s.fetch() == Ok::<u32, Exception>(word),
        decode_spec(word) == (Instruction::Jal { rd, imm }),
    ensures
        s.step() == (s.write(rd, (s.pc + 4) as u64).jump(wrap64(s.pc + imm)), None::<Exception>),
        rd != Register::X0 ==> s.step().0.reg(rd) == s.pc + 4,
{
    reveal(State::execute);
}

/// Whether bit number `i` of `value` is set.
pub open spec fn bit(value: u64, i: u64) -> bool {
    (value >> i) & 1 == 1
}

/// A logical shift to the right moves every bit down by the shift amount
/// and fills the top with zeros.
pub proof fn lemma_logical_shift_fills_with_zeros(value: u64, amount: u64, i: u64)
    by (bit_vector)
    requires
        i < 64,
    ensures
        bit(shift_right_logical(value, amount), i) == (i + amount % 64 < 64 && bit(
            value,
            (i + amount % 64) as u64,
        )),
{
}

/// An arithmetic shift to the right moves every bit down by the shift
/// amount and fills the top with copies of the sign bit.
pub proof fn lemma_arithmetic_shift_fills_with_sign(value: u64, amount: u64, i: u64)
    by (bit_vector)
    requires
        i < 64,
    ensures
        bit(shift_right_arithmetic(value, amount), i) == bit(
            value,
            if i + amount % 64 < 64 {
                (i + amount % 64) as u64
            } else {
                63
            },
        ),
{
}

proof fn lemma_logical_word_shift(value: u64, amount: u64, i: u64)
    by (bit_vector)
    requires
        i < 64,
    ensures
        bit((((value as u32) >> (amount % 32)) as u64) as i32 as i64 as u64, i) == (if i < 32 {
            i + amount % 32 < 32 && bit(value, (i + amount % 32) as u64)
        } else {
            amount % 32 == 0 && bit(value, 31)
        }),
{
}

/// A logical shift of a word to the right moves the bits of the low word
/// down by the shift amount and fills the word's top with zeros; bits 63 to
/// 32 of the result repeat its bit 31.
pub proof fn lemma_logical_word_shift_fills_with_zeros(value: u64, amount: u64, i: u64)
    requires
        i < 64,
    ensures
        bit(shift_right_logical_word(value, amount), i) == (if i < 32 {
            i + amount % 32 < 32 && bit(value, (i + amount % 32) as u64)
        } else {
            amount % 32 == 0 && bit(value, 31)
        }),
{
    lemma_sign_extend_word(((value as u32) >> (amount % 32)) as u64);
    lemma_logical_word_shift(value, amount, i);
}

/// An arithmetic shift of a word to the right moves the bits of the low
/// word down by the shift amount and fills everything above them with
/// copies of bit 31.
pub proof fn lemma_arithmetic_word_shift_fills_with_sign(value: u64, amount: u64, i: u64)
    by (bit_vector)
    requires
        i < 64,
    ensures
        bit(shift_right_arithmetic_word(value, amount), i) == bit(
            value,
            if i < 32 && i + amount % 32 < 32 {
                (i + amount % 32) as u64
            } else {
                31
            },
        ),
{
}

/// The right shifts of the instruction set are these shifts: `SRLI` and
/// `SRL` shift logically, `SRAI` and `SRA` arithmetically, and `SRLIW`,
/// `SRLW`, `SRAIW` and `SRAW` do the same on the low word.
pub proof fn lemma_right_shift_instructions(
    s: State,
    rd: Register,
    rs1: Register,
    rs2: Register,
    shamt: u32,
)
    requires
        s.wf(),
        rd != Register::X0,
    ensures
        s.execute(Instruction::Srli { rd, rs1, shamt }) matches Ok(next) && next.reg(rd)
            == shift_right_logical(s.reg(rs1), shamt as u64),
        s.execute(Instruction::Srl { rd, rs1, rs2 }) matches Ok(next) && next.reg(rd)
            == shift_right_logical(s.reg(rs1), s.reg(rs2)),
        s.execute(Instruction::Srai { rd, rs1, shamt }) matches Ok(next) && next.reg(rd)
            == shift_right_arithmetic(s.reg(rs1), shamt as u64),
        s.execute(Instruction::Sra { rd, rs1, rs2 }) matches Ok(next) && next.reg(rd)
            == shift_right_arithmetic(s.reg(rs1), s.reg(rs2)),
        s.execute(Instruction::Srliw { rd, rs1, shamt }) matches Ok(next) && next.reg(rd)
            == shift_right_logical_word(s.reg(rs1), shamt as u64),
        s.execute(Instruction::Srlw { rd, rs1, rs2 }) matches Ok(next) && next.reg(rd)
            == shift_right_logical_word(s.reg(rs1), s.reg(rs2)),
        s.execute(Instruction::Sraiw { rd, rs1, shamt }) matches Ok(next) && next.reg(rd)
            == shift_right_arithmetic_word(s.reg(rs1), shamt as u64),
        s.execute(Instruction::Sraw { rd, rs1, rs2 }) matches Ok(next) && next.reg(rd)
            == shift_right_arithmetic_word(s.reg(rs1), s.reg(rs2)),
{
    reveal(State::execute);
}

} // verus!
