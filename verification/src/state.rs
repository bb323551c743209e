//! The architectural state of the hart as a mathematical value, and the
//! meaning of the instructions as functions on it.

use crate::arith::{
    flag, shift_left, shift_left_word, shift_right_arithmetic, shift_right_arithmetic_word,
    shift_right_logical, shift_right_logical_word, sign_extend, sign_extend_word, signed64, wrap64,
};
use crate::bus::{bus_load, bus_store, DRAM_BASE};
use crate::dram::{image, DRAM_SIZE};
use crate::exception::Exception;
use crate::instruction::{decode_spec, Instruction};
use crate::register::Register;
use vstd::prelude::*;

verus! {

/// The architectural state of the hart as a mathematical value: the
/// register file, the program counter and the bytes of the memory.
pub struct State {
    /// The thirty-two registers, by number.
    pub regs: Seq<u64>,
    /// The program counter.
    pub pc: u64,
    /// The bytes of the memory, from address `DRAM_BASE` on.
    pub mem: Seq<u8>,
}

impl State {
    /// What holds of every state that the hart can be in: there are 32
    /// registers, register 0 holds zero, and the memory has its full size.
    pub open spec fn wf(self) -> bool {
        &&& self.regs.len() == 32
        &&& self.regs[0] == 0
        &&& self.mem.len() == DRAM_SIZE
    }

    /// The state at reset with the program image `code` loaded: the stack
    /// pointer, register 2, points just behind the memory, every other
    /// register is zero, and the program counter is at the start of the
    /// memory.
    pub open spec fn reset(code: Seq<u8>) -> State {
        State {
            regs: Seq::new(
                32,
                |i: int|
                    if i == 2 {
                        (DRAM_BASE + DRAM_SIZE) as u64
                    } else {
                        0u64
                    },
            ),
            pc: DRAM_BASE,
            mem: image(code),
        }
    }

    /// The value of register `r`.
    pub open spec fn reg(self, r: Register) -> u64 {
        self.regs[r.index() as int]
    }

    /// The state after `value` is written to register `rd`. A write to
    /// register 0 is discarded.
    pub open spec fn write(self, rd: Register, value: u64) -> State {
        if rd == Register::X0 {
            self
        } else {
            State { regs: self.regs.update(rd.index() as int, value), ..self }
        }
    }

    /// The state with the program counter set to `pc`.
    pub open spec fn jump(self, pc: u64) -> State {
        State { pc, ..self }
    }

    /// The address that a load, a store or an indirect jump forms from
    /// register `rs1` and the offset `imm`, modulo 2^64.
    pub open spec fn address(self, rs1: Register, imm: i32) -> u64 {
        wrap64(self.reg(rs1) + imm)
    }

    /// The address that lies `imm` bytes from the instruction being executed,
    /// modulo 2^64. While an instruction executes, the program counter
    /// already points 4 bytes behind it.
    pub open spec fn target(self, imm: i32) -> u64 {
        wrap64(self.pc - 4 + imm)
    }

    /// The state after a conditional branch by `imm`: the program counter
    /// moves to the target if the branch is taken and stays if it is not.
    pub open spec fn branch(self, taken: bool, imm: i32) -> State {
        if taken {
            self.jump(self.target(imm))
        } else {
            self
        }
    }

    /// The state after a load of `size` bits from the address in `rs1` plus
    /// `imm` into `rd`, sign-extended if `signed` and zero-extended if not,
    /// or the reason why the load is refused.
    pub open spec fn load(self, rd: Register, rs1: Register, imm: i32, size: u64, signed: bool)
        -> Result<State, Exception> {
        match bus_load(self.mem, self.address(rs1, imm), size) {
            Ok(value) => Ok(
                self.write(
                    rd,
                    if !signed {
                        value
                    } else if size == 8 {
                        sign_extend(value, 0x100)
                    } else if size == 16 {
                        sign_extend(value, 0x1_0000)
                    } else if size == 32 {
                        sign_extend(value, 0x1_0000_0000)
                    } else {
                        value
                    },
                ),
            ),
            Err(exception) => Err(exception),
        }
    }

    /// The state after a store of the low `size` bits of `rs2` to the address
    /// in `rs1` plus `imm`, or the reason why the store is refused.
    pub open spec fn store(self, rs1: Register, rs2: Register, imm: i32, size: u64) -> Result<
        State,
        Exception,
    > {
        match bus_store(self.mem, self.address(rs1, imm), size, self.reg(rs2)) {
            Ok(mem) => Ok(State { mem, ..self }),
            Err(exception) => Err(exception),
        }
    }

    /// The state after `instruction` has executed, or the exception that it
    /// raises. The program counter of `self` points just behind the
    /// instruction; one that transfers control replaces it.
    #[verifier::opaque]
    pub open spec fn execute(self, instruction: Instruction) -> Result<State, Exception> {
        match instruction {
            Instruction::Undefined => Err(Exception::IllegalInstruction),
            Instruction::Ecall => Err(Exception::EnvCall),
            Instruction::Ebreak => Err(Exception::Breakpoint),
            Instruction::Fence { .. } => Ok(self),
            Instruction::Lui { rd, imm } => Ok(self.write(rd, wrap64(imm as int))),
            Instruction::Auipc { rd, imm } => Ok(self.write(rd, self.target(imm))),
            Instruction::Jal { rd, imm } => Ok(self.write(rd, self.pc).jump(self.target(imm))),
            Instruction::Jalr { rd, rs1, imm } => {
                let to = self.address(rs1, imm);
                Ok(self.write(rd, self.pc).jump((to - to % 2) as u64))
            },
            Instruction::Beq { rs1, rs2, imm } => Ok(
                self.branch(self.reg(rs1) == self.reg(rs2), imm),
            ),
            Instruction::Bne { rs1, rs2, imm } => Ok(
                self.branch(self.reg(rs1) != self.reg(rs2), imm),
            ),
            Instruction::Blt { rs1, rs2, imm } => Ok(
                self.branch(signed64(self.reg(rs1)) < signed64(self.reg(rs2)), imm),
            ),
            Instruction::Bge { rs1, rs2, imm } => Ok(
                self.branch(signed64(self.reg(rs1)) >= signed64(self.reg(rs2)), imm),
            ),
            Instruction::Bltu { rs1, rs2, imm } => Ok(
                self.branch(self.reg(rs1) < self.reg(rs2), imm),
            ),
            Instruction::Bgeu { rs1, rs2, imm } => Ok(
                self.branch(self.reg(rs1) >= self.reg(rs2), imm),
            ),
            Instruction::Lb { rd, rs1, imm } => self.load(rd, rs1, imm, 8, true),
            Instruction::Lh { rd, rs1, imm } => self.load(rd, rs1, imm, 16, true),
            Instruction::Lw { rd, rs1, imm } => self.load(rd, rs1, imm, 32, true),
            Instruction::Ld { rd, rs1, imm } => self.load(rd, rs1, imm, 64, true),
            Instruction::Lbu { rd, rs1, imm } => self.load(rd, rs1, imm, 8, false),
            Instruction::Lhu { rd, rs1, imm } => self.load(rd, rs1, imm, 16, false),
            Instruction::Lwu { rd, rs1, imm } => self.load(rd, rs1, imm, 32, false),
            Instruction::Sb { rs1, rs2, imm } => self.store(rs1, rs2, imm, 8),
            Instruction::Sh { rs1, rs2, imm } => self.store(rs1, rs2, imm, 16),
            Instruction::Sw { rs1, rs2, imm } => self.store(rs1, rs2, imm, 32),
            Instruction::Sd { rs1, rs2, imm } => self.store(rs1, rs2, imm, 64),
            Instruction::Addi { rd, rs1, imm } => Ok(self.write(rd, wrap64(self.reg(rs1) + imm))),
            Instruction::Slti { rd, rs1, imm } => Ok(
                self.write(rd, flag(signed64(self.reg(rs1)) < imm)),
            ),
            Instruction::Sltiu { rd, rs1, imm } => Ok(
                self.write(rd, flag(self.reg(rs1) < wrap64(imm as int))),
            ),
            Instruction::Xori { rd, rs1, imm } => Ok(
                self.write(rd, self.reg(rs1) ^ wrap64(imm as int)),
            ),
            Instruction::Ori { rd, rs1, imm } => Ok(
                self.write(rd, self.reg(rs1) | wrap64(imm as int)),
            ),
            Instruction::Andi { rd, rs1, imm } => Ok(
                self.write(rd, self.reg(rs1) & wrap64(imm as int)),
            ),
            Instruction::Slli { rd, rs1, shamt } => Ok(
                self.write(rd, shift_left(self.reg(rs1), shamt as u64)),
            ),
            Instruction::Srli { rd, rs1, shamt } => Ok(
                self.write(rd, shift_right_logical(self.reg(rs1), shamt as u64)),
            ),
            Instruction::Srai { rd, rs1, shamt } => Ok(
                self.write(rd, shift_right_arithmetic(self.reg(rs1), shamt as u64)),
            ),
            Instruction::Add { rd, rs1, rs2 } => Ok(
                self.write(rd, wrap64(self.reg(rs1) + self.reg(rs2))),
            ),
            Instruction::Sub { rd, rs1, rs2 } => Ok(
                self.write(rd, wrap64(self.reg(rs1) - self.reg(rs2))),
            ),
            Instruction::Sll { rd, rs1, rs2 } => Ok(
                self.write(rd, shift_left(self.reg(rs1), self.reg(rs2))),
            ),
            Instruction::Slt { rd, rs1, rs2 } => Ok(
                self.write(rd, flag(signed64(self.reg(rs1)) < signed64(self.reg(rs2)))),
            ),
            Instruction::Sltu { rd, rs1, rs2 } => Ok(
                self.write(rd, flag(self.reg(rs1) < self.reg(rs2))),
            ),
            Instruction::Xor { rd, rs1, rs2 } => Ok(
                self.write(rd, self.reg(rs1) ^ self.reg(rs2)),
            ),
            Instruction::Srl { rd, rs1, rs2 } => Ok(
                self.write(rd, shift_right_logical(self.reg(rs1), self.reg(rs2))),
            ),
            Instruction::Sra { rd, rs1, rs2 } => Ok(
                self.write(rd, shift_right_arithmetic(self.reg(rs1), self.reg(rs2))),
            ),
            Instruction::Or { rd, rs1, rs2 } => Ok(self.write(rd, self.reg(rs1) | self.reg(rs2))),
            Instruction::And { rd, rs1, rs2 } => Ok(
                self.write(rd, self.reg(rs1) & self.reg(rs2)),
            ),
            Instruction::Addiw { rd, rs1, imm } => Ok(
                self.write(rd, sign_extend_word(wrap64(self.reg(rs1) + imm))),
            ),
            Instruction::Slliw { rd, rs1, shamt } => Ok(
                self.write(rd, shift_left_word(self.reg(rs1), shamt as u64)),
            ),
            Instruction::Srliw { rd, rs1, shamt } => Ok(
                self.write(rd, shift_right_logical_word(self.reg(rs1), shamt as u64)),
            ),
            Instruction::Sraiw { rd, rs1, shamt } => Ok(
                self.write(rd, shift_right_arithmetic_word(self.reg(rs1), shamt as u64)),
            ),
            Instruction::Addw { rd, rs1, rs2 } => Ok(
                self.write(rd, sign_extend_word(wrap64(self.reg(rs1) + self.reg(rs2)))),
            ),
            Instruction::Subw { rd, rs1, rs2 } => Ok(
                self.write(rd, sign_extend_word(wrap64(self.reg(rs1) - self.reg(rs2)))),
            ),
            Instruction::Sllw { rd, rs1, rs2 } => Ok(
                self.write(rd, shift_left_word(self.reg(rs1), self.reg(rs2))),
            ),
            Instruction::Srlw { rd, rs1, rs2 } => Ok(
                self.write(rd, shift_right_logical_word(self.reg(rs1), self.reg(rs2))),
            ),
            Instruction::Sraw { rd, rs1, rs2 } => Ok(
                self.write(rd, shift_right_arithmetic_word(self.reg(rs1), self.reg(rs2))),
            ),
        }
    }

    /// The instruction word at the program counter, or the reason why it
    /// cannot be read.
    pub open spec fn fetch(self) -> Result<u32, Exception> {
        match bus_load(self.mem, self.pc, 32) {
            Ok(word) => Ok(word as u32),
            Err(exception) => Err(exception),
        }
    }

    /// One turn of the hart: fetch the word at the program counter, advance
    /// the program counter by 4, decode the word and execute the instruction.
    ///
    /// The result is the state after the turn and the exception that ended
    /// it, if one did. A fetch that fails leaves the state as it was. An
    /// instruction that raises an exception leaves the program counter
    /// advanced and changes nothing else.
    pub open spec fn step(self) -> (State, Option<Exception>) {
        match self.fetch() {
            Err(exception) => (self, Some(exception)),
            Ok(word) => {
                let fetched = self.jump((self.pc + 4) as u64);
                match fetched.execute(decode_spec(word)) {
                    Ok(next) => (next, None),
                    Err(exception) => (fetched, Some(exception)),
                }
            },
        }
    }

    /// The state after the hart has taken turns until one ended in an
    /// exception, but no more than `limit` of them, and that exception; or no
    /// exception, if `limit` turns went by without one.
    pub open spec fn run(self, limit: nat) -> (State, Option<Exception>)
        decreases limit,
    {
        if limit == 0 {
            (self, None)
        } else {
            let (next, stop) = self.step();
            if stop is Some {
                (next, stop)
            } else {
                next.run((limit - 1) as nat)
            }
        }
    }
}

} // verus!
