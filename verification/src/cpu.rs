//! The hart: it owns the registers, the program counter and the bus, and
//! fetches, decodes and executes one instruction at a time.

use crate::arith::{
    clear_low_bit, difference, extend_byte, extend_half, extend_word, immediate, less_signed,
    less_signed_immediate, offset, relative, sar, sar_word, shl, shl_word, shr, shr_word, sum,
    to_flag,
};
use crate::bus::{bus_load, bus_store, Bus, DRAM_BASE};
use crate::dram::DRAM_SIZE;
use crate::dump::{dump_text, render};
use crate::exception::Exception;
use crate::instruction::{decode, decode_spec, Instruction};
use crate::register::Register;
use crate::state::State;
use vstd::prelude::*;

verus! {

/// Whether a call that took the hart from `before` to `after` and returned
/// `result` did what `outcome` asks: reach the state of an `Ok` outcome and
/// return `Ok`, or return the exception of an `Err` outcome and leave the
/// state as it was.
pub open spec fn realizes(
    outcome: Result<State, Exception>,
    before: State,
    after: State,
    result: Result<(), Exception>,
) -> bool {
    match outcome {
        Ok(state) => result is Ok && after == state,
        Err(exception) => result == Err::<(), Exception>(exception) && after == before,
    }
}

/// A hart: thirty-two registers, a program counter, and the bus to memory.
pub struct Cpu {
    regs: [u64; 32],
    pc: u64,
    bus: Bus,
}

impl View for Cpu {
    type V = State;

    /// The architectural state of the hart.
    closed spec fn view(&self) -> State {
        State { regs: self.regs@, pc: self.pc, mem: self.bus@ }
    }
}

impl Cpu {
    #[verifier::type_invariant]
    spec fn well_formed(&self) -> bool {
        self.regs[0] == 0 && self.bus@.len() == DRAM_SIZE
    }

    /// Makes a hart at reset whose memory holds the program image `binary`.
    pub fn new(binary: Vec<u8>) -> (cpu: Cpu)
        requires
            binary@.len() <= DRAM_SIZE,
        ensures
            cpu@ == State::reset(binary@),
            cpu@.wf(),
    {
        let mut regs: [u64; 32] = [0; 32];
        // The stack pointer starts just behind the memory.
        regs[2] = DRAM_BASE + DRAM_SIZE;
        let cpu = Self { regs, pc: DRAM_BASE, bus: Bus::new(binary) };
        assert(cpu@.regs =~= State::reset(binary@).regs);
        cpu
    }

    /// Returns the value of register `r`. Register 0 reads as zero.
    pub fn reg(&self, r: Register) -> (value: u64)
        ensures
            value == self@.reg(r),
            r == Register::X0 ==> value == 0,
            self@.wf(),
    {
        proof {
            use_type_invariant(self);
        }
        self.regs[r.index()]
    }

    /// Returns the program counter.
    pub fn pc(&self) -> (pc: u64)
        ensures
            pc == self@.pc,
            self@.wf(),
    {
        proof {
            use_type_invariant(self);
        }
        self.pc
    }

    /// Returns the dump of the registers as ASCII text: eight lines of four
    /// registers, each with its number, its name and its value in
    /// hexadecimal.
    pub fn dump_registers(&self) -> (text: Vec<u8>)
        ensures
            text@ == dump_text(self@.regs),
    {
        render(&self.regs)
    }

    /// Writes `value` to register `rd`. A write to register 0 is discarded.
    pub fn set_reg(&mut self, rd: Register, value: u64)
        ensures
            final(self)@ == old(self)@.write(rd, value),
            final(self)@.wf(),
    {
        proof {
            use_type_invariant(&*self);
        }
        let index: usize = rd.index();
        if index != 0 {
            self.regs[index] = value;
        }
        assert(self@.regs =~= old(self)@.write(rd, value).regs);
    }

    /// Sets the program counter.
    pub fn set_pc(&mut self, pc: u64)
        ensures
            final(self)@ == old(self)@.jump(pc),
            final(self)@.wf(),
    {
        proof {
            use_type_invariant(&*self);
        }
        self.pc = pc;
    }

    /// Reads `size` bits at address `addr` through the bus.
    pub fn load(&self, addr: u64, size: u64) -> (result: Result<u64, Exception>)
        ensures
            result == bus_load(self@.mem, addr, size),
            self@.wf(),
    {
        proof {
            use_type_invariant(self);
        }
        self.bus.load(addr, size)
    }

    /// Writes the low `size` bits of `value` at address `addr` through the
    /// bus. A store that is refused changes nothing.
    pub fn store(&mut self, addr: u64, size: u64, value: u64) -> (result: Result<(), Exception>)
        ensures
            match bus_store(old(self)@.mem, addr, size, value) {
                Ok(mem) => result is Ok && final(self)@ == (State { mem, ..old(self)@ }),
                Err(exception) => result == Err::<(), Exception>(exception) && final(self)@ == old(
                    self,
                )@,
            },
            final(self)@.wf(),
    {
        proof {
            use_type_invariant(&*self);
        }
        self.bus.store(addr, size, value)
    }

    /// Reads the instruction word at the program counter.
    pub fn fetch(&mut self) -> (result: Result<u32, Exception>)
        ensures
            result == old(self)@.fetch(),
            final(self)@ == old(self)@,
            final(self)@.wf(),
    {
        proof {
            use_type_invariant(&*self);
        }
        match self.bus.load(self.pc, 32) {
            Ok(inst) => {
                let inst: u32 = inst as u32;
                Ok(inst)
            },
            Err(exception) => Err(exception),
        }
    }

    /// Moves the program counter to the address `imm` bytes from the
    /// instruction being executed, if `taken`.
    fn branch(&mut self, taken: bool, imm: i32)
        ensures
            final(self)@ == old(self)@.branch(taken, imm),
    {
        proof {
            use_type_invariant(&*self);
        }
        if taken {
            self.pc = relative(self.pc, imm);
        }
    }

    /// Loads `size` bits from the address in `rs1` plus `imm` into `rd`.
    fn load_into(
        &mut self,
        rd: Register,
        rs1: Register,
        imm: i32,
        size: u64,
        signed: bool,
    ) -> (result: Result<(), Exception>)
        requires
            size == 8 || size == 16 || size == 32 || size == 64,
        ensures
            realizes(old(self)@.load(rd, rs1, imm, size, signed), old(self)@, final(self)@, result),
    {
        proof {
            use_type_invariant(&*self);
        }
        let addr: u64 = offset(self.regs[rs1.index()], imm);
        match self.bus.load(addr, size) {
            Ok(value) => {
                let value: u64 = if !signed {
                    value
                } else if size == 8 {
                    extend_byte(value)
                } else if size == 16 {
                    extend_half(value)
                } else if size == 32 {
                    extend_word(value)
                } else {
                    value
                };
                self.set_reg(rd, value);
                Ok(())
            },
            Err(exception) => Err(exception),
        }
    }

    /// Stores the low `size` bits of `rs2` to the address in `rs1` plus `imm`.
    fn store_from(&mut self, rs1: Register, rs2: Register, imm: i32, size: u64) -> (result: Result<
        (),
        Exception,
    >)
        ensures
            realizes(old(self)@.store(rs1, rs2, imm, size), old(self)@, final(self)@, result),
    {
        proof {
            use_type_invariant(&*self);
        }
        let addr: u64 = offset(self.regs[rs1.index()], imm);
        let value: u64 = self.regs[rs2.index()];
        self.bus.store(addr, size, value)
    }

    /// Executes a load.
    fn execute_load(&mut self, instruction: Instruction) -> (result: Result<(), Exception>)
        requires
            instruction.is_load(),
        ensures
            realizes(old(self)@.execute(instruction), old(self)@, final(self)@, result),
            final(self)@.wf(),
    {
        proof {
            use_type_invariant(&*self);
            reveal(State::execute);
        }
        match instruction {
            Instruction::Lb { rd, rs1, imm } => {
                self.load_into(rd, rs1, imm, 8, true)?;
            },
            Instruction::Lh { rd, rs1, imm } => {
                self.load_into(rd, rs1, imm, 16, true)?;
            },
            Instruction::Lw { rd, rs1, imm } => {
                self.load_into(rd, rs1, imm, 32, true)?;
            },
            Instruction::Ld { rd, rs1, imm } => {
                self.load_into(rd, rs1, imm, 64, true)?;
            },
            Instruction::Lbu { rd, rs1, imm } => {
                self.load_into(rd, rs1, imm, 8, false)?;
            },
            Instruction::Lhu { rd, rs1, imm } => {
                self.load_into(rd, rs1, imm, 16, false)?;
            },
            Instruction::Lwu { rd, rs1, imm } => {
                self.load_into(rd, rs1, imm, 32, false)?;
            },
            _ => unreached(),
        }
        Ok(())
    }

    /// Executes a store.
    fn execute_store(&mut self, instruction: Instruction) -> (result: Result<(), Exception>)
        requires
            instruction.is_store(),
        ensures
            realizes(old(self)@.execute(instruction), old(self)@, final(self)@, result),
            final(self)@.wf(),
    {
        proof {
            use_type_invariant(&*self);
            reveal(State::execute);
        }
        match instruction {
            Instruction::Sb { rs1, rs2, imm } => {
                self.store_from(rs1, rs2, imm, 8)?;
            },
            Instruction::Sh { rs1, rs2, imm } => {
                self.store_from(rs1, rs2, imm, 16)?;
            },
            Instruction::Sw { rs1, rs2, imm } => {
                self.store_from(rs1, rs2, imm, 32)?;
            },
            Instruction::Sd { rs1, rs2, imm } => {
                self.store_from(rs1, rs2, imm, 64)?;
            },
            _ => unreached(),
        }
        Ok(())
    }

    /// Executes a conditional branch.
    fn execute_branch(&mut self, instruction: Instruction) -> (result: Result<(), Exception>)
        requires
            instruction.is_branch(),
        ensures
            realizes(old(self)@.execute(instruction), old(self)@, final(self)@, result),
            final(self)@.wf(),
    {
        proof {
            use_type_invariant(&*self);
            reveal(State::execute);
        }
        match instruction {
            Instruction::Beq { rs1, rs2, imm } => {
                let a: u64 = self.reg(rs1);
                let b: u64 = self.reg(rs2);
                self.branch(a == b, imm);
            },
            Instruction::Bne { rs1, rs2, imm } => {
                let a: u64 = self.reg(rs1);
                let b: u64 = self.reg(rs2);
                self.branch(a != b, imm);
            },
            Instruction::Blt { rs1, rs2, imm } => {
                let a: u64 = self.reg(rs1);
                let b: u64 = self.reg(rs2);
                self.branch(less_signed(a, b), imm);
            },
            Instruction::Bge { rs1, rs2, imm } => {
                let a: u64 = self.reg(rs1);
                let b: u64 = self.reg(rs2);
                self.branch(!less_signed(a, b), imm);
            },
            Instruction::Bltu { rs1, rs2, imm } => {
                let a: u64 = self.reg(rs1);
                let b: u64 = self.reg(rs2);
                self.branch(a < b, imm);
            },
            Instruction::Bgeu { rs1, rs2, imm } => {
                let a: u64 = self.reg(rs1);
                let b: u64 = self.reg(rs2);
                self.branch(a >= b, imm);
            },
            _ => unreached(),
        }
        Ok(())
    }

    /// Executes an operation on a register and an immediate.
    fn execute_op_imm(&mut self, instruction: Instruction) -> (result: Result<(), Exception>)
        requires
            instruction.is_op_imm(),
        ensures
            realizes(old(self)@.execute(instruction), old(self)@, final(self)@, result),
            final(self)@.wf(),
    {
        proof {
            use_type_invariant(&*self);
            reveal(State::execute);
        }
        match instruction {
            Instruction::Addi { rd, rs1, imm } => {
                let a: u64 = self.reg(rs1);
                self.set_reg(rd, offset(a, imm));
            },
            Instruction::Slti { rd, rs1, imm } => {
                let a: u64 = self.reg(rs1);
                self.set_reg(rd, to_flag(less_signed_immediate(a, imm)));
            },
            Instruction::Sltiu { rd, rs1, imm } => {
                let a: u64 = self.reg(rs1);
                self.set_reg(rd, to_flag(a < immediate(imm)));
            },
            Instruction::Xori { rd, rs1, imm } => {
                let a: u64 = self.reg(rs1);
                self.set_reg(rd, a ^ immediate(imm));
            },
            Instruction::Ori { rd, rs1, imm } => {
                let a: u64 = self.reg(rs1);
                self.set_reg(rd, a | immediate(imm));
            },
            Instruction::Andi { rd, rs1, imm } => {
                let a: u64 = self.reg(rs1);
                self.set_reg(rd, a & immediate(imm));
            },
            Instruction::Slli { rd, rs1, shamt } => {
                let a: u64 = self.reg(rs1);
                self.set_reg(rd, shl(a, shamt as u64));
            },
            Instruction::Srli { rd, rs1, shamt } => {
                let a: u64 = self.reg(rs1);
                self.set_reg(rd, shr(a, shamt as u64));
            },
            Instruction::Srai { rd, rs1, shamt } => {
                let a: u64 = self.reg(rs1);
                self.set_reg(rd, sar(a, shamt as u64));
            },
            _ => unreached(),
        }
        Ok(())
    }

    /// Executes an operation on two registers.
    fn execute_op(&mut self, instruction: Instruction) -> (result: Result<(), Exception>)
        requires
            instruction.is_op(),
        ensures
            realizes(old(self)@.execute(instruction), old(self)@, final(self)@, result),
            final(self)@.wf(),
    {
        proof {
            use_type_invariant(&*self);
            reveal(State::execute);
        }
        match instruction {
            Instruction::Add { rd, rs1, rs2 } => {
                let a: u64 = self.reg(rs1);
                let b: u64 = self.reg(rs2);
                self.set_reg(rd, sum(a, b));
            },
            Instruction::Sub { rd, rs1, rs2 } => {
                let a: u64 = self.reg(rs1);
                let b: u64 = self.reg(rs2);
                self.set_reg(rd, difference(a, b));
            },
            Instruction::Sll { rd, rs1, rs2 } => {
                let a: u64 = self.reg(rs1);
                let b: u64 = self.reg(rs2);
                self.set_reg(rd, shl(a, b));
            },
            Instruction::Slt { rd, rs1, rs2 } => {
                let a: u64 = self.reg(rs1);
                let b: u64 = self.reg(rs2);
                self.set_reg(rd, to_flag(less_signed(a, b)));
            },
            Instruction::Sltu { rd, rs1, rs2 } => {
                let a: u64 = self.reg(rs1);
                let b: u64 = self.reg(rs2);
                self.set_reg(rd, to_flag(a < b));
            },
            Instruction::Xor { rd, rs1, rs2 } => {
                let a: u64 = self.reg(rs1);
                let b: u64 = self.reg(rs2);
                self.set_reg(rd, a ^ b);
            },
            Instruction::Srl { rd, rs1, rs2 } => {
                let a: u64 = self.reg(rs1);
                let b: u64 = self.reg(rs2);
                self.set_reg(rd, shr(a, b));
            },
            Instruction::Sra { rd, rs1, rs2 } => {
                let a: u64 = self.reg(rs1);
                let b: u64 = self.reg(rs2);
                self.set_reg(rd, sar(a, b));
            },
            Instruction::Or { rd, rs1, rs2 } => {
                let a: u64 = self.reg(rs1);
                let b: u64 = self.reg(rs2);
                self.set_reg(rd, a | b);
            },
            Instruction::And { rd, rs1, rs2 } => {
                let a: u64 = self.reg(rs1);
                let b: u64 = self.reg(rs2);
                self.set_reg(rd, a & b);
            },
            _ => unreached(),
        }
        Ok(())
    }

    /// Executes an operation on the low word of a register and an immediate.
    fn execute_op_imm_word(&mut self, instruction: Instruction) -> (result: Result<(), Exception>)
        requires
            instruction.is_op_imm_word(),
        ensures
            realizes(old(self)@.execute(instruction), old(self)@, final(self)@, result),
            final(self)@.wf(),
    {
        proof {
            use_type_invariant(&*self);
            reveal(State::execute);
        }
        match instruction {
            Instruction::Addiw { rd, rs1, imm } => {
                let a: u64 = self.reg(rs1);
                self.set_reg(rd, extend_word(offset(a, imm)));
            },
            Instruction::Slliw { rd, rs1, shamt } => {
                let a: u64 = self.reg(rs1);
                self.set_reg(rd, shl_word(a, shamt as u64));
            },
            Instruction::Srliw { rd, rs1, shamt } => {
                let a: u64 = self.reg(rs1);
                self.set_reg(rd, shr_word(a, shamt as u64));
            },
            Instruction::Sraiw { rd, rs1, shamt } => {
                let a: u64 = self.reg(rs1);
                self.set_reg(rd, sar_word(a, shamt as u64));
            },
            _ => unreached(),
        }
        Ok(())
    }

    /// Executes an operation on the low words of two registers.
    fn execute_op_word(&mut self, instruction: Instruction) -> (result: Result<(), Exception>)
        requires
            instruction.is_op_word(),
        ensures
            realizes(old(self)@.execute(instruction), old(self)@, final(self)@, result),
            final(self)@.wf(),
    {
        proof {
            use_type_invariant(&*self);
            reveal(State::execute);
        }
        match instruction {
            Instruction::Addw { rd, rs1, rs2 } => {
                let a: u64 = self.reg(rs1);
                let b: u64 = self.reg(rs2);
                self.set_reg(rd, extend_word(sum(a, b)));
            },
            Instruction::Subw { rd, rs1, rs2 } => {
                let a: u64 = self.reg(rs1);
                let b: u64 = self.reg(rs2);
                self.set_reg(rd, extend_word(difference(a, b)));
            },
            Instruction::Sllw { rd, rs1, rs2 } => {
                let a: u64 = self.reg(rs1);
                let b: u64 = self.reg(rs2);
                self.set_reg(rd, shl_word(a, b));
            },
            Instruction::Srlw { rd, rs1, rs2 } => {
                let a: u64 = self.reg(rs1);
                let b: u64 = self.reg(rs2);
                self.set_reg(rd, shr_word(a, b));
            },
            Instruction::Sraw { rd, rs1, rs2 } => {
                let a: u64 = self.reg(rs1);
                let b: u64 = self.reg(rs2);
                self.set_reg(rd, sar_word(a, b));
            },
            _ => unreached(),
        }
        Ok(())
    }

    /// Executes an instruction that forms a value from an upper immediate.
    fn execute_upper(&mut self, instruction: Instruction) -> (result: Result<(), Exception>)
        requires
            instruction.is_upper(),
        ensures
            realizes(old(self)@.execute(instruction), old(self)@, final(self)@, result),
            final(self)@.wf(),
    {
        proof {
            use_type_invariant(&*self);
            reveal(State::execute);
        }
        match instruction {
            Instruction::Lui { rd, imm } => {
                self.set_reg(rd, immediate(imm));
            },
            Instruction::Auipc { rd, imm } => {
                let at: u64 = relative(self.pc, imm);
                self.set_reg(rd, at);
            },
            _ => unreached(),
        }
        Ok(())
    }

    /// Executes a jump that links.
    fn execute_jump(&mut self, instruction: Instruction) -> (result: Result<(), Exception>)
        requires
            instruction.is_jump(),
        ensures
            realizes(old(self)@.execute(instruction), old(self)@, final(self)@, result),
            final(self)@.wf(),
    {
        proof {
            use_type_invariant(&*self);
            reveal(State::execute);
        }
        match instruction {
            Instruction::Jal { rd, imm } => {
                let link: u64 = self.pc;
                self.set_reg(rd, link);
                self.branch(true, imm);
            },
            Instruction::Jalr { rd, rs1, imm } => {
                let link: u64 = self.pc;
                let to: u64 = offset(self.reg(rs1), imm);
                self.pc = clear_low_bit(to);
                self.set_reg(rd, link);
            },
            _ => unreached(),
        }
        Ok(())
    }

    /// Executes a fence, an environment call, a breakpoint or a word that is
    /// no instruction.
    fn execute_other(&mut self, instruction: Instruction) -> (result: Result<(), Exception>)
        requires
            instruction.is_other(),
        ensures
            realizes(old(self)@.execute(instruction), old(self)@, final(self)@, result),
            final(self)@.wf(),
    {
        proof {
            use_type_invariant(&*self);
            reveal(State::execute);
        }
        match instruction {
            Instruction::Fence { .. } => {},
            Instruction::Ecall => {
                return Err(Exception::EnvCall);
            },
            Instruction::Ebreak => {
                return Err(Exception::Breakpoint);
            },
            Instruction::Undefined => {
                return Err(Exception::IllegalInstruction);
            },
            _ => unreached(),
        }
        Ok(())
    }

    /// Executes one instruction. The program counter must already point
    /// behind the instruction; an instruction that transfers control
    /// replaces it. An instruction that raises an exception changes nothing.
    ///
    /// The work is handed to the function of the family that the instruction
    /// belongs to.
    pub fn execute_instruction(&mut self, instruction: Instruction) -> (result: Result<
        (),
        Exception,
    >)
        ensures
            realizes(old(self)@.execute(instruction), old(self)@, final(self)@, result),
            final(self)@.wf(),
    {
        match instruction {
            Instruction::Lb { .. }
            | Instruction::Lh { .. }
            | Instruction::Lw { .. }
            | Instruction::Ld { .. }
            | Instruction::Lbu { .. }
            | Instruction::Lhu { .. }
            | Instruction::Lwu { .. } => self.execute_load(instruction),
            Instruction::Sb { .. }
            | Instruction::Sh { .. }
            | Instruction::Sw { .. }
            | Instruction::Sd { .. } => self.execute_store(instruction),
            Instruction::Beq { .. }
            | Instruction::Bne { .. }
            | Instruction::Blt { .. }
            | Instruction::Bge { .. }
            | Instruction::Bltu { .. }
            | Instruction::Bgeu { .. } => self.execute_branch(instruction),
            Instruction::Addi { .. }
            | Instruction::Slti { .. }
            | Instruction::Sltiu { .. }
            | Instruction::Xori { .. }
            | Instruction::Ori { .. }
            | Instruction::Andi { .. }
            | Instruction::Slli { .. }
            | Instruction::Srli { .. }
            | Instruction::Srai { .. } => self.execute_op_imm(instruction),
            Instruction::Add { .. }
            | Instruction::Sub { .. }
            | Instruction::Sll { .. }
            | Instruction::Slt { .. }
            | Instruction::Sltu { .. }
            | Instruction::Xor { .. }
            | Instruction::Srl { .. }
            | Instruction::Sra { .. }
            | Instruction::Or { .. }
            | Instruction::And { .. } => self.execute_op(instruction),
            Instruction::Addiw { .. }
            | Instruction::Slliw { .. }
            | Instruction::Srliw { .. }
            | Instruction::Sraiw { .. } => self.execute_op_imm_word(instruction),
            Instruction::Addw { .. }
            | Instruction::Subw { .. }
            | Instruction::Sllw { .. }
            | Instruction::Srlw { .. }
            | Instruction::Sraw { .. } => self.execute_op_word(instruction),
            Instruction::Lui { .. } | Instruction::Auipc { .. } => self.execute_upper(instruction),
            Instruction::Jal { .. } | Instruction::Jalr { .. } => self.execute_jump(instruction),
            Instruction::Fence { .. }
            | Instruction::Ecall
            | Instruction::Ebreak
            | Instruction::Undefined => self.execute_other(instruction),
        }
    }

    /// Decodes the instruction word `inst` and executes the instruction that
    /// it stands for. The program counter must already point behind the
    /// instruction. A word that raises an exception changes nothing.
    pub fn execute(&mut self, inst: u32) -> (result: Result<(), Exception>)
        ensures
            realizes(old(self)@.execute(decode_spec(inst)), old(self)@, final(self)@, result),
            final(self)@.wf(),
    {
        let instruction = decode(inst);
        self.execute_instruction(instruction)
    }

    /// Takes one turn: fetches the word at the program counter, advances the
    /// program counter by 4 and executes the word.
    ///
    /// A fetch that fails leaves the hart as it was. An instruction that
    /// raises an exception leaves the program counter advanced and changes
    /// nothing else.
    pub fn step(&mut self) -> (result: Result<(), Exception>)
        ensures
            final(self)@ == old(self)@.step().0,
            match old(self)@.step().1 {
                Some(exception) => result == Err::<(), Exception>(exception),
                None => result is Ok,
            },
            final(self)@.wf(),
    {
        let inst: u32 = self.fetch()?;
        self.set_pc(self.pc + 4);
        self.execute(inst)
    }

    /// Takes turns until one ends in an exception, but no more than `limit`
    /// of them. Returns the exception that ended the run, or `None` if
    /// `limit` turns went by without one.
    pub fn run(&mut self, limit: u64) -> (stop: Option<Exception>)
        ensures
            (final(self)@, stop) == old(self)@.run(limit as nat),
            final(self)@.wf(),
    {
        proof {
            use_type_invariant(&*self);
        }
        let mut left: u64 = limit;
        while left > 0
            invariant
                self@.wf(),
                self@.run(left as nat) == old(self)@.run(limit as nat),
            decreases left,
        {
            if let Err(exception) = self.step() {
                return Some(exception);
            }
            left -= 1;
        }
        None
    }
}

} // verus!
