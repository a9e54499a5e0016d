//! The instruction cycle: fetch, decode, execute.

use vstd::prelude::*;
use crate::cpu::CPU;
use crate::instruction::{decode, Instruction};
use crate::semantics::StepOutcome;

verus! {

impl CPU {
    /// Runs one decoded instruction. The program counter is expected to
    /// point behind the instruction already. `random` is the byte that
    /// `Random` takes for the generator's; no other instruction reads it. An
    /// unknown word changes nothing.
    pub fn execute(&mut self, instruction: Instruction, random: u8)
        requires
            instruction.wf(),
        ensures
            final(self)@ == old(self)@.execute(instruction, random),
    {
        match instruction {
            Instruction::ScrollDown { n } => self.op_00cn(n as u8),
            Instruction::Cls => self.op_00e0(),
            Instruction::Ret => self.op_00ee(),
            Instruction::ScrollRight => self.op_00fb(),
            Instruction::ScrollLeft => self.op_00fc(),
            Instruction::Exit => self.op_00fd(),
            Instruction::Low => self.op_00fe(),
            Instruction::High => self.op_00ff(),
            Instruction::Jump { nnn } => self.op_1nnn(nnn),
            Instruction::Call { nnn } => self.op_2nnn(nnn),
            Instruction::SkipEqByte { x, kk } => self.op_3xkk(x, kk),
            Instruction::SkipNeByte { x, kk } => self.op_4xkk(x, kk),
            Instruction::SkipEqReg { x, y } => self.op_5xy0(x, y),
            Instruction::LoadByte { x, kk } => self.op_6xkk(x, kk),
            Instruction::AddByte { x, kk } => self.op_7xkk(x, kk),
            Instruction::Move { x, y } => self.op_8xy0(x, y),
            Instruction::Or { x, y } => self.op_8xy1(x, y),
            Instruction::And { x, y } => self.op_8xy2(x, y),
            Instruction::Xor { x, y } => self.op_8xy3(x, y),
            Instruction::Add { x, y } => self.op_8xy4(x, y),
            Instruction::Sub { x, y } => self.op_8xy5(x, y),
            Instruction::ShiftRight { x, y } => self.op_8xy6(x, y),
            Instruction::SubReverse { x, y } => self.op_8xy7(x, y),
            Instruction::ShiftLeft { x, y } => self.op_8xye(x, y),
            Instruction::SkipNeReg { x, y } => self.op_9xy0(x, y),
            Instruction::LoadIndex { nnn } => self.op_annn(nnn),
            Instruction::JumpOffset { nnn } => self.op_bnnn(nnn),
            Instruction::Random { x, kk } => self.op_cxkk_with(x, kk, random),
            Instruction::Draw { x, y, n } => self.op_dxyn(x, y, n),
            Instruction::SkipKey { x } => self.op_ex9e(x),
            Instruction::SkipNoKey { x } => self.op_exa1(x),
            Instruction::ReadDelay { x } => self.op_fx07(x),
            Instruction::WaitKey { x } => self.op_fx0a(x),
            Instruction::SetDelay { x } => self.op_fx15(x),
            Instruction::SetSound { x } => self.op_fx18(x),
            Instruction::AddIndex { x } => self.op_fx1e(x),
            Instruction::FontAddress { x } => self.op_fx29(x),
            Instruction::BigFontAddress { x } => self.op_fx30(x),
            Instruction::StoreBcd { x } => self.op_fx33(x),
            Instruction::StoreRegisters { x } => self.op_fx55(x),
            Instruction::LoadRegisters { x } => self.op_fx65(x),
            Instruction::StoreFlags { x } => self.op_fx75(x),
            Instruction::LoadFlags { x } => self.op_fx85(x),
            Instruction::Unknown { opcode } => {},
        }
    }

    /// Reads the instruction word at the program counter and moves the
    /// program counter behind it.
    fn fetch(&mut self) -> (opcode: u16)
        ensures
            opcode == old(self)@.opcode(),
            final(self)@ == old(self)@.skip(),
    {
        let opcode = self.fetch_opcode();
        self.pc = self.pc.wrapping_add(2);
        opcode
    }

    /// One cycle: fetch, decode, execute. A halted machine does nothing. A
    /// word that names no instruction is passed over: the program counter
    /// moves behind it, nothing else changes, and the word is handed back as
    /// `Unknown`, so that the caller can go on, stop or report it.
    ///
    /// The one instruction that asks the random number generator makes the
    /// state depend on its answer; `step_with` is the same cycle with that
    /// byte given.
    pub fn step(&mut self) -> (outcome: StepOutcome)
        ensures
            exists|random: u8| final(self)@ == old(self)@.step(random),
            outcome == old(self)@.step_outcome(),
    {
        if self.is_halted {
            proof {
                assert(self@ == old(self)@.step(0));
            }
            return StepOutcome::Halted;
        }
        let opcode = self.fetch();
        let instruction = decode(opcode);
        let ghost fetched = self@;
        match instruction {
            Instruction::Unknown { opcode } => {
                proof {
                    assert(self@ == old(self)@.step(0));
                }
                StepOutcome::Unknown(opcode)
            },
            Instruction::Random { x, kk } => {
                self.op_cxkk(x, kk);
                proof {
                    let random = choose|random: u8| self@ == fetched.random(x as int, kk, random);
                    assert(self@ == old(self)@.step(random));
                }
                StepOutcome::Executed(opcode)
            },
            _ => {
                self.execute(instruction, 0);
                proof {
                    assert(self@ == old(self)@.step(0));
                }
                StepOutcome::Executed(opcode)
            },
        }
    }

    /// One cycle, as `step`, with `random` in place of the byte that the
    /// random number generator would give.
    pub fn step_with(&mut self, random: u8) -> (outcome: StepOutcome)
        ensures
            final(self)@ == old(self)@.step(random),
            outcome == old(self)@.step_outcome(),
    {
        if self.is_halted {
            return StepOutcome::Halted;
        }
        let opcode = self.fetch();
        let instruction = decode(opcode);
        match instruction {
            Instruction::Unknown { opcode } => StepOutcome::Unknown(opcode),
            _ => {
                self.execute(instruction, random);
                StepOutcome::Executed(opcode)
            },
        }
    }

    /// One cycle, as `step`, reporting in short: the word that was run, or
    /// `None` where the machine is halted or the word names no instruction.
    pub fn execute_cycle(&mut self) -> (report: Option<u16>)
        ensures
            exists|random: u8| final(self)@ == old(self)@.step(random),
            report == old(self)@.step_report(),
    {
        match self.step() {
            StepOutcome::Executed(opcode) => Some(opcode),
            _ => None,
        }
    }

    /// One cycle, as `execute_cycle`, with `random` in place of the byte
    /// that the random number generator would give.
    pub fn execute_cycle_with(&mut self, random: u8) -> (report: Option<u16>)
        ensures
            final(self)@ == old(self)@.step(random),
            report == old(self)@.step_report(),
    {
        match self.step_with(random) {
            StepOutcome::Executed(opcode) => Some(opcode),
            _ => None,
        }
    }
}

} // verus!
