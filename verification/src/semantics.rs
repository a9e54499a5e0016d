//! What each instruction does, stated over the model. Every function here
//! takes the state in which the program counter already points behind the
//! instruction, and gives the state that the instruction leaves.

use vstd::prelude::*;
use crate::instruction::{decode_spec, Instruction};
use crate::state::{add16, add8, write_bytes, MachineState};

verus! {

/// How a cycle ended.
#[derive(Clone, Copy, Debug, PartialEq, Eq, Structural)]
pub enum StepOutcome {
    /// The machine is halted: nothing was fetched and nothing changed.
    Halted,
    /// The instruction that this word stands for was run.
    Executed(u16),
    /// This word was fetched and names no instruction. The program counter
    /// moved behind it; nothing else changed.
    Unknown(u16),
}

/// The three decimal digits of `value`, hundreds first.
pub open spec fn bcd_digits(value: u8) -> Seq<u8> {
    seq![value / 100, (value % 100) / 10, value % 10]
}

impl MachineState {
    /// The state with the flag register VF set to `flag`.
    pub open spec fn with_flag(self, flag: u8) -> MachineState {
        MachineState { v: self.v.update(15, flag), ..self }
    }

    /// The state with the program counter moved over one instruction.
    pub open spec fn skip(self) -> MachineState {
        MachineState { pc: add16(self.pc, 2), ..self }
    }

    /// The state with the next instruction skipped where `condition` holds.
    pub open spec fn skip_if(self, condition: bool) -> MachineState {
        if condition {
            self.skip()
        } else {
            self
        }
    }

    /// `RET`: pops the newest return address into the program counter. With
    /// nothing to pop, and with a stack pointer beyond the stack, the
    /// instruction does nothing.
    pub open spec fn ret(self) -> MachineState {
        if 0 < self.sp <= self.stack.len() {
            MachineState { sp: (self.sp - 1) as usize, pc: self.stack[self.sp - 1], ..self }
        } else {
            self
        }
    }

    /// `JP nnn`.
    pub open spec fn jump(self, nnn: u16) -> MachineState {
        MachineState { pc: nnn, ..self }
    }

    /// `CALL nnn`: pushes the address of the next instruction and jumps. On a
    /// full stack the instruction does nothing.
    pub open spec fn call(self, nnn: u16) -> MachineState {
        if self.sp < self.stack.len() {
            MachineState {
                stack: self.stack.update(self.sp as int, self.pc),
                sp: (self.sp + 1) as usize,
                pc: nnn,
                ..self
            }
        } else {
            self
        }
    }

    /// `LD Vx, kk`.
    pub open spec fn load_byte(self, x: int, kk: u8) -> MachineState {
        MachineState { v: self.v.update(x, kk), ..self }
    }

    /// `ADD Vx, kk`: wraps at eight bits and leaves VF alone.
    pub open spec fn add_byte(self, x: int, kk: u8) -> MachineState {
        MachineState { v: self.v.update(x, add8(self.v[x], kk as int)), ..self }
    }

    /// `LD Vx, Vy`.
    pub open spec fn move_reg(self, x: int, y: int) -> MachineState {
        MachineState { v: self.v.update(x, self.v[y]), ..self }
    }

    /// `OR Vx, Vy`.
    pub open spec fn or_reg(self, x: int, y: int) -> MachineState {
        MachineState { v: self.v.update(x, self.v[x] | self.v[y]), ..self }
    }

    /// `AND Vx, Vy`.
    pub open spec fn and_reg(self, x: int, y: int) -> MachineState {
        MachineState { v: self.v.update(x, self.v[x] & self.v[y]), ..self }
    }

    /// `XOR Vx, Vy`.
    pub open spec fn xor_reg(self, x: int, y: int) -> MachineState {
        MachineState { v: self.v.update(x, self.v[x] ^ self.v[y]), ..self }
    }

    /// `ADD Vx, Vy`: the low eight bits of the sum go to Vx, then VF becomes 1
    /// if the sum did not fit in eight bits and 0 if it did.
    pub open spec fn add_reg(self, x: int, y: int) -> MachineState {
        let sum = self.v[x] + self.v[y];
        MachineState {
            v: self.v.update(x, add8(self.v[x], self.v[y] as int)).update(
                15,
                if sum > 255 {
                    1u8
                } else {
                    0u8
                },
            ),
            ..self
        }
    }

    /// `SUB Vx, Vy`: Vx minus Vy on eight bits goes to Vx, then VF becomes 1
    /// if nothing was borrowed (Vx was at least Vy) and 0 otherwise.
    pub open spec fn sub_reg(self, x: int, y: int) -> MachineState {
        MachineState {
            v: self.v.update(x, add8(self.v[x], -(self.v[y] as int))).update(
                15,
                if self.v[x] >= self.v[y] {
                    1u8
                } else {
                    0u8
                },
            ),
            ..self
        }
    }

    /// `SUBN Vx, Vy`: Vy minus Vx on eight bits goes to Vx, then VF becomes 1
    /// if nothing was borrowed (Vy was at least Vx) and 0 otherwise.
    pub open spec fn sub_reverse(self, x: int, y: int) -> MachineState {
        MachineState {
            v: self.v.update(x, add8(self.v[y], -(self.v[x] as int))).update(
                15,
                if self.v[y] >= self.v[x] {
                    1u8
                } else {
                    0u8
                },
            ),
            ..self
        }
    }

    /// The register that a shift reads: Vy, or under the shift quirk Vx.
    pub open spec fn shift_source(self, x: int, y: int) -> int {
        if self.shift_quirk {
            x
        } else {
            y
        }
    }

    /// `SHR Vx, Vy`: VF takes the lowest bit of the source, then Vx takes the
    /// source shifted right by one.
    pub open spec fn shift_right(self, x: int, y: int) -> MachineState {
        let source = self.shift_source(x, y);
        let flagged = self.v.update(15, self.v[source] % 2);
        MachineState { v: flagged.update(x, flagged[source] / 2), ..self }
    }

    /// `SHL Vx, Vy`: VF takes the highest bit of the source, then Vx takes
    /// the source shifted left by one.
    pub open spec fn shift_left(self, x: int, y: int) -> MachineState {
        let source = self.shift_source(x, y);
        let flagged = self.v.update(15, self.v[source] / 128);
        MachineState { v: flagged.update(x, add8(flagged[source], flagged[source] as int)), ..self }
    }

    /// `LD I, nnn`.
    pub open spec fn load_index(self, nnn: u16) -> MachineState {
        MachineState { i: nnn, ..self }
    }

    /// The register that the offset jump adds: V0, or under the jump quirk
    /// the register named by the highest nibble of the address.
    pub open spec fn jump_register(self, nnn: u16) -> int {
        if self.jump_quirk {
            (nnn as int / 0x100) % 16
        } else {
            0
        }
    }

    /// `JP V0, nnn`.
    pub open spec fn jump_offset(self, nnn: u16) -> MachineState {
        MachineState { pc: add16(nnn, self.v[self.jump_register(nnn)] as int), ..self }
    }

    /// `RND Vx, kk`, for the byte `random` that the generator gave.
    pub open spec fn random(self, x: int, kk: u8, random: u8) -> MachineState {
        MachineState { v: self.v.update(x, random & kk), ..self }
    }

    /// `LD Vx, DT`.
    pub open spec fn read_delay(self, x: int) -> MachineState {
        MachineState { v: self.v.update(x, self.dt), ..self }
    }

    /// Whether any key is held down.
    pub open spec fn any_key(self) -> bool {
        exists|k: int| 0 <= k < self.keypad.len() && self.keypad[k]
    }

    /// The lowest key that is held down.
    pub open spec fn first_key(self) -> int {
        choose|k: int|
            0 <= k < self.keypad.len() && self.keypad[k] && forall|j: int|
                0 <= j < k ==> !self.keypad[j]
    }

    /// `LD Vx, K`: with a key down, Vx takes the number of the lowest such
    /// key. With none down, the program counter steps back onto this
    /// instruction, so that the next cycle runs it again.
    pub open spec fn wait_key(self, x: int) -> MachineState {
        if self.any_key() {
            MachineState { v: self.v.update(x, self.first_key() as u8), ..self }
        } else {
            MachineState { pc: add16(self.pc, -2), ..self }
        }
    }

    /// `LD DT, Vx`.
    pub open spec fn set_delay(self, x: int) -> MachineState {
        MachineState { dt: self.v[x], ..self }
    }

    /// `LD ST, Vx`.
    pub open spec fn set_sound(self, x: int) -> MachineState {
        MachineState { st: self.v[x], ..self }
    }

    /// `ADD I, Vx`: wraps at sixteen bits.
    pub open spec fn add_index(self, x: int) -> MachineState {
        MachineState { i: add16(self.i, self.v[x] as int), ..self }
    }

    /// `LD F, Vx`: the small glyphs take five bytes each, from address 0.
    pub open spec fn font_address(self, x: int) -> MachineState {
        MachineState { i: (self.v[x] * 5) as u16, ..self }
    }

    /// `LD HF, Vx`: the large glyphs take ten bytes each, from address 80.
    pub open spec fn big_font_address(self, x: int) -> MachineState {
        MachineState { i: (self.v[x] * 10 + 80) as u16, ..self }
    }

    /// `LD B, Vx`: the hundreds, tens and units of Vx go to the three bytes
    /// at the index register. A digit whose address lies outside memory is
    /// dropped.
    pub open spec fn store_bcd(self, x: int) -> MachineState {
        MachineState { memory: write_bytes(self.memory, self.i as int, bcd_digits(self.v[x])), ..self }
    }

    /// The index register after a block load or store of V0 to Vx: moved
    /// behind the block, wrapping at sixteen bits, unless the load/store
    /// quirk keeps it in place.
    pub open spec fn index_after_block(self, x: int) -> u16 {
        if self.load_store_quirk {
            self.i
        } else {
            add16(self.i, x + 1)
        }
    }

    /// `LD [I], Vx`: V0 to Vx go to memory from the index register on. A
    /// register whose address lies outside memory is dropped.
    pub open spec fn store_registers(self, x: int) -> MachineState {
        MachineState {
            memory: write_bytes(self.memory, self.i as int, self.v.subrange(0, x + 1)),
            i: self.index_after_block(x),
            ..self
        }
    }

    /// `LD Vx, [I]`: V0 to Vx are read from memory from the index register
    /// on. A register whose address lies outside memory reads zero.
    pub open spec fn load_registers(self, x: int) -> MachineState {
        MachineState {
            v: Seq::new(
                self.v.len(),
                |k: int|
                    if k <= x {
                        self.byte_at(self.i + k)
                    } else {
                        self.v[k]
                    },
            ),
            i: self.index_after_block(x),
            ..self
        }
    }

    /// `LD R, Vx`: V0 to Vx go to the persistent flag registers.
    pub open spec fn store_flags(self, x: int) -> MachineState {
        MachineState {
            flag_regs: Seq::new(
                self.flag_regs.len(),
                |k: int|
                    if k <= x {
                        self.v[k]
                    } else {
                        self.flag_regs[k]
                    },
            ),
            ..self
        }
    }

    /// `LD Vx, R`: V0 to Vx are read from the persistent flag registers.
    pub open spec fn load_flags(self, x: int) -> MachineState {
        MachineState {
            v: Seq::new(
                self.v.len(),
                |k: int|
                    if k <= x {
                        self.flag_regs[k]
                    } else {
                        self.v[k]
                    },
            ),
            ..self
        }
    }

    /// `EXIT`.
    pub open spec fn exit(self) -> MachineState {
        MachineState { is_halted: true, ..self }
    }

    /// The state that `instruction` leaves. `random` is the byte that the
    /// generator gives; only `Random` reads it. An unknown word changes
    /// nothing.
    pub open spec fn execute(self, instruction: Instruction, random: u8) -> MachineState {
        match instruction {
            Instruction::ScrollDown { n } => self.scroll_down(n as int),
            Instruction::Cls => self.cls(),
            Instruction::Ret => self.ret(),
            Instruction::ScrollRight => self.scroll_right(),
            Instruction::ScrollLeft => self.scroll_left(),
            Instruction::Exit => self.exit(),
            Instruction::Low => self.set_resolution(false),
            Instruction::High => self.set_resolution(true),
            Instruction::Jump { nnn } => self.jump(nnn),
            Instruction::Call { nnn } => self.call(nnn),
            Instruction::SkipEqByte { x, kk } => self.skip_if(self.v[x as int] == kk),
            Instruction::SkipNeByte { x, kk } => self.skip_if(self.v[x as int] != kk),
            Instruction::SkipEqReg { x, y } => self.skip_if(self.v[x as int] == self.v[y as int]),
            Instruction::LoadByte { x, kk } => self.load_byte(x as int, kk),
            Instruction::AddByte { x, kk } => self.add_byte(x as int, kk),
            Instruction::Move { x, y } => self.move_reg(x as int, y as int),
            Instruction::Or { x, y } => self.or_reg(x as int, y as int),
            Instruction::And { x, y } => self.and_reg(x as int, y as int),
            Instruction::Xor { x, y } => self.xor_reg(x as int, y as int),
            Instruction::Add { x, y } => self.add_reg(x as int, y as int),
            Instruction::Sub { x, y } => self.sub_reg(x as int, y as int),
            Instruction::ShiftRight { x, y } => self.shift_right(x as int, y as int),
            Instruction::SubReverse { x, y } => self.sub_reverse(x as int, y as int),
            Instruction::ShiftLeft { x, y } => self.shift_left(x as int, y as int),
            Instruction::SkipNeReg { x, y } => self.skip_if(self.v[x as int] != self.v[y as int]),
            Instruction::LoadIndex { nnn } => self.load_index(nnn),
            Instruction::JumpOffset { nnn } => self.jump_offset(nnn),
            Instruction::Random { x, kk } => self.random(x as int, kk, random),
            Instruction::Draw { x, y, n } => self.draw(x as int, y as int, n as int),
            Instruction::SkipKey { x } => self.skip_if(self.key_pressed(self.v[x as int] as int)),
            Instruction::SkipNoKey { x } => self.skip_if(!self.key_pressed(self.v[x as int] as int)),
            Instruction::ReadDelay { x } => self.read_delay(x as int),
            Instruction::WaitKey { x } => self.wait_key(x as int),
            Instruction::SetDelay { x } => self.set_delay(x as int),
            Instruction::SetSound { x } => self.set_sound(x as int),
            Instruction::AddIndex { x } => self.add_index(x as int),
            Instruction::FontAddress { x } => self.font_address(x as int),
            Instruction::BigFontAddress { x } => self.big_font_address(x as int),
            Instruction::StoreBcd { x } => self.store_bcd(x as int),
            Instruction::StoreRegisters { x } => self.store_registers(x as int),
            Instruction::LoadRegisters { x } => self.load_registers(x as int),
            Instruction::StoreFlags { x } => self.store_flags(x as int),
            Instruction::LoadFlags { x } => self.load_flags(x as int),
            Instruction::Unknown { opcode } => self,
        }
    }

    /// The state after one cycle: a halted machine stays as it is; a running
    /// one reads the word at the program counter, moves the program counter
    /// behind it and then runs the instruction.
    pub open spec fn step(self, random: u8) -> MachineState {
        if self.is_halted {
            self
        } else {
            self.skip().execute(decode_spec(self.opcode()), random)
        }
    }

    /// How one cycle ends.
    pub open spec fn step_outcome(self) -> StepOutcome {
        if self.is_halted {
            StepOutcome::Halted
        } else if decode_spec(self.opcode()) is Unknown {
            StepOutcome::Unknown(self.opcode())
        } else {
            StepOutcome::Executed(self.opcode())
        }
    }

    /// What one cycle reports in short: the word that was run, or nothing
    /// where the machine is halted or the word names no instruction.
    pub open spec fn step_report(self) -> Option<u16> {
        match self.step_outcome() {
            StepOutcome::Executed(opcode) => Some(opcode),
            _ => None,
        }
    }
}

} // verus!
