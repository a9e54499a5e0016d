//! The mathematical model of the machine: one value that holds everything the
//! interpreter knows, with sequences in place of arrays.

use vstd::prelude::*;
use crate::font::initial_memory_byte;

verus! {

/// Bytes of working memory.
pub const MEMORY_SIZE: usize = 4096;

/// Address at which programs are loaded and start.
pub const PROGRAM_START: u16 = 0x200;

/// The longest program that fits between `PROGRAM_START` and the end of
/// memory.
pub const MAX_ROM_SIZE: usize = 3584;

/// Slots of the return-address stack.
pub const STACK_SIZE: usize = 16;

/// Number of general purpose registers, V0 to VF.
pub const REGISTER_COUNT: usize = 16;

/// The register that doubles as the flag output of the ALU and of the draw
/// instruction.
pub const FLAG_REGISTER: usize = 15;

/// Number of keys on the pad.
pub const KEY_COUNT: usize = 16;

/// Number of persistent flag registers.
pub const FLAG_REGISTER_COUNT: usize = 8;

/// Pixels of the display buffer: enough for the extended resolution.
pub const VRAM_SIZE: usize = 8192;

/// Everything the interpreter knows at one moment.
#[verifier::ext_equal]
pub ghost struct MachineState {
    /// Working memory, `MEMORY_SIZE` bytes.
    pub memory: Seq<u8>,
    /// Return addresses, `STACK_SIZE` slots.
    pub stack: Seq<u16>,
    /// The registers V0 to VF.
    pub v: Seq<u8>,
    /// Address of the next instruction.
    pub pc: u16,
    /// Number of return addresses on the stack.
    pub sp: usize,
    /// The index register.
    pub i: u16,
    /// Delay timer.
    pub dt: u8,
    /// Sound timer.
    pub st: u8,
    /// One byte per pixel, row by row; the active resolution uses the first
    /// `rows() * cols()` of them.
    pub vram: Seq<u8>,
    /// Which keys are held down.
    pub keypad: Seq<bool>,
    /// Whether the display runs at the extended resolution.
    pub is_highres: bool,
    /// Whether the program has asked to stop.
    pub is_halted: bool,
    /// Whether block loads and stores leave the index register alone.
    pub load_store_quirk: bool,
    /// Whether shifts work on Vx in place and ignore Vy.
    pub shift_quirk: bool,
    /// Whether the offset jump adds the register named by the address's high
    /// nibble instead of V0.
    pub jump_quirk: bool,
    /// The persistent flag registers.
    pub flag_regs: Seq<u8>,
}

/// `a + b` on sixteen bits, wrapping at both ends.
pub open spec fn add16(a: u16, b: int) -> u16 {
    ((a + b) % 0x1_0000) as u16
}

/// `a + b` on eight bits, wrapping at both ends.
pub open spec fn add8(a: u8, b: int) -> u8 {
    ((a + b) % 0x100) as u8
}

/// `memory` with `data` laid over it from address `start` on. What would fall
/// behind the end of `memory` is dropped.
pub open spec fn write_bytes(memory: Seq<u8>, start: int, data: Seq<u8>) -> Seq<u8> {
    Seq::new(
        memory.len(),
        |a: int|
            if start <= a < start + data.len() {
                data[a - start]
            } else {
                memory[a]
            },
    )
}

/// A sequence of `len` equal items.
pub open spec fn filled<T>(len: nat, item: T) -> Seq<T> {
    Seq::new(len, |k: int| item)
}

impl MachineState {
    /// Every sequence has the length of the array it stands for.
    pub open spec fn wf(self) -> bool {
        &&& self.memory.len() == MEMORY_SIZE
        &&& self.stack.len() == STACK_SIZE
        &&& self.v.len() == REGISTER_COUNT
        &&& self.vram.len() == VRAM_SIZE
        &&& self.keypad.len() == KEY_COUNT
        &&& self.flag_regs.len() == FLAG_REGISTER_COUNT
    }

    /// The state of a machine that was just created: fonts in low memory, the
    /// program counter at the start of the program area, everything else
    /// zero, clear or off.
    pub open spec fn initial() -> MachineState {
        MachineState {
            memory: Seq::new(MEMORY_SIZE as nat, |a: int| initial_memory_byte(a)),
            stack: filled(STACK_SIZE as nat, 0u16),
            v: filled(REGISTER_COUNT as nat, 0u8),
            pc: PROGRAM_START,
            sp: 0,
            i: 0,
            dt: 0,
            st: 0,
            vram: filled(VRAM_SIZE as nat, 0u8),
            keypad: filled(KEY_COUNT as nat, false),
            is_highres: false,
            is_halted: false,
            load_store_quirk: false,
            shift_quirk: false,
            jump_quirk: false,
            flag_regs: filled(FLAG_REGISTER_COUNT as nat, 0u8),
        }
    }

    /// The state after a reset: as `initial()`, except that the quirk flags,
    /// the persistent flag registers and the reserved part of memory stay as
    /// they are.
    pub open spec fn reset(self) -> MachineState {
        MachineState {
            memory: Seq::new(
                MEMORY_SIZE as nat,
                |a: int|
                    if a < PROGRAM_START {
                        self.memory[a]
                    } else {
                        0u8
                    },
            ),
            load_store_quirk: self.load_store_quirk,
            shift_quirk: self.shift_quirk,
            jump_quirk: self.jump_quirk,
            flag_regs: self.flag_regs,
            ..Self::initial()
        }
    }

    /// The state after a program was copied to the program area. Everything
    /// but the bytes under the program stays as it is.
    pub open spec fn load_rom(self, rom: Seq<u8>) -> MachineState {
        MachineState { memory: write_bytes(self.memory, PROGRAM_START as int, rom), ..self }
    }

    /// The state after one tick of the 60 Hz clock: each timer that is not
    /// zero loses one.
    pub open spec fn step_timers(self) -> MachineState {
        MachineState {
            dt: if self.dt > 0 {
                (self.dt - 1) as u8
            } else {
                0u8
            },
            st: if self.st > 0 {
                (self.st - 1) as u8
            } else {
                0u8
            },
            ..self
        }
    }

    /// The state with every key released.
    pub open spec fn reset_keys(self) -> MachineState {
        MachineState { keypad: filled(KEY_COUNT as nat, false), ..self }
    }

    /// The state with key `index` held down or released.
    pub open spec fn set_key(self, index: int, value: bool) -> MachineState {
        MachineState { keypad: self.keypad.update(index, value), ..self }
    }

    /// Number of pixel rows at the active resolution.
    pub open spec fn rows(self) -> int {
        if self.is_highres {
            64
        } else {
            32
        }
    }

    /// Number of pixel columns at the active resolution.
    pub open spec fn cols(self) -> int {
        if self.is_highres {
            128
        } else {
            64
        }
    }

    /// The byte at `addr`. Addresses outside memory read as zero.
    pub open spec fn byte_at(self, addr: int) -> u8 {
        if 0 <= addr < self.memory.len() {
            self.memory[addr]
        } else {
            0u8
        }
    }

    /// Whether key `key` is held down. Numbers that name no key count as
    /// released.
    pub open spec fn key_pressed(self, key: int) -> bool {
        0 <= key < self.keypad.len() && self.keypad[key]
    }

    /// The instruction word at the program counter: two bytes, the high one
    /// first. A program counter that has left memory reads zeros there, and
    /// the word of two zeros names no instruction.
    pub open spec fn opcode(self) -> u16 {
        (self.byte_at(self.pc as int) * 256 + self.byte_at(self.pc + 1)) as u16
    }
}

} // verus!
