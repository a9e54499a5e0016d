//! The interpreter itself: the state of the machine in executable form, and
//! the operations that a driver calls.

use vstd::prelude::*;
use crate::font::{FONT_SPRITES, HIGH_RES_FONT_SPRITES};
use crate::state::{MachineState, MAX_ROM_SIZE, PROGRAM_START};

verus! {

/// A CHIP-8 / SuperCHIP interpreter. It owns all of its state; the fields are
/// open so that a front end can show them and a saved state can be put back.
#[derive(Debug)]
pub struct CPU {
    /// Working memory. The bytes below `PROGRAM_START` are reserved for the
    /// fonts.
    pub memory: [u8; 4096],
    /// Return addresses.
    pub stack: [u16; 16],
    /// The registers V0 to VF. VF doubles as the flag output.
    pub register: [u8; 16],
    /// Address of the next instruction.
    pub pc: u16,
    /// Number of return addresses on the stack.
    pub sp: usize,
    /// The index register.
    pub i: u16,
    /// Delay timer. Counts down to zero at 60 Hz.
    pub dt: u8,
    /// Sound timer. Counts down to zero at 60 Hz; a tone plays while it is
    /// not zero.
    pub st: u8,
    /// The display: one byte per pixel, 1 for lit and 0 for dark, row by
    /// row. The active resolution uses the first rows * columns bytes.
    pub vram: [u8; 8192],
    /// Which keys are held down.
    pub keypad: [bool; 16],
    /// Whether the display runs at the extended resolution.
    pub is_highres: bool,
    /// Whether the program has asked to stop.
    pub is_halted: bool,
    /// Whether block loads and stores leave the index register alone.
    pub load_store_quirk: bool,
    /// Whether shifts work on Vx in place and ignore Vy.
    pub shift_quirk: bool,
    /// Whether the offset jump adds the register named by the address's high
    /// nibble instead of V0.
    pub jump_quirk: bool,
    /// The persistent flag registers. They outlive a reset.
    pub flag_regs: [u8; 8],
}

impl View for CPU {
    type V = MachineState;

    open spec fn view(&self) -> MachineState {
        MachineState {
            memory: self.memory@,
            stack: self.stack@,
            v: self.register@,
            pc: self.pc,
            sp: self.sp,
            i: self.i,
            dt: self.dt,
            st: self.st,
            vram: self.vram@,
            keypad: self.keypad@,
            is_highres: self.is_highres,
            is_halted: self.is_halted,
            load_store_quirk: self.load_store_quirk,
            shift_quirk: self.shift_quirk,
            jump_quirk: self.jump_quirk,
            flag_regs: self.flag_regs@,
        }
    }
}

impl Clone for CPU {
    fn clone(&self) -> (copy: Self)
        ensures
            copy@ == self@,
    {
        Self {
            memory: self.memory,
            stack: self.stack,
            register: self.register,
            pc: self.pc,
            sp: self.sp,
            i: self.i,
            dt: self.dt,
            st: self.st,
            vram: self.vram,
            keypad: self.keypad,
            is_highres: self.is_highres,
            is_halted: self.is_halted,
            load_store_quirk: self.load_store_quirk,
            shift_quirk: self.shift_quirk,
            jump_quirk: self.jump_quirk,
            flag_regs: self.flag_regs,
        }
    }
}

impl Default for CPU {
    fn default() -> (cpu: Self)
        ensures
            cpu@ == MachineState::initial(),
    {
        Self::new()
    }
}

impl CPU {
    /// Creates an interpreter with the fonts in low memory, the program
    /// counter at the start of the program area and everything else zero.
    pub fn new() -> (cpu: Self)
        ensures
            cpu@ == MachineState::initial(),
    {
        let mut memory = [0u8; 4096];
        let mut k: usize = 0;
        while k < 80
            invariant
                k <= 80,
                forall|a: int| 0 <= a < k ==> memory@[a] == FONT_SPRITES@[a],
                forall|a: int| k <= a < 4096 ==> memory@[a] == 0,
            decreases 80 - k,
        {
            memory[k] = FONT_SPRITES[k];
            k += 1;
        }
        let mut k: usize = 0;
        while k < 160
            invariant
                k <= 160,
                forall|a: int| 0 <= a < 80 ==> memory@[a] == FONT_SPRITES@[a],
                forall|a: int| 80 <= a < 80 + k ==> memory@[a] == HIGH_RES_FONT_SPRITES@[a - 80],
                forall|a: int| 80 + k <= a < 4096 ==> memory@[a] == 0,
            decreases 160 - k,
        {
            memory[80 + k] = HIGH_RES_FONT_SPRITES[k];
            k += 1;
        }
        Self {
            memory,
            stack: [0u16; 16],
            register: [0u8; 16],
            pc: PROGRAM_START,
            sp: 0,
            i: 0,
            dt: 0,
            st: 0,
            vram: [0u8; 8192],
            keypad: [false; 16],
            is_highres: false,
            is_halted: false,
            load_store_quirk: false,
            shift_quirk: false,
            jump_quirk: false,
            flag_regs: [0u8; 8],
        }
    }

    /// Puts the interpreter back into its first state. The quirk flags, the
    /// persistent flag registers and the reserved part of memory stay as
    /// they are.
    pub fn reset(&mut self)
        ensures
            final(self)@ == old(self)@.reset(),
    {
        let mut a: usize = 0x200;
        while a < 4096
            invariant
                0x200 <= a <= 4096,
                forall|j: int| 0 <= j < 0x200 ==> self.memory@[j] == old(self).memory@[j],
                forall|j: int| 0x200 <= j < a ==> self.memory@[j] == 0,
                self.flag_regs == old(self).flag_regs,
                self.load_store_quirk == old(self).load_store_quirk,
                self.shift_quirk == old(self).shift_quirk,
                self.jump_quirk == old(self).jump_quirk,
            decreases 4096 - a,
        {
            self.memory[a] = 0;
            a += 1;
        }
        self.stack = [0u16; 16];
        self.register = [0u8; 16];
        self.pc = PROGRAM_START;
        self.sp = 0;
        self.i = 0;
        self.dt = 0;
        self.st = 0;
        self.vram = [0u8; 8192];
        self.keypad = [false; 16];
        self.is_halted = false;
        self.is_highres = false;
    }

    /// Copies a program to memory, from `PROGRAM_START` on. A program of more
    /// than `MAX_ROM_SIZE` bytes is refused, and nothing changes.
    pub fn load_rom(&mut self, buffer: &[u8]) -> (loaded: Result<(), String>)
        ensures
            loaded is Err <==> buffer@.len() > MAX_ROM_SIZE,
            loaded is Err ==> final(self)@ == old(self)@,
            loaded is Ok ==> final(self)@ == old(self)@.load_rom(buffer@),
            loaded matches Err(message) ==> message@
                == "ROM's length is larger than the permitted 3584 bytes."@,
    {
        if buffer.len() > MAX_ROM_SIZE {
            return Err("ROM's length is larger than the permitted 3584 bytes.".to_string());
        }
        let mut k: usize = 0;
        while k < buffer.len()
            invariant
                k <= buffer@.len() <= MAX_ROM_SIZE,
                forall|a: int| 0 <= a < 0x200 ==> self.memory@[a] == old(self).memory@[a],
                forall|a: int| 0x200 <= a < 0x200 + k ==> self.memory@[a] == buffer@[a - 0x200],
                forall|a: int| 0x200 + k <= a < 4096 ==> self.memory@[a] == old(self).memory@[a],
                self@ == (MachineState { memory: self.memory@, ..old(self)@ }),
            decreases buffer@.len() - k,
        {
            self.memory[0x200 + k] = buffer[k];
            k += 1;
        }
        Ok(())
    }

    /// One tick of the 60 Hz clock: each timer that is not zero loses one.
    pub fn step_timers(&mut self)
        ensures
            final(self)@ == old(self)@.step_timers(),
    {
        if self.dt > 0 {
            self.dt -= 1;
        }
        if self.st > 0 {
            self.st -= 1;
        }
    }

    /// Releases every key.
    pub fn reset_keys(&mut self)
        ensures
            final(self)@ == old(self)@.reset_keys(),
    {
        self.keypad = [false; 16];
    }

    /// Marks key `index` as held down (`true`) or released (`false`).
    pub fn set_key_at_index(&mut self, index: usize, value: bool)
        requires
            index < 16,
        ensures
            final(self)@ == old(self)@.set_key(index as int, value),
    {
        self.keypad[index] = value;
    }

    /// Sets the load/store quirk: whether block loads and stores leave the
    /// index register alone.
    pub fn set_load_store(&mut self, value: bool)
        ensures
            final(self)@ == (MachineState { load_store_quirk: value, ..old(self)@ }),
    {
        self.load_store_quirk = value;
    }

    /// Sets the shift quirk: whether shifts work on Vx in place.
    pub fn set_shift(&mut self, value: bool)
        ensures
            final(self)@ == (MachineState { shift_quirk: value, ..old(self)@ }),
    {
        self.shift_quirk = value;
    }

    /// Sets the jump quirk: whether the offset jump adds the register named
    /// by the address's high nibble.
    pub fn set_jump(&mut self, value: bool)
        ensures
            final(self)@ == (MachineState { jump_quirk: value, ..old(self)@ }),
    {
        self.jump_quirk = value;
    }

    /// The display buffer, one byte per pixel. The picture is in its first
    /// rows * columns bytes, row by row.
    pub fn get_video_buffer(&self) -> (buffer: &[u8])
        ensures
            buffer@ == self@.vram,
    {
        self.vram.as_slice()
    }

    /// Rows and columns of the active resolution, in this order.
    pub fn get_height_width(&self) -> (size: (usize, usize))
        ensures
            size.0 == self@.rows(),
            size.1 == self@.cols(),
    {
        if self.is_highres {
            (64, 128)
        } else {
            (32, 64)
        }
    }

    /// The byte at `addr`, or zero where `addr` lies outside memory.
    pub fn read_byte(&self, addr: usize) -> (byte: u8)
        ensures
            byte == self@.byte_at(addr as int),
    {
        if addr < 4096 {
            self.memory[addr]
        } else {
            0
        }
    }

    /// Stores `byte` at `addr`. A store outside memory is dropped.
    pub fn write_byte(&mut self, addr: usize, byte: u8)
        ensures
            final(self)@ == (MachineState {
                memory: if addr < 4096 {
                    old(self)@.memory.update(addr as int, byte)
                } else {
                    old(self)@.memory
                },
                ..old(self)@
            }),
    {
        if addr < 4096 {
            self.memory[addr] = byte;
        }
    }

    /// The instruction word at the program counter: two bytes, the high one
    /// first. A byte outside memory reads zero.
    pub fn fetch_opcode(&self) -> (opcode: u16)
        ensures
            opcode == self@.opcode(),
    {
        let high = self.read_byte(self.pc as usize);
        let low = self.read_byte(self.pc as usize + 1);
        high as u16 * 256 + low as u16
    }
}

} // verus!
