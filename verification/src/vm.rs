//! A bare virtual machine: registers, memory and display without timers,
//! keypad or stack operations, and the instructions that need no more.

use vstd::prelude::*;
use crate::state::{add16, add8, filled, write_bytes, MAX_ROM_SIZE};

verus! {

/// The model of a `Vm`.
#[verifier::ext_equal]
pub ghost struct VmState {
    /// The index register: the address of the sprite for the next draw.
    pub id: u16,
    /// Whether the display runs at the extended resolution.
    pub is_highres: bool,
    /// Address of the next instruction.
    pub pc: u16,
    /// The registers V0 to VF.
    pub reg: Seq<u8>,
    /// Address of the next empty stack slot.
    pub sp: u16,
    /// The display buffer, 8192 pixels.
    pub vram: Seq<u8>,
    /// Working memory, 4096 bytes.
    pub wram: Seq<u8>,
}

impl VmState {
    /// The state of a machine that was just created: everything zero.
    pub open spec fn initial() -> VmState {
        VmState {
            id: 0,
            is_highres: false,
            pc: 0,
            reg: filled(16, 0u8),
            sp: 0,
            vram: filled(8192, 0u8),
            wram: filled(4096, 0u8),
        }
    }

    /// The state with the next instruction skipped where `condition` holds.
    pub open spec fn skip_if(self, condition: bool) -> VmState {
        if condition {
            VmState { pc: add16(self.pc, 2), ..self }
        } else {
            self
        }
    }
}

/// A bare virtual machine.
#[derive(Debug)]
pub struct Vm {
    /// The index register: the address of the sprite for the next draw.
    pub id: u16,
    /// Whether the display runs at the extended resolution.
    pub is_highres: bool,
    /// Address of the next instruction.
    pub pc: u16,
    /// The registers V0 to VF. VF doubles as the flag output.
    pub reg: [u8; 16],
    /// Address of the next empty stack slot.
    pub sp: u16,
    /// The display buffer, with room for the extended resolution.
    pub vram: [u8; 8192],
    /// Working memory. The first 0x200 bytes are reserved for the
    /// interpreter.
    pub wram: [u8; 4096],
}

impl View for Vm {
    type V = VmState;

    open spec fn view(&self) -> VmState {
        VmState {
            id: self.id,
            is_highres: self.is_highres,
            pc: self.pc,
            reg: self.reg@,
            sp: self.sp,
            vram: self.vram@,
            wram: self.wram@,
        }
    }
}

impl Vm {
    /// Creates a machine with everything zero.
    pub fn new() -> (vm: Self)
        ensures
            vm@ == VmState::initial(),
    {
        Self {
            id: 0x0000,
            is_highres: false,
            pc: 0x0000,
            reg: [0x00u8; 16],
            sp: 0x0000,
            vram: [0x00u8; 8192],
            wram: [0x00u8; 4096],
        }
    }

    /// Copies a program to memory, from address 0x200 on. A program of more
    /// than `MAX_ROM_SIZE` bytes is refused, and nothing changes.
    pub fn load_rom(&mut self, rom: Vec<u8>) -> (loaded: Result<(), &'static str>)
        ensures
            loaded is Err <==> rom@.len() > MAX_ROM_SIZE,
            loaded is Err ==> final(self)@ == old(self)@,
            loaded is Ok ==> final(self)@ == (VmState {
                wram: write_bytes(old(self)@.wram, 0x200, rom@),
                ..old(self)@
            }),
            loaded matches Err(message) ==> message@
                == "ROM length is greater than the permissible 3584 bytes"@,
    {
        if rom.len() <= MAX_ROM_SIZE {
            let mut k: usize = 0;
            while k < rom.len()
                invariant
                    k <= rom@.len() <= MAX_ROM_SIZE,
                    forall|a: int| 0 <= a < 0x200 ==> self.wram@[a] == old(self).wram@[a],
                    forall|a: int| 0x200 <= a < 0x200 + k ==> self.wram@[a] == rom@[a - 0x200],
                    forall|a: int| 0x200 + k <= a < 4096 ==> self.wram@[a] == old(self).wram@[a],
                    self@ == (VmState { wram: self.wram@, ..old(self)@ }),
                decreases rom@.len() - k,
            {
                self.wram[0x200 + k] = rom[k];
                k += 1;
            }
            Ok(())
        } else {
            Err("ROM length is greater than the permissible 3584 bytes")
        }
    }

    /// Width and height of the display at the active resolution, in this
    /// order.
    pub fn get_display_size(&self) -> (size: (u32, u32))
        ensures
            size == (if self.is_highres {
                (128u32, 64u32)
            } else {
                (64u32, 32u32)
            }),
    {
        if self.is_highres {
            (128, 64)
        } else {
            (64, 32)
        }
    }

    /// `00E0`: clears the screen.
    pub fn op_00e0(&mut self)
        ensures
            final(self)@ == (VmState { vram: filled(8192, 0u8), ..old(self)@ }),
    {
        self.vram = [0x00u8; 8192];
    }

    /// `1NNN`: jumps to address `nnn`.
    pub fn op_1nnn(&mut self, nnn: u16)
        ensures
            final(self)@ == (VmState { pc: nnn, ..old(self)@ }),
    {
        self.pc = nnn;
    }

    /// `3XNN`: skips the following instruction if VX equals `nn`.
    pub fn op_3xnn(&mut self, x: u8, nn: u8)
        requires
            x < 16,
        ensures
            final(self)@ == old(self)@.skip_if(old(self)@.reg[x as int] == nn),
    {
        if self.reg[x as usize] == nn {
            self.pc = self.pc.wrapping_add(2);
        }
    }

    /// `4XNN`: skips the following instruction if VX does not equal `nn`.
    pub fn op_4xnn(&mut self, x: u8, nn: u8)
        requires
            x < 16,
        ensures
            final(self)@ == old(self)@.skip_if(old(self)@.reg[x as int] != nn),
    {
        if self.reg[x as usize] != nn {
            self.pc = self.pc.wrapping_add(2);
        }
    }

    /// `5XY0`: skips the following instruction if VX equals VY.
    pub fn op_5xy0(&mut self, x: u8, y: u8)
        requires
            x < 16,
            y < 16,
        ensures
            final(self)@ == old(self)@.skip_if(old(self)@.reg[x as int] == old(self)@.reg[y as int]),
    {
        if self.reg[x as usize] == self.reg[y as usize] {
            self.pc = self.pc.wrapping_add(2);
        }
    }

    /// `6XNN`: stores `nn` in VX.
    pub fn op_6xnn(&mut self, x: u8, nn: u8)
        requires
            x < 16,
        ensures
            final(self)@ == (VmState { reg: old(self)@.reg.update(x as int, nn), ..old(self)@ }),
    {
        self.reg[x as usize] = nn;
    }

    /// `7XNN`: adds `nn` to VX, wrapping at eight bits.
    pub fn op_7xnn(&mut self, x: u8, nn: u8)
        requires
            x < 16,
        ensures
            final(self)@ == (VmState {
                reg: old(self)@.reg.update(x as int, add8(old(self)@.reg[x as int], nn as int)),
                ..old(self)@
            }),
    {
        self.reg[x as usize] = self.reg[x as usize].wrapping_add(nn);
    }

    /// `ANNN`: stores the address `nnn` in the index register.
    pub fn op_annn(&mut self, nnn: u16)
        ensures
            final(self)@ == (VmState { id: nnn, ..old(self)@ }),
    {
        self.id = nnn;
    }
}

} // verus!
