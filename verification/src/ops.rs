//! The instructions that work on registers, memory, the stack, the keypad
//! and the timers. Each takes the machine with the program counter already
//! behind the instruction.

use vstd::prelude::*;
use crate::cpu::CPU;
use crate::state::MachineState;

verus! {

/// Draws one byte from the thread's random number generator, through
/// `rand::random`. Nothing is promised of the byte: the contract is empty.
/// The generator is seeded from the operating system when a thread first
/// uses it, and gives up with a panic where the system has no seed for it.
#[verifier::external_body]
fn random_byte() -> (byte: u8) {
    rand::random::<u8>()
}

impl CPU {
    /// Moves the program counter over one instruction where `condition`
    /// holds.
    fn skip_if(&mut self, condition: bool)
        ensures
            final(self)@ == old(self)@.skip_if(condition),
    {
        if condition {
            self.pc = self.pc.wrapping_add(2);
        }
    }

    /// `00EE`, `RET`: returns from a subroutine. With an empty stack the
    /// instruction does nothing.
    pub fn op_00ee(&mut self)
        ensures
            final(self)@ == old(self)@.ret(),
    {
        if 0 < self.sp && self.sp <= 16 {
            self.sp -= 1;
            self.pc = self.stack[self.sp];
        }
    }

    /// `1nnn`, `JP addr`: jumps to `nnn`.
    pub fn op_1nnn(&mut self, nnn: u16)
        ensures
            final(self)@ == old(self)@.jump(nnn),
    {
        self.pc = nnn;
    }

    /// `2nnn`, `CALL addr`: calls the subroutine at `nnn`. On a full stack
    /// the instruction does nothing.
    pub fn op_2nnn(&mut self, nnn: u16)
        ensures
            final(self)@ == old(self)@.call(nnn),
    {
        if self.sp < 16 {
            self.stack[self.sp] = self.pc;
            self.sp += 1;
            self.pc = nnn;
        }
    }

    /// `3xkk`, `SE Vx, byte`: skips the next instruction if Vx equals `kk`.
    pub fn op_3xkk(&mut self, x: usize, kk: u8)
        requires
            x < 16,
        ensures
            final(self)@ == old(self)@.skip_if(old(self)@.v[x as int] == kk),
    {
        self.skip_if(self.register[x] == kk);
    }

    /// `4xkk`, `SNE Vx, byte`: skips the next instruction if Vx differs from
    /// `kk`.
    pub fn op_4xkk(&mut self, x: usize, kk: u8)
        requires
            x < 16,
        ensures
            final(self)@ == old(self)@.skip_if(old(self)@.v[x as int] != kk),
    {
        self.skip_if(self.register[x] != kk);
    }

    /// `5xy0`, `SE Vx, Vy`: skips the next instruction if Vx equals Vy.
    pub fn op_5xy0(&mut self, x: usize, y: usize)
        requires
            x < 16,
            y < 16,
        ensures
            final(self)@ == old(self)@.skip_if(old(self)@.v[x as int] == old(self)@.v[y as int]),
    {
        self.skip_if(self.register[x] == self.register[y]);
    }

    /// `6xkk`, `LD Vx, byte`: sets Vx to `kk`.
    pub fn op_6xkk(&mut self, x: usize, kk: u8)
        requires
            x < 16,
        ensures
            final(self)@ == old(self)@.load_byte(x as int, kk),
    {
        self.register[x] = kk;
    }

    /// `7xkk`, `ADD Vx, byte`: adds `kk` to Vx, wrapping at eight bits. VF
    /// stays as it is.
    pub fn op_7xkk(&mut self, x: usize, kk: u8)
        requires
            x < 16,
        ensures
            final(self)@ == old(self)@.add_byte(x as int, kk),
    {
        self.register[x] = self.register[x].wrapping_add(kk);
    }

    /// `8xy0`, `LD Vx, Vy`: copies Vy to Vx.
    pub fn op_8xy0(&mut self, x: usize, y: usize)
        requires
            x < 16,
            y < 16,
        ensures
            final(self)@ == old(self)@.move_reg(x as int, y as int),
    {
        self.register[x] = self.register[y];
    }

    /// `8xy1`, `OR Vx, Vy`.
    pub fn op_8xy1(&mut self, x: usize, y: usize)
        requires
            x < 16,
            y < 16,
        ensures
            final(self)@ == old(self)@.or_reg(x as int, y as int),
    {
        self.register[x] = self.register[x] | self.register[y];
    }

    /// `8xy2`, `AND Vx, Vy`.
    pub fn op_8xy2(&mut self, x: usize, y: usize)
        requires
            x < 16,
            y < 16,
        ensures
            final(self)@ == old(self)@.and_reg(x as int, y as int),
    {
        self.register[x] = self.register[x] & self.register[y];
    }

    /// `8xy3`, `XOR Vx, Vy`.
    pub fn op_8xy3(&mut self, x: usize, y: usize)
        requires
            x < 16,
            y < 16,
        ensures
            final(self)@ == old(self)@.xor_reg(x as int, y as int),
    {
        self.register[x] = self.register[x] ^ self.register[y];
    }

    /// `8xy4`, `ADD Vx, Vy`: adds Vy to Vx and sets VF to the carry.
    pub fn op_8xy4(&mut self, x: usize, y: usize)
        requires
            x < 16,
            y < 16,
        ensures
            final(self)@ == old(self)@.add_reg(x as int, y as int),
    {
        let sum: u16 = self.register[x] as u16 + self.register[y] as u16;
        self.register[x] = (sum % 256) as u8;
        self.register[0xF] = if sum > 255 {
            1
        } else {
            0
        };
    }

    /// `8xy5`, `SUB Vx, Vy`: subtracts Vy from Vx and sets VF to 1 if nothing
    /// was borrowed.
    pub fn op_8xy5(&mut self, x: usize, y: usize)
        requires
            x < 16,
            y < 16,
        ensures
            final(self)@ == old(self)@.sub_reg(x as int, y as int),
    {
        let minuend = self.register[x];
        let subtrahend = self.register[y];
        self.register[x] = minuend.wrapping_sub(subtrahend);
        self.register[0xF] = if minuend >= subtrahend {
            1
        } else {
            0
        };
    }

    /// `8xy6`, `SHR Vx {, Vy}`: shifts right by one. VF takes the bit that
    /// leaves. The shift reads Vy, or under the shift quirk Vx.
    pub fn op_8xy6(&mut self, x: usize, y: usize)
        requires
            x < 16,
            y < 16,
        ensures
            final(self)@ == old(self)@.shift_right(x as int, y as int),
    {
        let source = if self.shift_quirk {
            x
        } else {
            y
        };
        self.register[0xF] = self.register[source] % 2;
        self.register[x] = self.register[source] / 2;
    }

    /// `8xy7`, `SUBN Vx, Vy`: sets Vx to Vy minus Vx and VF to 1 if nothing
    /// was borrowed.
    pub fn op_8xy7(&mut self, x: usize, y: usize)
        requires
            x < 16,
            y < 16,
        ensures
            final(self)@ == old(self)@.sub_reverse(x as int, y as int),
    {
        let minuend = self.register[y];
        let subtrahend = self.register[x];
        self.register[x] = minuend.wrapping_sub(subtrahend);
        self.register[0xF] = if minuend >= subtrahend {
            1
        } else {
            0
        };
    }

    /// `8xyE`, `SHL Vx {, Vy}`: shifts left by one. VF takes the bit that
    /// leaves. The shift reads Vy, or under the shift quirk Vx.
    pub fn op_8xye(&mut self, x: usize, y: usize)
        requires
            x < 16,
            y < 16,
        ensures
            final(self)@ == old(self)@.shift_left(x as int, y as int),
    {
        let source = if self.shift_quirk {
            x
        } else {
            y
        };
        self.register[0xF] = self.register[source] / 128;
        let value = self.register[source];
        self.register[x] = value.wrapping_add(value);
    }

    /// `9xy0`, `SNE Vx, Vy`: skips the next instruction if Vx differs from
    /// Vy.
    pub fn op_9xy0(&mut self, x: usize, y: usize)
        requires
            x < 16,
            y < 16,
        ensures
            final(self)@ == old(self)@.skip_if(old(self)@.v[x as int] != old(self)@.v[y as int]),
    {
        self.skip_if(self.register[x] != self.register[y]);
    }

    /// `Annn`, `LD I, addr`: sets the index register to `nnn`.
    pub fn op_annn(&mut self, nnn: u16)
        ensures
            final(self)@ == old(self)@.load_index(nnn),
    {
        self.i = nnn;
    }

    /// `Bnnn`, `JP V0, addr`: jumps to `nnn` plus V0, or under the jump quirk
    /// to `nnn` plus the register named by the highest nibble of `nnn`.
    pub fn op_bnnn(&mut self, nnn: u16)
        ensures
            final(self)@ == old(self)@.jump_offset(nnn),
    {
        let index: usize = if self.jump_quirk {
            ((nnn / 0x100) % 16) as usize
        } else {
            0
        };
        self.pc = nnn.wrapping_add(self.register[index] as u16);
    }

    /// `Cxkk`, `RND Vx, byte`: sets Vx to a random byte masked with `kk`.
    /// Which byte the generator gives is not known beforehand;
    /// `op_cxkk_with` says what happens for each.
    pub fn op_cxkk(&mut self, x: usize, kk: u8)
        requires
            x < 16,
        ensures
            exists|random: u8| final(self)@ == old(self)@.random(x as int, kk, random),
    {
        let random = random_byte();
        self.op_cxkk_with(x, kk, random);
    }

    /// `Cxkk` for a given random byte: sets Vx to `random` masked with `kk`.
    pub fn op_cxkk_with(&mut self, x: usize, kk: u8, random: u8)
        requires
            x < 16,
        ensures
            final(self)@ == old(self)@.random(x as int, kk, random),
    {
        self.register[x] = random & kk;
    }

    /// Whether key `key` is held down. Numbers that name no key count as
    /// released.
    pub fn is_key_pressed(&self, key: usize) -> (pressed: bool)
        ensures
            pressed == self@.key_pressed(key as int),
    {
        key < 16 && self.keypad[key]
    }

    /// `Ex9E`, `SKP Vx`: skips the next instruction if the key named by Vx is
    /// held down.
    pub fn op_ex9e(&mut self, x: usize)
        requires
            x < 16,
        ensures
            final(self)@ == old(self)@.skip_if(old(self)@.key_pressed(old(self)@.v[x as int] as int)),
    {
        let pressed = self.is_key_pressed(self.register[x] as usize);
        self.skip_if(pressed);
    }

    /// `ExA1`, `SKNP Vx`: skips the next instruction if the key named by Vx
    /// is not held down.
    pub fn op_exa1(&mut self, x: usize)
        requires
            x < 16,
        ensures
            final(self)@ == old(self)@.skip_if(!old(self)@.key_pressed(old(self)@.v[x as int] as int)),
    {
        let pressed = self.is_key_pressed(self.register[x] as usize);
        self.skip_if(!pressed);
    }

    /// `Fx07`, `LD Vx, DT`: copies the delay timer to Vx.
    pub fn op_fx07(&mut self, x: usize)
        requires
            x < 16,
        ensures
            final(self)@ == old(self)@.read_delay(x as int),
    {
        self.register[x] = self.dt;
    }

    /// `Fx0A`, `LD Vx, K`: waits for a key. With a key down, Vx takes the
    /// number of the lowest such key; with none down the program counter
    /// steps back, so that the next cycle runs this instruction again.
    pub fn op_fx0a(&mut self, x: usize)
        requires
            x < 16,
        ensures
            final(self)@ == old(self)@.wait_key(x as int),
    {
        let mut key: usize = 0;
        while key < 16
            invariant
                key <= 16,
                x < 16,
                *self == *old(self),
                forall|j: int| 0 <= j < key ==> !self.keypad@[j],
            decreases 16 - key,
        {
            if self.keypad[key] {
                proof {
                    let chosen = self@.first_key();
                    assert(self@.keypad[key as int]);
                    assert(chosen == key);
                }
                self.register[x] = key as u8;
                return ;
            }
            key += 1;
        }
        self.pc = self.pc.wrapping_sub(2);
    }

    /// `Fx15`, `LD DT, Vx`: sets the delay timer to Vx.
    pub fn op_fx15(&mut self, x: usize)
        requires
            x < 16,
        ensures
            final(self)@ == old(self)@.set_delay(x as int),
    {
        self.dt = self.register[x];
    }

    /// `Fx18`, `LD ST, Vx`: sets the sound timer to Vx.
    pub fn op_fx18(&mut self, x: usize)
        requires
            x < 16,
        ensures
            final(self)@ == old(self)@.set_sound(x as int),
    {
        self.st = self.register[x];
    }

    /// `Fx1E`, `ADD I, Vx`: adds Vx to the index register, wrapping at
    /// sixteen bits.
    pub fn op_fx1e(&mut self, x: usize)
        requires
            x < 16,
        ensures
            final(self)@ == old(self)@.add_index(x as int),
    {
        self.i = self.i.wrapping_add(self.register[x] as u16);
    }

    /// `Fx29`, `LD F, Vx`: points the index register at the small glyph for
    /// Vx.
    pub fn op_fx29(&mut self, x: usize)
        requires
            x < 16,
        ensures
            final(self)@ == old(self)@.font_address(x as int),
    {
        self.i = self.register[x] as u16 * 5;
    }

    /// `Fx30`, `LD HF, Vx`: points the index register at the large glyph for
    /// Vx.
    pub fn op_fx30(&mut self, x: usize)
        requires
            x < 16,
        ensures
            final(self)@ == old(self)@.big_font_address(x as int),
    {
        self.i = self.register[x] as u16 * 10 + 80;
    }

    /// `Fx33`, `LD B, Vx`: stores the hundreds, tens and units of Vx at the
    /// index register and the two addresses behind it. A digit whose address
    /// lies outside memory is dropped.
    pub fn op_fx33(&mut self, x: usize)
        requires
            x < 16,
        ensures
            final(self)@ == old(self)@.store_bcd(x as int),
    {
        let value = self.register[x];
        let base = self.i as usize;
        self.write_byte(base, value / 100);
        self.write_byte(base + 1, (value % 100) / 10);
        self.write_byte(base + 2, value % 10);
    }

    /// Moves the index register behind a block of V0 to Vx, unless the
    /// load/store quirk keeps it in place.
    fn advance_index(&mut self, x: usize)
        requires
            x < 16,
        ensures
            final(self)@ == (MachineState { i: old(self)@.index_after_block(x as int), ..old(self)@ }),
    {
        if !self.load_store_quirk {
            self.i = self.i.wrapping_add(x as u16 + 1);
        }
    }

    /// `Fx55`, `LD [I], Vx`: stores V0 to Vx in memory, from the index
    /// register on. A register whose address lies outside memory is dropped.
    /// The index register then moves behind the block, unless the load/store
    /// quirk is set.
    pub fn op_fx55(&mut self, x: usize)
        requires
            x < 16,
        ensures
            final(self)@ == old(self)@.store_registers(x as int),
    {
        let base = self.i as usize;
        let mut k: usize = 0;
        while k <= x
            invariant
                k <= x + 1,
                x < 16,
                base == old(self).i,
                self@ == (MachineState {
                    memory: crate::state::write_bytes(
                        old(self)@.memory,
                        base as int,
                        old(self)@.v.subrange(0, k as int),
                    ),
                    ..old(self)@
                }),
            decreases x + 1 - k,
        {
            self.write_byte(base + k, self.register[k]);
            k += 1;
        }
        self.advance_index(x);
    }

    /// `Fx65`, `LD Vx, [I]`: loads V0 to Vx from memory, from the index
    /// register on. A register whose address lies outside memory reads zero.
    /// The index register then moves behind the block, unless the load/store
    /// quirk is set.
    pub fn op_fx65(&mut self, x: usize)
        requires
            x < 16,
        ensures
            final(self)@ == old(self)@.load_registers(x as int),
    {
        let base = self.i as usize;
        let mut k: usize = 0;
        while k <= x
            invariant
                k <= x + 1,
                x < 16,
                base == old(self).i,
                self@ == (MachineState { v: self@.v, ..old(self)@ }),
                forall|j: int| 0 <= j < k ==> self@.v[j] == old(self)@.byte_at(base + j),
                forall|j: int| k <= j < 16 ==> self@.v[j] == old(self)@.v[j],
            decreases x + 1 - k,
        {
            self.register[k] = self.read_byte(base + k);
            k += 1;
        }
        self.advance_index(x);
    }

    /// `Fx75`, `LD R, Vx`: saves V0 to Vx in the persistent flag registers.
    /// There are eight of them, so `x` is at most 7.
    pub fn op_fx75(&mut self, x: usize)
        requires
            x < 8,
        ensures
            final(self)@ == old(self)@.store_flags(x as int),
    {
        let mut k: usize = 0;
        while k <= x
            invariant
                k <= x + 1,
                x < 8,
                self@ == (MachineState { flag_regs: self@.flag_regs, ..old(self)@ }),
                forall|j: int| 0 <= j < k ==> self@.flag_regs[j] == old(self)@.v[j],
                forall|j: int| k <= j < 8 ==> self@.flag_regs[j] == old(self)@.flag_regs[j],
            decreases x + 1 - k,
        {
            self.flag_regs[k] = self.register[k];
            k += 1;
        }
    }

    /// `Fx85`, `LD Vx, R`: loads V0 to Vx from the persistent flag
    /// registers. There are eight of them, so `x` is at most 7.
    pub fn op_fx85(&mut self, x: usize)
        requires
            x < 8,
        ensures
            final(self)@ == old(self)@.load_flags(x as int),
    {
        let mut k: usize = 0;
        while k <= x
            invariant
                k <= x + 1,
                x < 8,
                self@ == (MachineState { v: self@.v, ..old(self)@ }),
                forall|j: int| 0 <= j < k ==> self@.v[j] == old(self)@.flag_regs[j],
                forall|j: int| k <= j < 16 ==> self@.v[j] == old(self)@.v[j],
            decreases x + 1 - k,
        {
            self.register[k] = self.flag_regs[k];
            k += 1;
        }
    }

    /// `00FD`, `EXIT`: stops the interpreter. Every later cycle does nothing,
    /// until a reset.
    pub fn op_00fd(&mut self)
        ensures
            final(self)@ == old(self)@.exit(),
    {
        self.is_halted = true;
    }
}

} // verus!
