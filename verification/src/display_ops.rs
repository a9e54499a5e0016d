//! The instructions that work on the display.

use vstd::prelude::*;
use crate::cpu::CPU;
use crate::display::{
    lemma_collides_all,
    lemma_collides_row_end,
    lemma_collides_step,
    lemma_flip_all,
    lemma_flip_row_end,
    lemma_flip_step,
    lemma_pixel_count,
    lemma_row_col,
    lemma_sprite_bit_target,
    sprite_height,
    sprite_width,
    toggled,
};
use crate::state::MachineState;

verus! {

impl CPU {
    /// Number of pixels that the active resolution shows.
    pub fn pixel_count(&self) -> (count: usize)
        ensures
            count == self@.pixel_count(),
            count == 2048 || count == 8192,
    {
        if self.is_highres {
            8192
        } else {
            2048
        }
    }

    /// `00E0`, `CLS`: clears the display.
    pub fn op_00e0(&mut self)
        ensures
            final(self)@ == old(self)@.cls(),
    {
        self.vram = [0u8; 8192];
    }

    /// `00FE`, `LOW`: switches to the standard resolution and clears the
    /// display.
    pub fn op_00fe(&mut self)
        ensures
            final(self)@ == old(self)@.set_resolution(false),
    {
        self.is_highres = false;
        self.op_00e0();
    }

    /// `00FF`, `HIGH`: switches to the extended resolution and clears the
    /// display.
    pub fn op_00ff(&mut self)
        ensures
            final(self)@ == old(self)@.set_resolution(true),
    {
        self.is_highres = true;
        self.op_00e0();
    }

    /// `00Cn`, `SCD nibble`: scrolls the picture `n` rows down. The rows that
    /// it leaves at the top go dark.
    pub fn op_00cn(&mut self, n: u8)
        requires
            n < 16,
        ensures
            final(self)@ == old(self)@.scroll_down(n as int),
    {
        let (_, cols) = self.get_height_width();
        let count = self.pixel_count();
        let shift: usize = n as usize * cols;
        let mut k: usize = count;
        while k > 0
            invariant
                k <= count <= 8192,
                shift == n * old(self)@.cols(),
                count == old(self)@.pixel_count(),
                self@ == (MachineState { vram: self@.vram, ..old(self)@ }),
                forall|j: int| 0 <= j < k ==> self@.vram[j] == old(self)@.vram[j],
                forall|j: int| count <= j < 8192 ==> self@.vram[j] == old(self)@.vram[j],
                forall|j: int|
                    k <= j < count ==> self@.vram[j] == (if j >= shift {
                        old(self)@.vram[j - shift]
                    } else {
                        0u8
                    }),
            decreases k,
        {
            k -= 1;
            self.vram[k] = if k >= shift {
                self.vram[k - shift]
            } else {
                0
            };
        }
    }

    /// `00FB`, `SCR`: scrolls the picture four columns to the right. The
    /// columns that it leaves at the left go dark.
    pub fn op_00fb(&mut self)
        ensures
            final(self)@ == old(self)@.scroll_right(),
    {
        let (_, cols) = self.get_height_width();
        let count = self.pixel_count();
        let mut k: usize = count;
        while k > 0
            invariant
                k <= count <= 8192,
                cols == old(self)@.cols(),
                count == old(self)@.pixel_count(),
                self@ == (MachineState { vram: self@.vram, ..old(self)@ }),
                forall|j: int| 0 <= j < k ==> self@.vram[j] == old(self)@.vram[j],
                forall|j: int| count <= j < 8192 ==> self@.vram[j] == old(self)@.vram[j],
                forall|j: int|
                    k <= j < count ==> self@.vram[j] == (if j % (cols as int) >= 4 {
                        old(self)@.vram[j - 4]
                    } else {
                        0u8
                    }),
            decreases k,
        {
            k -= 1;
            proof {
                lemma_row_col(0, 0, cols as int, k as int);
            }
            self.vram[k] = if k % cols >= 4 {
                self.vram[k - 4]
            } else {
                0
            };
        }
    }

    /// `00FC`, `SCL`: scrolls the picture four columns to the left. The
    /// columns that it leaves at the right go dark.
    pub fn op_00fc(&mut self)
        ensures
            final(self)@ == old(self)@.scroll_left(),
    {
        let (_, cols) = self.get_height_width();
        let count = self.pixel_count();
        let mut k: usize = 0;
        while k < count
            invariant
                k <= count <= 8192,
                cols == old(self)@.cols(),
                count == old(self)@.pixel_count(),
                self@ == (MachineState { vram: self@.vram, ..old(self)@ }),
                forall|j: int| k <= j < 8192 ==> self@.vram[j] == old(self)@.vram[j],
                forall|j: int|
                    0 <= j < k ==> self@.vram[j] == (if j % (cols as int) < cols - 4 {
                        old(self)@.vram[j + 4]
                    } else {
                        0u8
                    }),
            decreases count - k,
        {
            proof {
                lemma_row_col(0, 0, cols as int, k as int);
                lemma_pixel_count(old(self)@);
                if cols == 64 {
                    assert(k / 64 < 32);
                } else {
                    assert(k / 128 < 64);
                }
            }
            self.vram[k] = if k % cols < cols - 4 {
                self.vram[k + 4]
            } else {
                0
            };
            k += 1;
        }
    }

    /// Whether the sprite at the index register has its bit in row `r`,
    /// column `c` set.
    pub fn sprite_bit(&self, n: usize, r: usize, c: usize) -> (bit: bool)
        requires
            n < 16,
            r < sprite_height(n as int),
            c < sprite_width(n as int),
        ensures
            bit == self@.sprite_bit(n as int, r as int, c as int),
    {
        let base = self.i as usize;
        if n == 0 {
            let byte = self.read_byte(base + 2 * r + c / 8);
            byte & (0x80u8 >> (c % 8)) != 0
        } else {
            let byte = self.read_byte(base + r);
            byte & (0x80u8 >> c) != 0
        }
    }

    /// `Dxyn`, `DRW Vx, Vy, nibble`: draws the sprite at the index register
    /// with its top left corner at column Vx, row Vy. The sprite is 8 pixels
    /// wide and `n` rows high, or 16 by 16 where `n` is zero. Set bits flip
    /// the pixels under them, each pixel wrapping around the display on its
    /// own. VF becomes 1 if a lit pixel went dark and 0 if none did.
    pub fn op_dxyn(&mut self, vx: usize, vy: usize, n: usize)
        requires
            vx < 16,
            vy < 16,
            n < 16,
        ensures
            final(self)@ == old(self)@.draw(vx as int, vy as int, n as int),
    {
        let (rows, cols) = self.get_height_width();
        let left = self.register[vx] as usize;
        let top = self.register[vy] as usize;
        let width: usize = if n == 0 {
            16
        } else {
            8
        };
        let height: usize = if n == 0 {
            16
        } else {
            n
        };
        let ghost start = self@;
        self.register[0xF] = 0;
        let mut r: usize = 0;
        while r < height
            invariant
                r <= height,
                n < 16,
                width == sprite_width(n as int),
                height == sprite_height(n as int),
                rows == start.rows(),
                cols == start.cols(),
                left == start.v[vx as int],
                top == start.v[vy as int],
                left < 256,
                top < 256,
                start == old(self)@,
                self@ == (MachineState { vram: self@.vram, v: self@.v, ..start }),
                self@.v == start.v.update(
                    15,
                    if start.collides_before(left as int, top as int, n as int, r as int, 0) {
                        1u8
                    } else {
                        0u8
                    },
                ),
                forall|k: int|
                    0 <= k < 8192 ==> self@.vram[k] == (if start.flipped_before(
                        left as int,
                        top as int,
                        n as int,
                        r as int,
                        0,
                        k,
                    ) {
                        toggled(start.vram[k])
                    } else {
                        start.vram[k]
                    }),
            decreases height - r,
        {
            let mut c: usize = 0;
            while c < width
                invariant
                    c <= width,
                    r < height,
                    n < 16,
                    width == sprite_width(n as int),
                    height == sprite_height(n as int),
                    rows == start.rows(),
                    cols == start.cols(),
                    left == start.v[vx as int],
                    top == start.v[vy as int],
                    left < 256,
                    top < 256,
                    start == old(self)@,
                    self@ == (MachineState { vram: self@.vram, v: self@.v, ..start }),
                    self@.v == start.v.update(
                        15,
                        if start.collides_before(left as int, top as int, n as int, r as int, c as int) {
                            1u8
                        } else {
                            0u8
                        },
                    ),
                    forall|k: int|
                        0 <= k < 8192 ==> self@.vram[k] == (if start.flipped_before(
                            left as int,
                            top as int,
                            n as int,
                            r as int,
                            c as int,
                            k,
                        ) {
                            toggled(start.vram[k])
                        } else {
                            start.vram[k]
                        }),
                decreases width - c,
            {
                let bit = self.sprite_bit(n, r, c);
                let index = ((left + c) % cols) + ((top + r) % rows) * cols;
                proof {
                    lemma_sprite_bit_target(start, left as int, top as int, n as int, r as int, c as int);
                    lemma_pixel_count(start);
                    lemma_collides_step(start, left as int, top as int, n as int, r as int, c as int);
                    assert forall|k: int|
                        start.flipped_before(left as int, top as int, n as int, r as int, c + 1, k) <==> (
                        start.flipped_before(left as int, top as int, n as int, r as int, c as int, k) || (k
                            == index && bit)) by {
                        lemma_flip_step(start, left as int, top as int, n as int, r as int, c as int, k);
                    }
                }
                if bit {
                    if self.vram[index] == 1 {
                        self.register[0xF] = 1;
                    }
                    self.vram[index] = self.vram[index] ^ 1;
                }
                c += 1;
            }
            proof {
                lemma_collides_row_end(start, left as int, top as int, n as int, r as int);
                assert forall|k: int|
                    start.flipped_before(left as int, top as int, n as int, r as int, width as int, k)
                        <==> start.flipped_before(left as int, top as int, n as int, r + 1, 0, k) by {
                    lemma_flip_row_end(start, left as int, top as int, n as int, r as int, k);
                }
            }
            r += 1;
        }
        proof {
            lemma_collides_all(start, left as int, top as int, n as int);
            assert forall|k: int|
                start.flipped_before(left as int, top as int, n as int, height as int, 0, k)
                    <==> start.sprite_covers(left as int, top as int, n as int, k) by {
                lemma_flip_all(start, left as int, top as int, n as int, k);
            }
        }
    }
}

} // verus!
