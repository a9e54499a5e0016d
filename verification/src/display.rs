//! The display model: a bitmap of one byte per pixel, row by row, onto which
//! sprites are combined by exclusive or and which can be scrolled.

use vstd::prelude::*;
use vstd::arithmetic::div_mod::{
    lemma_fundamental_div_mod,
    lemma_fundamental_div_mod_converse,
    lemma_mod_bound,
};
use crate::state::{filled, MachineState, VRAM_SIZE};

verus! {

/// Columns by which the horizontal scrolls move the picture.
pub const SCROLL_STEP: usize = 4;

/// Pixel columns of a sprite whose height nibble is `n`: the large sprite,
/// named by zero, is 16 wide, every other one 8.
pub open spec fn sprite_width(n: int) -> int {
    if n == 0 {
        16
    } else {
        8
    }
}

/// Pixel rows of a sprite whose height nibble is `n`: the large sprite,
/// named by zero, has 16, every other one `n`.
pub open spec fn sprite_height(n: int) -> int {
    if n == 0 {
        16
    } else {
        n
    }
}

/// A pixel with a set sprite bit combined onto it.
pub open spec fn toggled(pixel: u8) -> u8 {
    pixel ^ 1
}

impl MachineState {
    /// Number of pixels that the active resolution shows.
    pub open spec fn pixel_count(self) -> int {
        self.rows() * self.cols()
    }

    /// Whether the sprite at the index register has its bit in row `r`,
    /// column `c` set. The rows of an 8-wide sprite take one byte each, those
    /// of the large sprite two; the highest bit is the leftmost pixel. Bytes
    /// outside memory read as zero.
    pub open spec fn sprite_bit(self, n: int, r: int, c: int) -> bool {
        if n == 0 {
            self.byte_at(self.i + 2 * r + c / 8) & (0x80u8 >> ((c % 8) as usize)) != 0
        } else {
            self.byte_at(self.i + r) & (0x80u8 >> (c as usize)) != 0
        }
    }

    /// The sprite row that lands on display row `row` when the sprite is
    /// drawn with its top at `top`: rows wrap around the display.
    pub open spec fn sprite_row_at(self, top: int, row: int) -> int {
        (row - top) % self.rows()
    }

    /// The sprite column that lands on display column `col` when the sprite
    /// is drawn with its left edge at `left`: columns wrap around the
    /// display.
    pub open spec fn sprite_col_at(self, left: int, col: int) -> int {
        (col - left) % self.cols()
    }

    /// Whether drawing the sprite of height nibble `n` at (`left`, `top`)
    /// flips pixel `k` of the buffer.
    pub open spec fn sprite_covers(self, left: int, top: int, n: int, k: int) -> bool {
        let r = self.sprite_row_at(top, k / self.cols());
        let c = self.sprite_col_at(left, k % self.cols());
        &&& 0 <= k < self.pixel_count()
        &&& r < sprite_height(n)
        &&& c < sprite_width(n)
        &&& self.sprite_bit(n, r, c)
    }

    /// Whether drawing the sprite of height nibble `n` at (`left`, `top`)
    /// turns a lit pixel off.
    pub open spec fn sprite_collides(self, left: int, top: int, n: int) -> bool {
        exists|k: int| #[trigger] self.sprite_covers(left, top, n, k) && self.vram[k] == 1
    }

    /// `CLS`: every pixel of the buffer goes dark.
    pub open spec fn cls(self) -> MachineState {
        MachineState { vram: filled(VRAM_SIZE as nat, 0u8), ..self }
    }

    /// `DRW Vx, Vy, n`: the sprite at the index register is combined onto the
    /// display by exclusive or, its top left corner at column Vx and row Vy,
    /// each pixel wrapping around the display on its own. VF becomes 1 if a
    /// lit pixel went dark and 0 if none did. Vx and Vy are read before VF
    /// is written.
    pub open spec fn draw(self, x: int, y: int, n: int) -> MachineState {
        let left = self.v[x] as int;
        let top = self.v[y] as int;
        MachineState {
            vram: Seq::new(
                self.vram.len(),
                |k: int|
                    if self.sprite_covers(left, top, n, k) {
                        toggled(self.vram[k])
                    } else {
                        self.vram[k]
                    },
            ),
            v: self.v.update(
                15,
                if self.sprite_collides(left, top, n) {
                    1u8
                } else {
                    0u8
                },
            ),
            ..self
        }
    }

    /// `SCD n`: the picture moves `n` rows down. The rows that it leaves at
    /// the top go dark; what lies behind the active resolution stays.
    pub open spec fn scroll_down(self, n: int) -> MachineState {
        let shift = n * self.cols();
        MachineState {
            vram: Seq::new(
                self.vram.len(),
                |k: int|
                    if k < self.pixel_count() {
                        if k >= shift {
                            self.vram[k - shift]
                        } else {
                            0u8
                        }
                    } else {
                        self.vram[k]
                    },
            ),
            ..self
        }
    }

    /// `SCR`: the picture moves four columns to the right. The columns that
    /// it leaves at the left go dark.
    pub open spec fn scroll_right(self) -> MachineState {
        MachineState {
            vram: Seq::new(
                self.vram.len(),
                |k: int|
                    if k < self.pixel_count() {
                        if k % self.cols() >= SCROLL_STEP {
                            self.vram[k - SCROLL_STEP]
                        } else {
                            0u8
                        }
                    } else {
                        self.vram[k]
                    },
            ),
            ..self
        }
    }

    /// `SCL`: the picture moves four columns to the left. The columns that it
    /// leaves at the right go dark.
    pub open spec fn scroll_left(self) -> MachineState {
        MachineState {
            vram: Seq::new(
                self.vram.len(),
                |k: int|
                    if k < self.pixel_count() {
                        if k % self.cols() < self.cols() - SCROLL_STEP {
                            self.vram[k + SCROLL_STEP]
                        } else {
                            0u8
                        }
                    } else {
                        self.vram[k]
                    },
            ),
            ..self
        }
    }

    /// `LOW` and `HIGH`: the resolution is set and the display cleared.
    pub open spec fn set_resolution(self, highres: bool) -> MachineState {
        MachineState { is_highres: highres, ..self }.cls()
    }

    /// Every pixel of the buffer is 0 or 1.
    pub open spec fn pixels_binary(self) -> bool {
        forall|k: int| 0 <= k < self.vram.len() ==> self.vram[k] == 0 || self.vram[k] == 1
    }

    /// What holds of every state that a machine reaches from its first one:
    /// the parts have their lengths, the pixels are lit or dark, and the
    /// stack pointer lies within the stack.
    pub open spec fn valid(self) -> bool {
        &&& self.wf()
        &&& self.pixels_binary()
        &&& self.sp <= self.stack.len()
    }

    /// The place in the buffer of the pixel in column `col` and row `row`,
    /// both wrapped around the display.
    pub open spec fn pixel_index(self, col: int, row: int) -> int {
        (col % self.cols()) + (row % self.rows()) * self.cols()
    }

    /// Whether pixel `k` is flipped by one of the sprite bits that come
    /// before row `r`, column `c` of the sprite, going through the sprite row
    /// by row.
    pub open spec fn flipped_before(self, left: int, top: int, n: int, r: int, c: int, k: int) -> bool {
        let kr = self.sprite_row_at(top, k / self.cols());
        let kc = self.sprite_col_at(left, k % self.cols());
        self.sprite_covers(left, top, n, k) && (kr < r || (kr == r && kc < c))
    }

    /// Whether one of the sprite bits that come before row `r`, column `c`
    /// turns a lit pixel off.
    pub open spec fn collides_before(self, left: int, top: int, n: int, r: int, c: int) -> bool {
        exists|k: int| #[trigger] self.flipped_before(left, top, n, r, c, k) && self.vram[k] == 1
    }
}

/// The active resolution shows 2048 or 8192 pixels.
pub proof fn lemma_pixel_count(s: MachineState)
    ensures
        s.pixel_count() == (if s.is_highres {
            8192int
        } else {
            2048int
        }),
        s.pixel_count() <= VRAM_SIZE,
{
}

/// Moving `d` places on from `a` around a ring of `m` places ends at one
/// place, and that place is `d` on from `a` and from no other start.
pub proof fn lemma_ring_offset(a: int, d: int, m: int, p: int)
    requires
        0 < m,
        0 <= d < m,
        0 <= p < m,
    ensures
        0 <= (a + d) % m < m,
        ((a + d) % m - a) % m == d,
        (p - a) % m == d ==> p == (a + d) % m,
{
    lemma_mod_bound(a + d, m);
    lemma_fundamental_div_mod(a + d, m);
    let q = (a + d) / m;
    let landed = (a + d) % m;
    assert(landed - a == (-q) * m + d) by (nonlinear_arith)
        requires
            a + d == m * q + landed,
    ;
    lemma_fundamental_div_mod_converse(landed - a, m, -q, d);
    if (p - a) % m == d {
        lemma_fundamental_div_mod(p - a, m);
        let turns = (p - a) / m;
        assert(a + d == (-turns) * m + p) by (nonlinear_arith)
            requires
                p - a == m * turns + d,
        ;
        lemma_fundamental_div_mod_converse(a + d, m, -turns, p);
    }
}

/// A place in the buffer and its row and column determine each other.
pub proof fn lemma_row_col(col: int, row: int, cols: int, k: int)
    requires
        0 < cols,
        0 <= col < cols,
        0 <= row,
    ensures
        (col + row * cols) / cols == row,
        (col + row * cols) % cols == col,
        0 <= k ==> k == k % cols + (k / cols) * cols && 0 <= k % cols < cols && 0 <= k / cols,
        0 <= k && 0 <= row && k < row * cols ==> k / cols < row,
{
    lemma_fundamental_div_mod_converse(col + row * cols, cols, row, col);
    if 0 <= k {
        lemma_fundamental_div_mod(k, cols);
        lemma_mod_bound(k, cols);
        let q = k / cols;
        assert(k == k % cols + q * cols && 0 <= q && (k < row * cols ==> q < row)) by (nonlinear_arith)
            requires
                k == cols * q + k % cols,
                0 <= k % cols < cols,
                0 <= k,
                0 < cols,
        ;
    }
}

/// The sprite bit in row `r`, column `c` lands inside the picture, on the
/// pixel from which the sprite is seen at row `r`, column `c`.
pub proof fn lemma_sprite_bit_target(s: MachineState, left: int, top: int, n: int, r: int, c: int)
    requires
        0 <= n < 16,
        0 <= r < sprite_height(n),
        0 <= c < sprite_width(n),
    ensures
        0 <= s.pixel_index(left + c, top + r) < s.pixel_count(),
        s.sprite_row_at(top, s.pixel_index(left + c, top + r) / s.cols()) == r,
        s.sprite_col_at(left, s.pixel_index(left + c, top + r) % s.cols()) == c,
{
    let row = (top + r) % s.rows();
    let col = (left + c) % s.cols();
    lemma_ring_offset(top, r, s.rows(), 0);
    lemma_ring_offset(left, c, s.cols(), 0);
    lemma_row_col(col, row, s.cols(), 0);
    lemma_pixel_count(s);
    if s.is_highres {
        assert(col + row * 128 < 8192);
    } else {
        assert(col + row * 64 < 2048);
    }
}

/// No pixel but the target of the sprite bit in row `r`, column `c` sees the
/// sprite at that row and column.
pub proof fn lemma_sprite_bit_source(s: MachineState, left: int, top: int, n: int, r: int, c: int, k: int)
    requires
        0 <= n < 16,
        0 <= r < sprite_height(n),
        0 <= c < sprite_width(n),
        0 <= k < s.pixel_count(),
        s.sprite_row_at(top, k / s.cols()) == r,
        s.sprite_col_at(left, k % s.cols()) == c,
    ensures
        k == s.pixel_index(left + c, top + r),
{
    lemma_pixel_count(s);
    lemma_row_col(0, s.rows(), s.cols(), k);
    lemma_ring_offset(top, r, s.rows(), k / s.cols());
    lemma_ring_offset(left, c, s.cols(), k % s.cols());
}

/// Going one sprite bit on adds the target of that bit, if the bit is set,
/// to the pixels that were flipped.
pub proof fn lemma_flip_step(s: MachineState, left: int, top: int, n: int, r: int, c: int, k: int)
    requires
        0 <= n < 16,
        0 <= r < sprite_height(n),
        0 <= c < sprite_width(n),
    ensures
        s.flipped_before(left, top, n, r, c + 1, k) <==> (s.flipped_before(left, top, n, r, c, k) || (k
            == s.pixel_index(left + c, top + r) && s.sprite_bit(n, r, c))),
{
    lemma_sprite_bit_target(s, left, top, n, r, c);
    if 0 <= k < s.pixel_count() && s.sprite_row_at(top, k / s.cols()) == r && s.sprite_col_at(
        left,
        k % s.cols(),
    ) == c {
        lemma_sprite_bit_source(s, left, top, n, r, c, k);
    }
}

/// At the end of a sprite row the pixels that were flipped are those that
/// are flipped before the next row begins.
pub proof fn lemma_flip_row_end(s: MachineState, left: int, top: int, n: int, r: int, k: int)
    ensures
        s.flipped_before(left, top, n, r, sprite_width(n), k) <==> s.flipped_before(
            left,
            top,
            n,
            r + 1,
            0,
            k,
        ),
{
    lemma_mod_bound(k % s.cols() - left, s.cols());
}

/// At the end of the sprite every pixel that it covers was flipped, and no
/// other.
pub proof fn lemma_flip_all(s: MachineState, left: int, top: int, n: int, k: int)
    ensures
        s.flipped_before(left, top, n, sprite_height(n), 0, k) <==> s.sprite_covers(left, top, n, k),
{
    lemma_mod_bound(k % s.cols() - left, s.cols());
}

/// Going one sprite bit on, a collision was seen if one was seen before or
/// the bit is set and lands on a lit pixel.
pub proof fn lemma_collides_step(s: MachineState, left: int, top: int, n: int, r: int, c: int)
    requires
        0 <= n < 16,
        0 <= r < sprite_height(n),
        0 <= c < sprite_width(n),
    ensures
        s.collides_before(left, top, n, r, c + 1) <==> (s.collides_before(left, top, n, r, c) || (
        s.sprite_bit(n, r, c) && s.vram[s.pixel_index(left + c, top + r)] == 1)),
{
    let target = s.pixel_index(left + c, top + r);
    lemma_flip_step(s, left, top, n, r, c, target);
    lemma_sprite_bit_target(s, left, top, n, r, c);
    if s.collides_before(left, top, n, r, c) {
        let k = choose|k: int| #[trigger] s.flipped_before(left, top, n, r, c, k) && s.vram[k] == 1;
        lemma_flip_step(s, left, top, n, r, c, k);
        assert(s.flipped_before(left, top, n, r, c + 1, k));
    }
    if s.sprite_bit(n, r, c) && s.vram[target] == 1 {
        assert(s.flipped_before(left, top, n, r, c + 1, target));
    }
    if s.collides_before(left, top, n, r, c + 1) {
        let k = choose|k: int| #[trigger] s.flipped_before(left, top, n, r, c + 1, k) && s.vram[k] == 1;
        lemma_flip_step(s, left, top, n, r, c, k);
        assert(s.flipped_before(left, top, n, r, c, k) || (k == target && s.sprite_bit(n, r, c)));
    }
}

/// At the end of a sprite row a collision was seen exactly if one is seen
/// before the next row begins.
pub proof fn lemma_collides_row_end(s: MachineState, left: int, top: int, n: int, r: int)
    ensures
        s.collides_before(left, top, n, r, sprite_width(n)) <==> s.collides_before(
            left,
            top,
            n,
            r + 1,
            0,
        ),
{
    if s.collides_before(left, top, n, r, sprite_width(n)) {
        let k = choose|k: int| #[trigger]
            s.flipped_before(left, top, n, r, sprite_width(n), k) && s.vram[k] == 1;
        lemma_flip_row_end(s, left, top, n, r, k);
        assert(s.flipped_before(left, top, n, r + 1, 0, k));
    }
    if s.collides_before(left, top, n, r + 1, 0) {
        let k = choose|k: int| #[trigger] s.flipped_before(left, top, n, r + 1, 0, k) && s.vram[k] == 1;
        lemma_flip_row_end(s, left, top, n, r, k);
        assert(s.flipped_before(left, top, n, r, sprite_width(n), k));
    }
}

/// At the end of the sprite a collision was seen exactly if the sprite
/// collides.
pub proof fn lemma_collides_all(s: MachineState, left: int, top: int, n: int)
    ensures
        s.collides_before(left, top, n, sprite_height(n), 0) <==> s.sprite_collides(left, top, n),
{
    if s.collides_before(left, top, n, sprite_height(n), 0) {
        let k = choose|k: int| #[trigger]
            s.flipped_before(left, top, n, sprite_height(n), 0, k) && s.vram[k] == 1;
        lemma_flip_all(s, left, top, n, k);
        assert(s.sprite_covers(left, top, n, k));
    }
    if s.sprite_collides(left, top, n) {
        let k = choose|k: int| #[trigger] s.sprite_covers(left, top, n, k) && s.vram[k] == 1;
        lemma_flip_all(s, left, top, n, k);
        assert(s.flipped_before(left, top, n, sprite_height(n), 0, k));
    }
}

} // verus!
