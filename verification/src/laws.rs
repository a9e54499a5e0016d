//! Laws of the machine: what holds of every state and every instruction,
//! proved from the model.

use vstd::prelude::*;
use crate::display::{lemma_pixel_count, lemma_row_col, toggled};
use crate::instruction::{decode_spec, Instruction};
use crate::state::{add16, add8, MachineState};

verus! {

/// The state after `n` ticks of the 60 Hz clock.
pub open spec fn after_ticks(s: MachineState, n: nat) -> MachineState
    decreases n,
{
    if n == 0 {
        s
    } else {
        after_ticks(s, (n - 1) as nat).step_timers()
    }
}

/// A byte that is loaded into a register, copied from there to the delay
/// timer and read back from the timer into any register, with no tick of the
/// clock in between, arrives unchanged.
pub proof fn law_delay_timer_round_trip(s: MachineState, x: int, y: int, kk: u8, random: u8)
    requires
        s.wf(),
        0 <= x < 16,
        0 <= y < 16,
    ensures
        ({
            let written = s.execute(Instruction::LoadByte { x: x as usize, kk }, random).execute(
                Instruction::SetDelay { x: x as usize },
                random,
            );
            &&& written.dt == kk
            &&& written.execute(Instruction::ReadDelay { x: y as usize }, random).v[y] == kk
        }),
{
}

/// The sound timer takes the value of the register that is written to it.
pub proof fn law_sound_timer_write(s: MachineState, x: int, random: u8)
    requires
        s.wf(),
        0 <= x < 16,
    ensures
        s.execute(Instruction::SetSound { x: x as usize }, random).st == s.v[x],
{
}

/// Add with carry: VF is 1 exactly when the sum leaves eight bits, and Vx
/// together with the carry holds the whole sum.
pub proof fn law_add_carry(s: MachineState, x: int, y: int)
    requires
        s.wf(),
        0 <= x < 16,
        0 <= y < 16,
    ensures
        s.add_reg(x, y).v[15] == 1 <==> s.v[x] + s.v[y] > 255,
        s.add_reg(x, y).v[15] == 0 <==> s.v[x] + s.v[y] <= 255,
        x != 15 ==> s.add_reg(x, y).v[x] + 256 * s.add_reg(x, y).v[15] == s.v[x] + s.v[y],
{
}

/// Subtract: VF is 1 exactly when nothing is borrowed, that is when Vx is at
/// least Vy, and Vx holds the difference with the borrow made good.
pub proof fn law_sub_borrow(s: MachineState, x: int, y: int)
    requires
        s.wf(),
        0 <= x < 16,
        0 <= y < 16,
    ensures
        s.sub_reg(x, y).v[15] == 1 <==> s.v[x] >= s.v[y],
        s.sub_reg(x, y).v[15] == 0 <==> s.v[x] < s.v[y],
        x != 15 ==> s.sub_reg(x, y).v[x] == s.v[x] - s.v[y] + 256 * (1 - s.sub_reg(x, y).v[15]),
{
}

/// Reverse subtract: as subtract, with Vx and Vy in each other's place.
pub proof fn law_sub_reverse_borrow(s: MachineState, x: int, y: int)
    requires
        s.wf(),
        0 <= x < 16,
        0 <= y < 16,
    ensures
        s.sub_reverse(x, y).v[15] == 1 <==> s.v[y] >= s.v[x],
        s.sub_reverse(x, y).v[15] == 0 <==> s.v[y] < s.v[x],
        x != 15 ==> s.sub_reverse(x, y).v[x] == s.v[y] - s.v[x] + 256 * (1 - s.sub_reverse(
            x,
            y,
        ).v[15]),
{
}

/// Under the shift quirk a shift reads Vx and ignores Vy.
pub proof fn law_shift_quirk_ignores_vy(s: MachineState, x: int, y: int)
    requires
        s.wf(),
        s.shift_quirk,
        0 <= x < 16,
        0 <= y < 16,
    ensures
        s.shift_right(x, y) == s.shift_right(x, x),
        s.shift_left(x, y) == s.shift_left(x, x),
{
}

/// Without the shift quirk a shift reads Vy: Vx takes Vy shifted by one bit,
/// and VF the bit that left. The registers named must not be VF itself.
pub proof fn law_shift_reads_vy(s: MachineState, x: int, y: int)
    requires
        s.wf(),
        !s.shift_quirk,
        0 <= x < 15,
        0 <= y < 15,
    ensures
        s.shift_right(x, y).v[x] == s.v[y] >> 1u8,
        s.shift_right(x, y).v[15] == s.v[y] & 1u8,
        s.shift_left(x, y).v[x] == s.v[y] << 1u8,
        s.shift_left(x, y).v[15] == s.v[y] >> 7u8,
{
    let b = s.v[y];
    assert(b / 2 == b >> 1u8) by (bit_vector);
    assert(b % 2 == b & 1u8) by (bit_vector);
    assert(b / 128 == b >> 7u8) by (bit_vector);
    assert(add8(b, b as int) == b << 1u8) by {
        assert(((b as int + b as int) % 0x100) as u8 == ((b as u16 + b as u16) % 256) as u8);
        assert(((b as u16 + b as u16) % 256) as u8 == b << 1u8) by (bit_vector);
    }
}

/// A pixel that is flipped twice is what it was.
pub proof fn lemma_toggle_twice(pixel: u8)
    ensures
        toggled(toggled(pixel)) == pixel,
        pixel == 0 ==> toggled(pixel) == 1,
        pixel == 1 ==> toggled(pixel) == 0,
{
    assert((pixel ^ 1) ^ 1 == pixel) by (bit_vector);
    assert(0u8 ^ 1 == 1) by (bit_vector);
    assert(1u8 ^ 1 == 0) by (bit_vector);
}

/// Drawing the same sprite twice at the same place leaves the display as it
/// was. The coordinates must not come from VF, which the first draw
/// overwrites.
pub proof fn law_draw_twice_restores(s: MachineState, x: int, y: int, n: int)
    requires
        s.wf(),
        0 <= x < 15,
        0 <= y < 15,
        0 <= n < 16,
    ensures
        s.draw(x, y, n).draw(x, y, n).vram == s.vram,
{
    let once = s.draw(x, y, n);
    let twice = once.draw(x, y, n);
    let left = s.v[x] as int;
    let top = s.v[y] as int;
    assert forall|k: int| 0 <= k < s.vram.len() implies twice.vram[k] == s.vram[k] by {
        assert(once.sprite_covers(left, top, n, k) == s.sprite_covers(left, top, n, k));
        lemma_toggle_twice(s.vram[k]);
    }
    assert(twice.vram =~= s.vram);
}

/// On a display of lit and dark pixels, a sprite that is drawn a second time
/// at the same place reports a collision exactly when the first draw lit a
/// pixel.
pub proof fn law_second_draw_collides(s: MachineState, x: int, y: int, n: int)
    requires
        s.wf(),
        s.pixels_binary(),
        0 <= x < 15,
        0 <= y < 15,
        0 <= n < 16,
    ensures
        s.draw(x, y, n).draw(x, y, n).v[15] == 1 <==> exists|k: int| #[trigger]
            s.sprite_covers(s.v[x] as int, s.v[y] as int, n, k) && s.vram[k] == 0,
{
    let once = s.draw(x, y, n);
    let left = s.v[x] as int;
    let top = s.v[y] as int;
    lemma_pixel_count(s);
    assert forall|k: int| once.sprite_covers(left, top, n, k) == s.sprite_covers(left, top, n, k) by {}
    if once.sprite_collides(left, top, n) {
        let k = choose|k: int| #[trigger] once.sprite_covers(left, top, n, k) && once.vram[k] == 1;
        assert(s.sprite_covers(left, top, n, k));
        lemma_toggle_twice(s.vram[k]);
        assert(s.vram[k] == 0);
    }
    if exists|k: int| #[trigger] s.sprite_covers(left, top, n, k) && s.vram[k] == 0 {
        let k = choose|k: int| #[trigger] s.sprite_covers(left, top, n, k) && s.vram[k] == 0;
        lemma_toggle_twice(s.vram[k]);
        assert(once.sprite_covers(left, top, n, k) && once.vram[k] == 1);
    }
}

/// A sprite bit lands on the display at its own column and row, each taken
/// around the edge of the display: a sprite that reaches over the right or
/// the lower edge goes on at the left or the top.
pub proof fn law_draw_wraps(s: MachineState, x: int, y: int, n: int, r: int, c: int)
    requires
        s.wf(),
        0 <= x < 16,
        0 <= y < 16,
        0 <= n < 16,
        0 <= r < crate::display::sprite_height(n),
        0 <= c < crate::display::sprite_width(n),
        s.sprite_bit(n, r, c),
    ensures
        ({
            let target = s.pixel_index(s.v[x] + c, s.v[y] + r);
            &&& 0 <= target < s.pixel_count()
            &&& target % s.cols() == (s.v[x] + c) % s.cols()
            &&& target / s.cols() == (s.v[y] + r) % s.rows()
            &&& s.draw(x, y, n).vram[target] == toggled(s.vram[target])
        }),
{
    let left = s.v[x] as int;
    let top = s.v[y] as int;
    crate::display::lemma_sprite_bit_target(s, left, top, n, r, c);
    crate::display::lemma_ring_offset(top, r, s.rows(), 0);
    crate::display::lemma_ring_offset(left, c, s.cols(), 0);
    lemma_row_col((left + c) % s.cols(), (top + r) % s.rows(), s.cols(), 0);
    lemma_pixel_count(s);
}

/// The timers count down to zero and stay there: after `n` ticks each timer
/// has lost `n`, or stands at zero where it held less.
pub proof fn law_timers_stop_at_zero(s: MachineState, n: nat)
    ensures
        after_ticks(s, n).st == (if s.st >= n {
            s.st - n
        } else {
            0
        }),
        after_ticks(s, n).dt == (if s.dt >= n {
            s.dt - n
        } else {
            0
        }),
    decreases n,
{
    if n > 0 {
        law_timers_stop_at_zero(s, (n - 1) as nat);
    }
}

/// A tick of the clock changes the timers and nothing else.
pub proof fn law_ticks_touch_timers_only(s: MachineState, n: nat)
    ensures
        after_ticks(s, n) == (MachineState {
            dt: after_ticks(s, n).dt,
            st: after_ticks(s, n).st,
            ..s
        }),
    decreases n,
{
    if n > 0 {
        law_ticks_touch_timers_only(s, (n - 1) as nat);
    }
}

/// No instruction writes the timers but the two that set them: every other
/// one leaves both as they are.
pub proof fn law_only_set_instructions_write_timers(s: MachineState, instruction: Instruction, random: u8)
    requires
        s.wf(),
        instruction.wf(),
        !(instruction is SetDelay),
        !(instruction is SetSound),
    ensures
        s.execute(instruction, random).dt == s.dt,
        s.execute(instruction, random).st == s.st,
{
}

/// `EXIT` halts the machine, and a halted machine stays as it is: a cycle
/// changes nothing, whatever lies at the program counter, and reports
/// nothing.
pub proof fn law_halt_is_terminal(s: MachineState, random: u8)
    ensures
        s.execute(Instruction::Exit, random).is_halted,
        s.is_halted ==> s.step(random) == s,
        s.is_halted ==> s.step_outcome() is Halted,
        s.is_halted ==> s.step_report() is None,
{
}

/// Only a reset brings a halted machine back: it leaves the machine running
/// at the standard resolution.
pub proof fn law_reset_revives(s: MachineState)
    ensures
        !s.reset().is_halted,
        !s.reset().is_highres,
        s.reset().pc == crate::state::PROGRAM_START,
        s.reset().load_store_quirk == s.load_store_quirk,
        s.reset().shift_quirk == s.shift_quirk,
        s.reset().jump_quirk == s.jump_quirk,
        s.reset().flag_regs == s.flag_regs,
{
}

/// A word that names no instruction is passed over: the program counter
/// moves behind it and nothing else changes.
pub proof fn law_unknown_word_is_skipped(s: MachineState, random: u8)
    requires
        !s.is_halted,
        decode_spec(s.opcode()) is Unknown,
    ensures
        s.step(random) == (MachineState { pc: add16(s.pc, 2), ..s }),
        s.step_outcome() == crate::semantics::StepOutcome::Unknown(s.opcode()),
        s.step_report() is None,
{
}

/// A cycle is a function of the state and of the random byte: two machines
/// that agree field for field go on to agree, cycle after cycle, as long as
/// the generator gives both the same bytes.
pub proof fn law_equal_states_step_equally(a: MachineState, b: MachineState, random: u8)
    requires
        a == b,
    ensures
        a.step(random) == b.step(random),
        a.step_outcome() == b.step_outcome(),
{
}

/// Only one instruction reads the random byte.
pub proof fn law_random_byte_is_read_once(s: MachineState, instruction: Instruction, r1: u8, r2: u8)
    requires
        !(instruction is Random),
    ensures
        s.execute(instruction, r1) == s.execute(instruction, r2),
{
}

/// No instruction changes the length of a part of the state.
pub proof fn law_execute_keeps_shape(s: MachineState, instruction: Instruction, random: u8)
    requires
        s.wf(),
        instruction.wf(),
    ensures
        s.execute(instruction, random).wf(),
{
}

/// No instruction writes the quirk flags.
pub proof fn law_quirks_are_configuration(s: MachineState, instruction: Instruction, random: u8)
    ensures
        s.execute(instruction, random).load_store_quirk == s.load_store_quirk,
        s.execute(instruction, random).shift_quirk == s.shift_quirk,
        s.execute(instruction, random).jump_quirk == s.jump_quirk,
{
}

/// A display whose pixels are all 0 or 1 stays so under every instruction.
pub proof fn law_pixels_stay_binary(s: MachineState, instruction: Instruction, random: u8)
    requires
        s.wf(),
        instruction.wf(),
        s.pixels_binary(),
    ensures
        s.execute(instruction, random).pixels_binary(),
{
    let after = s.execute(instruction, random);
    lemma_pixel_count(s);
    match instruction {
        Instruction::Draw { x, y, n } => {
            assert forall|k: int| 0 <= k < after.vram.len() implies after.vram[k] == 0
                || after.vram[k] == 1 by {
                lemma_toggle_twice(s.vram[k]);
            }
        },
        Instruction::ScrollLeft => {
            assert forall|k: int| 0 <= k < after.vram.len() implies after.vram[k] == 0
                || after.vram[k] == 1 by {
                lemma_row_col(0, 0, s.cols(), k);
                if s.is_highres {
                    assert(k < 8192 ==> k / 128 < 64);
                } else {
                    assert(k < 2048 ==> k / 64 < 32);
                }
            }
        },
        Instruction::ScrollRight => {
            assert forall|k: int| 0 <= k < after.vram.len() implies after.vram[k] == 0
                || after.vram[k] == 1 by {
                lemma_row_col(0, 0, s.cols(), k);
            }
        },
        _ => {},
    }
}

/// What the decoder gives has its operands in range, whatever the word.
pub proof fn lemma_decoded_is_well_formed(opcode: u16)
    ensures
        decode_spec(opcode).wf(),
{
}

/// A cycle keeps the shape of the state, keeps a display of lit and dark
/// pixels such a display, and keeps the stack pointer within the stack.
pub proof fn law_step_keeps_invariants(s: MachineState, random: u8)
    requires
        s.wf(),
    ensures
        s.step(random).wf(),
        s.pixels_binary() ==> s.step(random).pixels_binary(),
        s.sp <= 16 ==> s.step(random).sp <= 16,
        s.valid() ==> s.step(random).valid(),
{
    lemma_decoded_is_well_formed(s.opcode());
    if !s.is_halted {
        law_execute_keeps_shape(s.skip(), decode_spec(s.opcode()), random);
        if s.pixels_binary() {
            law_pixels_stay_binary(s.skip(), decode_spec(s.opcode()), random);
        }
    }
}

/// A new machine is in a valid state, and whatever the driver does to a
/// valid machine leaves it valid: a reset, a program, a tick of the clock, a
/// key.
pub proof fn law_driver_keeps_invariants(s: MachineState, rom: Seq<u8>, key: int, pressed: bool)
    requires
        s.valid(),
        0 <= key < 16,
    ensures
        MachineState::initial().valid(),
        s.reset().valid(),
        s.load_rom(rom).valid(),
        s.step_timers().valid(),
        s.reset_keys().valid(),
        s.set_key(key, pressed).valid(),
{
}

/// An instruction that neither jumps nor skips nor waits leaves the program
/// counter where the fetch put it: two bytes on, wrapping at sixteen bits.
pub proof fn law_fetch_advances_by_two(s: MachineState, random: u8)
    requires
        s.wf(),
        !s.is_halted,
        ({
            let instruction = decode_spec(s.opcode());
            !(instruction is Ret || instruction is Jump || instruction is Call || instruction is SkipEqByte
                || instruction is SkipNeByte || instruction is SkipEqReg || instruction is SkipNeReg
                || instruction is JumpOffset || instruction is SkipKey || instruction is SkipNoKey
                || instruction is WaitKey)
        }),
    ensures
        s.step(random).pc == add16(s.pc, 2),
{
    lemma_decoded_is_well_formed(s.opcode());
}

/// A skip moves the program counter over exactly one instruction, and does
/// nothing else.
pub proof fn law_skip_is_one_instruction(s: MachineState, condition: bool)
    ensures
        s.skip_if(condition) == (MachineState {
            pc: if condition {
                add16(s.pc, 2)
            } else {
                s.pc
            },
            ..s
        }),
{
}

/// A call followed at once by a return comes back to the instruction behind
/// the call, with the stack as deep as before.
pub proof fn law_return_undoes_call(s: MachineState, nnn: u16)
    requires
        s.wf(),
        s.sp < 16,
    ensures
        s.call(nnn).ret().pc == s.pc,
        s.call(nnn).ret().sp == s.sp,
{
}

/// Switching the resolution sets the size of the picture and leaves the
/// whole display dark.
pub proof fn law_resolution_switch_clears(s: MachineState, highres: bool)
    requires
        s.wf(),
    ensures
        s.set_resolution(highres).is_highres == highres,
        s.set_resolution(highres).rows() == (if highres {
            64int
        } else {
            32int
        }),
        s.set_resolution(highres).cols() == (if highres {
            128int
        } else {
            64int
        }),
        forall|k: int| 0 <= k < 8192 ==> s.set_resolution(highres).vram[k] == 0,
        !s.set_resolution(highres).sprite_collides(0, 0, 0),
{
}

/// What a block store writes, a block load from the same place reads back,
/// as far as the block lies inside memory.
pub proof fn law_load_reads_what_store_wrote(s: MachineState, x: int, k: int)
    requires
        s.wf(),
        s.load_store_quirk,
        0 <= k <= x < 16,
        s.i + x < 4096,
    ensures
        s.store_registers(x).load_registers(x).v[k] == s.v[k],
{
}

/// The three digits that the decimal store writes make up the value.
pub proof fn law_bcd_digits_make_the_value(value: u8)
    ensures
        crate::semantics::bcd_digits(value).len() == 3,
        crate::semantics::bcd_digits(value)[0] * 100 + crate::semantics::bcd_digits(value)[1] * 10
            + crate::semantics::bcd_digits(value)[2] == value,
        forall|d: int| 0 <= d < 3 ==> crate::semantics::bcd_digits(value)[d] <= 9,
{
}

/// A program that was loaded is what the machine fetches first.
pub proof fn law_loaded_program_is_fetched(s: MachineState, rom: Seq<u8>)
    requires
        s.wf(),
        2 <= rom.len() <= crate::state::MAX_ROM_SIZE,
    ensures
        s.reset().load_rom(rom).opcode() == rom[0] * 256 + rom[1],
        s.reset().load_rom(rom).pc == crate::state::PROGRAM_START,
{
}

/// No instruction presses or releases a key: the keypad is the driver's.
pub proof fn law_instructions_leave_keypad(s: MachineState, instruction: Instruction, random: u8)
    ensures
        s.execute(instruction, random).keypad == s.keypad,
{
}

/// No instruction writes memory but the decimal store and the block store.
pub proof fn law_only_stores_write_memory(s: MachineState, instruction: Instruction, random: u8)
    requires
        !(instruction is StoreBcd),
        !(instruction is StoreRegisters),
    ensures
        s.execute(instruction, random).memory == s.memory,
{
}

/// No instruction writes the persistent flag registers but the one that
/// saves to them, and a reset keeps them.
pub proof fn law_flag_registers_persist(s: MachineState, instruction: Instruction, random: u8)
    requires
        !(instruction is StoreFlags),
    ensures
        s.execute(instruction, random).flag_regs == s.flag_regs,
        s.reset().flag_regs == s.flag_regs,
{
}

/// No instruction halts the machine but `EXIT`, and none changes the
/// resolution but `LOW` and `HIGH`.
pub proof fn law_modes_change_by_their_instructions(s: MachineState, instruction: Instruction, random: u8)
    ensures
        !(instruction is Exit) ==> s.execute(instruction, random).is_halted == s.is_halted,
        !(instruction is Low || instruction is High) ==> s.execute(instruction, random).is_highres
            == s.is_highres,
{
}

/// While the program counter and the byte behind it lie inside memory, the
/// word that is fetched is made of the two bytes there, the high one first.
pub proof fn law_fetch_is_big_endian(s: MachineState)
    requires
        s.wf(),
        s.pc + 1 < 4096,
    ensures
        s.opcode() == s.memory[s.pc as int] * 256 + s.memory[s.pc + 1],
{
}

} // verus!
