//! Saved states: the whole machine as plain values, for a front end to write
//! out in a format of its choice and to read back.

use vstd::prelude::*;
use crate::cpu::CPU;
use crate::state::MachineState;

verus! {

/// Every field of the machine, with vectors in place of the arrays. A
/// snapshot that was read back from outside may have vectors of any length;
/// `CPU::restore` takes only one whose lengths are those of the machine.
#[derive(Debug)]
pub struct Snapshot {
    /// Working memory: 4096 bytes.
    pub memory: Vec<u8>,
    /// Return addresses: 16 slots.
    pub stack: Vec<u16>,
    /// The registers V0 to VF.
    pub register: Vec<u8>,
    /// Address of the next instruction.
    pub pc: u16,
    /// Number of return addresses on the stack.
    pub sp: usize,
    /// The index register.
    pub i: u16,
    /// Delay timer.
    pub dt: u8,
    /// Sound timer.
    pub st: u8,
    /// The display buffer: 8192 pixels.
    pub vram: Vec<u8>,
    /// Which of the 16 keys are held down.
    pub keypad: Vec<bool>,
    /// Whether the display runs at the extended resolution.
    pub is_highres: bool,
    /// Whether the program has asked to stop.
    pub is_halted: bool,
    /// The load/store quirk.
    pub load_store_quirk: bool,
    /// The shift quirk.
    pub shift_quirk: bool,
    /// The jump quirk.
    pub jump_quirk: bool,
    /// The 8 persistent flag registers.
    pub flag_regs: Vec<u8>,
}

impl View for Snapshot {
    type V = MachineState;

    open spec fn view(&self) -> MachineState {
        MachineState {
            memory: self.memory@,
            stack: self.stack@,
            v: self.register@,
            pc: self.pc,
            sp: self.sp,
            i: self.i,
            dt: self.dt,
            st: self.st,
            vram: self.vram@,
            keypad: self.keypad@,
            is_highres: self.is_highres,
            is_halted: self.is_halted,
            load_store_quirk: self.load_store_quirk,
            shift_quirk: self.shift_quirk,
            jump_quirk: self.jump_quirk,
            flag_regs: self.flag_regs@,
        }
    }
}

/// The items of `source`, in order, as a vector.
fn vec_of<T: Copy, const N: usize>(source: &[T; N]) -> (items: Vec<T>)
    ensures
        items@ == source@,
{
    let mut items: Vec<T> = Vec::new();
    let mut k: usize = 0;
    while k < N
        invariant
            k <= N,
            items@ == source@.subrange(0, k as int),
        decreases N - k,
    {
        items.push(source[k]);
        k += 1;
    }
    items
}

/// Copies `source` over `target`, item by item.
fn fill_from<T: Copy, const N: usize>(target: &mut [T; N], source: &Vec<T>)
    requires
        source@.len() == N,
    ensures
        final(target)@ == source@,
{
    let mut k: usize = 0;
    while k < N
        invariant
            k <= N,
            source@.len() == N,
            forall|j: int| 0 <= j < k ==> target@[j] == source@[j],
        decreases N - k,
    {
        target[k] = source[k];
        k += 1;
    }
}

impl CPU {
    /// The whole state of the machine, field for field.
    pub fn snapshot(&self) -> (saved: Snapshot)
        ensures
            saved@ == self@,
    {
        Snapshot {
            memory: vec_of(&self.memory),
            stack: vec_of(&self.stack),
            register: vec_of(&self.register),
            pc: self.pc,
            sp: self.sp,
            i: self.i,
            dt: self.dt,
            st: self.st,
            vram: vec_of(&self.vram),
            keypad: vec_of(&self.keypad),
            is_highres: self.is_highres,
            is_halted: self.is_halted,
            load_store_quirk: self.load_store_quirk,
            shift_quirk: self.shift_quirk,
            jump_quirk: self.jump_quirk,
            flag_regs: vec_of(&self.flag_regs),
        }
    }

    /// A machine in the state that `saved` holds, field for field. A
    /// snapshot whose vectors do not have the lengths of the machine is
    /// refused.
    pub fn restore(saved: &Snapshot) -> (restored: Option<CPU>)
        ensures
            restored is Some <==> saved@.wf(),
            restored matches Some(cpu) ==> cpu@ == saved@,
    {
        if saved.memory.len() != 4096 || saved.stack.len() != 16 || saved.register.len() != 16
            || saved.vram.len() != 8192 || saved.keypad.len() != 16 || saved.flag_regs.len() != 8 {
            return None;
        }
        let mut cpu = CPU::new();
        fill_from(&mut cpu.memory, &saved.memory);
        fill_from(&mut cpu.stack, &saved.stack);
        fill_from(&mut cpu.register, &saved.register);
        fill_from(&mut cpu.vram, &saved.vram);
        fill_from(&mut cpu.keypad, &saved.keypad);
        fill_from(&mut cpu.flag_regs, &saved.flag_regs);
        cpu.pc = saved.pc;
        cpu.sp = saved.sp;
        cpu.i = saved.i;
        cpu.dt = saved.dt;
        cpu.st = saved.st;
        cpu.is_highres = saved.is_highres;
        cpu.is_halted = saved.is_halted;
        cpu.load_store_quirk = saved.load_store_quirk;
        cpu.shift_quirk = saved.shift_quirk;
        cpu.jump_quirk = saved.jump_quirk;
        Some(cpu)
    }
}

/// Saving and restoring gives the machine back: a snapshot of a machine is
/// never refused, and what is restored from it agrees with the machine field
/// for field.
pub proof fn law_snapshot_round_trip(cpu: CPU, saved: Snapshot, restored: CPU)
    requires
        saved@ == cpu@,
        restored@ == saved@,
    ensures
        saved@.wf(),
        restored@ == cpu@,
        forall|random: u8| restored@.step(random) == cpu@.step(random),
{
}

} // verus!
