//! What a front end decides between two frames: whether the machine runs,
//! how many cycles a frame gets, and what a frame does to the machine.

use vstd::prelude::*;
use crate::cpu::CPU;
use crate::state::MachineState;

verus! {

/// Fewest cycles that a frame may run.
pub const MIN_CYCLES_PER_FRAME: u16 = 1;

/// Most cycles that a frame may run.
pub const MAX_CYCLES_PER_FRAME: u16 = 2000;

/// Cycles that a frame runs unless the user asks for another number.
pub const DEFAULT_CYCLES_PER_FRAME: u16 = 10;

/// What the emulator is doing.
#[derive(Clone, Copy, Debug, PartialEq, Eq, Structural)]
pub enum EmulatorState {
    /// No program is running: none was loaded, or the machine was reset.
    Idle,
    /// The loaded program runs.
    Running,
    /// The loaded program is held.
    Paused,
    /// The user asked to leave.
    Quit,
}

/// What the user can ask of the emulator.
#[derive(Clone, Copy, Debug, PartialEq, Eq, Structural)]
pub enum Command {
    /// A program or a saved state was opened.
    Open,
    /// Run the loaded program.
    Start,
    /// Hold the running program.
    Pause,
    /// Hold the running program, or let the held one run.
    TogglePause,
    /// Reset the machine and forget the program.
    Reset,
    /// Leave the emulator.
    Exit,
}

/// The state of the user interface, as far as it bears on the machine.
#[derive(Clone, Copy, Debug)]
pub struct State {
    /// Whether the about window is open.
    pub about_window: bool,
    /// Whether the metrics window is open.
    pub metrics_window: bool,
    /// Whether the colour picker is open.
    pub palette_window: bool,
    /// Whether the memory view is open.
    pub debug_memory_view: bool,
    /// Whether the stack view is open.
    pub debug_stack_view: bool,
    /// Whether the register view is open.
    pub debug_register_view: bool,
    /// Whether the debug controls are open.
    pub debug_controls: bool,
    /// Cycles to run per frame.
    pub cycles_per_frame: u16,
    /// What the emulator is doing.
    pub emulator_state: EmulatorState,
    /// Height of the main menu bar, once it was drawn.
    pub menu_height: Option<u32>,
    /// Whether a program is loaded.
    pub rom_loaded: bool,
}

/// What a frame did.
#[derive(Clone, Copy, Debug, PartialEq, Eq, Structural)]
pub struct FrameReport {
    /// Number of cycles that reported no instruction: the machine was
    /// halted, or the word named none.
    pub silent_cycles: u16,
    /// Whether the tone is to sound until the next frame.
    pub beep: bool,
    /// Whether the front end is to leave its loop.
    pub quit: bool,
}

/// Whether `command` can be given at all in this state: what the menu shows
/// as enabled.
pub open spec fn command_enabled(command: Command, emulator_state: EmulatorState, rom_loaded: bool) -> bool {
    match command {
        Command::Open => true,
        Command::Start => emulator_state != EmulatorState::Running && rom_loaded,
        Command::Pause => emulator_state == EmulatorState::Running,
        Command::TogglePause => rom_loaded && (emulator_state == EmulatorState::Running
            || emulator_state == EmulatorState::Paused),
        Command::Reset => emulator_state != EmulatorState::Idle,
        Command::Exit => true,
    }
}

/// What the emulator does after an enabled `command`.
pub open spec fn state_after(command: Command, emulator_state: EmulatorState) -> EmulatorState {
    match command {
        Command::Open => EmulatorState::Idle,
        Command::Start => EmulatorState::Running,
        Command::Pause => EmulatorState::Paused,
        Command::TogglePause => if emulator_state == EmulatorState::Running {
            EmulatorState::Paused
        } else {
            EmulatorState::Running
        },
        Command::Reset => EmulatorState::Idle,
        Command::Exit => EmulatorState::Quit,
    }
}

/// Whether a program is loaded after an enabled `command`.
pub open spec fn rom_loaded_after(command: Command, rom_loaded: bool) -> bool {
    match command {
        Command::Open => true,
        Command::Reset => false,
        _ => rom_loaded,
    }
}

/// `cycles` brought into the range that a frame may run.
pub open spec fn clamp_cycles(cycles: u16) -> u16 {
    if cycles < MIN_CYCLES_PER_FRAME {
        MIN_CYCLES_PER_FRAME
    } else if cycles > MAX_CYCLES_PER_FRAME {
        MAX_CYCLES_PER_FRAME
    } else {
        cycles
    }
}

/// The state after the cycles of one frame, where the random number
/// generator gives `randoms`, one byte per cycle.
pub open spec fn after_cycles(s: MachineState, randoms: Seq<u8>) -> MachineState
    decreases randoms.len(),
{
    if randoms.len() == 0 {
        s
    } else {
        after_cycles(s, randoms.drop_last()).step(randoms.last())
    }
}

/// Number of cycles of one frame that report no instruction.
pub open spec fn silent_cycles(s: MachineState, randoms: Seq<u8>) -> nat
    decreases randoms.len(),
{
    if randoms.len() == 0 {
        0
    } else {
        silent_cycles(s, randoms.drop_last()) + (if after_cycles(
            s,
            randoms.drop_last(),
        ).step_report() is None {
            1nat
        } else {
            0nat
        })
    }
}

impl State {
    /// The state of a user interface that was just opened: every window
    /// closed, no program loaded, the emulator idle.
    pub fn new() -> (state: State)
        ensures
            state.emulator_state == EmulatorState::Idle,
            !state.rom_loaded,
            state.cycles_per_frame == DEFAULT_CYCLES_PER_FRAME,
            state.menu_height is None,
            !state.about_window && !state.metrics_window && !state.palette_window,
            !state.debug_memory_view && !state.debug_stack_view && !state.debug_register_view
                && !state.debug_controls,
    {
        State {
            about_window: false,
            metrics_window: false,
            palette_window: false,
            debug_memory_view: false,
            debug_stack_view: false,
            debug_register_view: false,
            debug_controls: false,
            cycles_per_frame: DEFAULT_CYCLES_PER_FRAME,
            emulator_state: EmulatorState::Idle,
            menu_height: None,
            rom_loaded: false,
        }
    }

    /// Whether `command` can be given now.
    pub fn is_enabled(&self, command: Command) -> (enabled: bool)
        ensures
            enabled == command_enabled(command, self.emulator_state, self.rom_loaded),
    {
        match command {
            Command::Open => true,
            Command::Start => self.emulator_state != EmulatorState::Running && self.rom_loaded,
            Command::Pause => self.emulator_state == EmulatorState::Running,
            Command::TogglePause => self.rom_loaded && (self.emulator_state == EmulatorState::Running
                || self.emulator_state == EmulatorState::Paused),
            Command::Reset => self.emulator_state != EmulatorState::Idle,
            Command::Exit => true,
        }
    }

    /// Whether the debug controls may step the machine by hand: a program is
    /// loaded and the emulator is not idle.
    pub fn can_step(&self) -> (allowed: bool)
        ensures
            allowed == (self.rom_loaded && self.emulator_state != EmulatorState::Idle),
    {
        self.rom_loaded && self.emulator_state != EmulatorState::Idle
    }

    /// Takes a command of the user. A command that is not enabled changes
    /// nothing and gives `false`. The windows and the cycle count stay as
    /// they are in either case. Resetting the machine on `Reset` is left to
    /// the caller.
    pub fn apply(&mut self, command: Command) -> (done: bool)
        ensures
            done == command_enabled(command, old(self).emulator_state, old(self).rom_loaded),
            !done ==> *final(self) == *old(self),
            done ==> *final(self) == (State {
                emulator_state: state_after(command, old(self).emulator_state),
                rom_loaded: rom_loaded_after(command, old(self).rom_loaded),
                ..*old(self)
            }),
    {
        if !self.is_enabled(command) {
            return false;
        }
        match command {
            Command::Open => {
                self.emulator_state = EmulatorState::Idle;
                self.rom_loaded = true;
            },
            Command::Start => {
                self.emulator_state = EmulatorState::Running;
            },
            Command::Pause => {
                self.emulator_state = EmulatorState::Paused;
            },
            Command::TogglePause => {
                self.emulator_state = match self.emulator_state {
                    EmulatorState::Running => EmulatorState::Paused,
                    _ => EmulatorState::Running,
                };
            },
            Command::Reset => {
                self.emulator_state = EmulatorState::Idle;
                self.rom_loaded = false;
            },
            Command::Exit => {
                self.emulator_state = EmulatorState::Quit;
            },
        }
        true
    }

    /// Sets the number of cycles per frame, brought into the range from
    /// `MIN_CYCLES_PER_FRAME` to `MAX_CYCLES_PER_FRAME`.
    pub fn set_cycles_per_frame(&mut self, cycles: u16)
        ensures
            *final(self) == (State { cycles_per_frame: clamp_cycles(cycles), ..*old(self) }),
    {
        self.cycles_per_frame = if cycles < MIN_CYCLES_PER_FRAME {
            MIN_CYCLES_PER_FRAME
        } else if cycles > MAX_CYCLES_PER_FRAME {
            MAX_CYCLES_PER_FRAME
        } else {
            cycles
        };
    }
}

/// Runs `cycles` cycles and gives the number of those that reported no
/// instruction.
pub fn run_cycles(cpu: &mut CPU, cycles: u16) -> (silent: u16)
    ensures
        exists|randoms: Seq<u8>|
            randoms.len() == cycles && final(cpu)@ == #[trigger] after_cycles(old(cpu)@, randoms)
                && silent == silent_cycles(old(cpu)@, randoms),
{
    let mut silent: u16 = 0;
    let mut done: u16 = 0;
    let ghost mut randoms: Seq<u8> = Seq::empty();
    while done < cycles
        invariant
            done <= cycles,
            silent <= done,
            randoms.len() == done,
            cpu@ == after_cycles(old(cpu)@, randoms),
            silent == silent_cycles(old(cpu)@, randoms),
        decreases cycles - done,
    {
        let ghost before = cpu@;
        let report = cpu.execute_cycle();
        proof {
            let random = choose|random: u8| cpu@ == before.step(random);
            let longer = randoms.push(random);
            assert(longer.drop_last() == randoms);
            assert(longer.last() == random);
            randoms = longer;
        }
        if report.is_none() {
            silent += 1;
        }
        done += 1;
    }
    silent
}

/// One frame. A running emulator runs the cycles of the frame and then
/// ticks the timers once; in every other state the machine stays as it is.
/// The tone sounds while the emulator runs and the sound timer is not zero.
pub fn run_frame(cpu: &mut CPU, state: &State) -> (report: FrameReport)
    ensures
        state.emulator_state != EmulatorState::Running ==> final(cpu)@ == old(cpu)@
            && report.silent_cycles == 0,
        state.emulator_state == EmulatorState::Running ==> exists|randoms: Seq<u8>|
            randoms.len() == state.cycles_per_frame && final(cpu)@ == (#[trigger] after_cycles(
                old(cpu)@,
                randoms,
            )).step_timers() && report.silent_cycles == silent_cycles(old(cpu)@, randoms),
        report.beep == (state.emulator_state == EmulatorState::Running && final(cpu)@.st > 0),
        report.quit == (state.emulator_state == EmulatorState::Quit),
{
    let mut silent: u16 = 0;
    match state.emulator_state {
        EmulatorState::Running => {
            silent = run_cycles(cpu, state.cycles_per_frame);
            cpu.step_timers();
        },
        _ => {},
    }
    FrameReport {
        silent_cycles: silent,
        beep: state.emulator_state == EmulatorState::Running && cpu.st > 0,
        quit: state.emulator_state == EmulatorState::Quit,
    }
}

} // verus!
