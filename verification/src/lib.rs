//! An interpreter core for the CHIP-8 virtual machine and its SuperCHIP
//! extension.
//!
//! The core is one owned value, [`CPU`], that a driver steps: some number of
//! instruction cycles per video frame, then one tick of the timers. Each
//! operation is specified over [`MachineState`], the mathematical model of
//! the machine, and proved against it.
//!
//! Where the historical interpreters leave a case open, the core does this:
//!
//! - Memory ends at 4096 bytes. A read behind the end gives zero, a write
//!   there is dropped. This holds for the instruction fetch, for sprites and
//!   for the block and decimal stores and loads.
//! - The stack has 16 slots. A call on a full stack and a return on an empty
//!   one do nothing.
//! - A word that names no instruction is passed over: the program counter
//!   moves behind it and the cycle reports it.
//! - The program counter and the index register have sixteen bits and wrap
//!   there.
//! - A register that is asked for a key and holds no key's number finds that
//!   key released.
//!
//! No operation panics, and none does input or output. The one call that
//! leaves the crate asks the `rand` crate for a byte.

pub mod cpu;
pub mod cycle;
pub mod display;
pub mod display_ops;
pub mod file_dialog;
pub mod font;
pub mod framebuffer;
pub mod frontend;
pub mod instruction;
pub mod keymap;
pub mod laws;
pub mod ops;
pub mod semantics;
pub mod snapshot;
pub mod state;
pub mod vm;

pub use cpu::CPU;
pub use file_dialog::{DialogResult, FileDialog};
pub use frontend::{run_cycles, run_frame, Command, EmulatorState, FrameReport, State};
pub use instruction::{decode, Instruction};
pub use semantics::StepOutcome;
pub use snapshot::Snapshot;
pub use state::MachineState;
pub use vm::Vm;
