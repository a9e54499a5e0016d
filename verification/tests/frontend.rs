use ferrous_core::framebuffer::update_framebuffer;
use ferrous_core::{
    run_cycles, run_frame, Command, DialogResult, EmulatorState, FileDialog, FrameReport, State, CPU,
};

fn counting_machine() -> CPU {
    let mut cpu = CPU::new();
    cpu.load_rom(&[0x70, 0x01, 0x12, 0x00]).unwrap();
    cpu
}

#[test]
fn new_state_is_idle() {
    let state = State::new();
    assert_eq!(state.emulator_state, EmulatorState::Idle);
    assert!(!state.rom_loaded);
    assert_eq!(state.cycles_per_frame, 10);
    assert_eq!(state.menu_height, None);
    assert!(!state.about_window && !state.metrics_window && !state.palette_window);
    assert!(!state.debug_memory_view && !state.debug_stack_view);
    assert!(!state.debug_register_view && !state.debug_controls);
}

#[test]
fn start_needs_a_loaded_program() {
    let mut state = State::new();
    assert!(!state.is_enabled(Command::Start));
    assert!(!state.apply(Command::Start));
    assert_eq!(state.emulator_state, EmulatorState::Idle);
    assert!(state.apply(Command::Open));
    assert!(state.rom_loaded);
    assert_eq!(state.emulator_state, EmulatorState::Idle);
    assert!(state.apply(Command::Start));
    assert_eq!(state.emulator_state, EmulatorState::Running);
    assert!(!state.apply(Command::Start));
}

#[test]
fn pause_needs_a_running_program() {
    let mut state = State::new();
    assert!(!state.apply(Command::Pause));
    state.apply(Command::Open);
    assert!(!state.apply(Command::Pause));
    state.apply(Command::Start);
    assert!(state.apply(Command::Pause));
    assert_eq!(state.emulator_state, EmulatorState::Paused);
    assert!(!state.apply(Command::Pause));
    assert!(state.apply(Command::Start));
    assert_eq!(state.emulator_state, EmulatorState::Running);
}

#[test]
fn toggle_pause_switches_between_running_and_paused() {
    let mut state = State::new();
    assert!(!state.apply(Command::TogglePause));
    state.apply(Command::Open);
    assert!(!state.apply(Command::TogglePause));
    state.apply(Command::Start);
    assert!(state.apply(Command::TogglePause));
    assert_eq!(state.emulator_state, EmulatorState::Paused);
    assert!(state.apply(Command::TogglePause));
    assert_eq!(state.emulator_state, EmulatorState::Running);
}

#[test]
fn reset_forgets_the_program() {
    let mut state = State::new();
    assert!(!state.apply(Command::Reset));
    state.apply(Command::Open);
    state.apply(Command::Start);
    assert!(state.apply(Command::Reset));
    assert_eq!(state.emulator_state, EmulatorState::Idle);
    assert!(!state.rom_loaded);
    assert!(!state.apply(Command::Start));
}

#[test]
fn open_stops_a_running_program() {
    let mut state = State::new();
    state.apply(Command::Open);
    state.apply(Command::Start);
    assert!(state.apply(Command::Open));
    assert_eq!(state.emulator_state, EmulatorState::Idle);
    assert!(state.rom_loaded);
}

#[test]
fn exit_is_always_enabled() {
    let mut state = State::new();
    assert!(state.apply(Command::Exit));
    assert_eq!(state.emulator_state, EmulatorState::Quit);
}

#[test]
fn commands_leave_windows_and_cycles_alone() {
    let mut state = State::new();
    state.about_window = true;
    state.debug_controls = true;
    state.menu_height = Some(19);
    state.set_cycles_per_frame(77);
    state.apply(Command::Open);
    state.apply(Command::Start);
    assert!(state.about_window && state.debug_controls);
    assert_eq!(state.menu_height, Some(19));
    assert_eq!(state.cycles_per_frame, 77);
}

#[test]
fn manual_stepping_needs_a_program_that_is_not_idle() {
    let mut state = State::new();
    assert!(!state.can_step());
    state.apply(Command::Open);
    assert!(!state.can_step());
    state.apply(Command::Start);
    assert!(state.can_step());
    state.apply(Command::Pause);
    assert!(state.can_step());
}

#[test]
fn cycles_per_frame_are_clamped() {
    let mut state = State::new();
    state.set_cycles_per_frame(0);
    assert_eq!(state.cycles_per_frame, 1);
    state.set_cycles_per_frame(1);
    assert_eq!(state.cycles_per_frame, 1);
    state.set_cycles_per_frame(2000);
    assert_eq!(state.cycles_per_frame, 2000);
    state.set_cycles_per_frame(2001);
    assert_eq!(state.cycles_per_frame, 2000);
    state.set_cycles_per_frame(u16::MAX);
    assert_eq!(state.cycles_per_frame, 2000);
}

#[test]
fn running_frame_runs_cycles_then_ticks_once() {
    let mut cpu = counting_machine();
    cpu.dt = 3;
    cpu.st = 1;
    let mut state = State::new();
    state.apply(Command::Open);
    state.apply(Command::Start);
    state.set_cycles_per_frame(10);
    let report = run_frame(&mut cpu, &state);
    assert_eq!(report, FrameReport { silent_cycles: 0, beep: false, quit: false });
    assert_eq!(cpu.register[0], 5);
    assert_eq!(cpu.pc, 0x200);
    assert_eq!(cpu.dt, 2);
    assert_eq!(cpu.st, 0);
}

#[test]
fn tone_sounds_while_the_sound_timer_runs() {
    let mut cpu = counting_machine();
    cpu.st = 2;
    let mut state = State::new();
    state.apply(Command::Open);
    state.apply(Command::Start);
    assert!(run_frame(&mut cpu, &state).beep);
    assert!(!run_frame(&mut cpu, &state).beep);
    cpu.st = 5;
    state.apply(Command::Pause);
    assert!(!run_frame(&mut cpu, &state).beep);
    assert_eq!(cpu.st, 5);
}

#[test]
fn frame_of_an_emulator_that_does_not_run_changes_nothing() {
    for command in [None, Some(Command::Pause), Some(Command::Exit)] {
        let mut cpu = counting_machine();
        cpu.dt = 3;
        let mut state = State::new();
        state.apply(Command::Open);
        state.apply(Command::Start);
        match command {
            None => {
                state.apply(Command::Reset);
            }
            Some(given) => {
                state.apply(given);
            }
        }
        let report = run_frame(&mut cpu, &state);
        assert_eq!(report.silent_cycles, 0);
        assert_eq!(report.quit, command == Some(Command::Exit));
        assert_eq!(cpu.pc, 0x200);
        assert_eq!(cpu.register[0], 0);
        assert_eq!(cpu.dt, 3);
    }
}

#[test]
fn silent_cycles_are_counted() {
    let mut cpu = CPU::new();
    cpu.load_rom(&[0x60, 0x01, 0xFF, 0xFF, 0x00, 0xFD]).unwrap();
    assert_eq!(run_cycles(&mut cpu, 6), 4);
    assert!(cpu.is_halted);
    assert_eq!(cpu.pc, 0x206);
    assert_eq!(run_cycles(&mut cpu, 0), 0);
}

#[test]
fn framebuffer_takes_the_colour_of_each_pixel() {
    let mut framebuffer = [7u8; 24576];
    let mut cpu = CPU::new();
    cpu.vram[1] = 1;
    cpu.vram[8191] = 1;
    update_framebuffer(&mut framebuffer, cpu.get_video_buffer(), [10, 20, 30], [1, 2, 3]);
    assert_eq!(&framebuffer[0..9], &[1, 2, 3, 10, 20, 30, 1, 2, 3]);
    assert_eq!(&framebuffer[24570..24576], &[1, 2, 3, 10, 20, 30]);
}

#[test]
fn framebuffer_with_a_short_video_buffer() {
    let mut framebuffer = [7u8; 24576];
    update_framebuffer(&mut framebuffer, &[0, 5], [10, 20, 30], [1, 2, 3]);
    assert_eq!(&framebuffer[0..8], &[1, 2, 3, 10, 20, 30, 7, 7]);
    assert!(framebuffer[6..].iter().all(|byte| *byte == 7));
}

#[test]
fn framebuffer_with_a_long_video_buffer() {
    let mut framebuffer = [7u8; 24576];
    let video = vec![1u8; 9000];
    update_framebuffer(&mut framebuffer, &video, [10, 20, 30], [1, 2, 3]);
    assert_eq!(&framebuffer[24573..24576], &[10, 20, 30]);
    assert_eq!(&framebuffer[0..3], &[10, 20, 30]);
}

#[test]
fn file_dialog_opens_and_closes() {
    let mut dialog = FileDialog::new();
    assert!(!dialog.is_open);
    assert!(matches!(dialog.query_result(None), DialogResult::Nothing));
    assert!(!dialog.is_open);
    dialog.create_rom_dialog();
    assert!(dialog.is_open);
    assert!(matches!(dialog.query_result(None), DialogResult::Nothing));
    assert!(dialog.is_open);
    let answer = dialog.query_result(Some(DialogResult::RomFile("games/pong.ch8".to_string())));
    match answer {
        DialogResult::RomFile(path) => assert_eq!(path, "games/pong.ch8"),
        DialogResult::Nothing => panic!("the answer was lost"),
    }
    assert!(!dialog.is_open);
}

#[test]
fn cancelled_file_dialog_closes() {
    let mut dialog = FileDialog::new();
    dialog.create_rom_dialog();
    assert!(matches!(dialog.query_result(Some(DialogResult::Nothing)), DialogResult::Nothing));
    assert!(!dialog.is_open);
}
