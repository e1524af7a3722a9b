use chip8::output::ProcessorState;
use chip8::processor::Processor;

fn with_program(program: &[u8]) -> Processor {
    let mut p = Processor::new();
    assert!(p.load_program(program.to_vec()).is_ok());
    p
}

fn no_keys() -> [bool; 16] {
    [false; 16]
}

#[test]
fn tick_executes_the_instruction_at_the_program_counter() {
    let mut p = with_program(&[0x63, 0x2A, 0x73, 0x01]);
    let state: ProcessorState = p.tick(no_keys());
    assert_eq!(p.registers[3], 0x2A);
    assert_eq!(p.pc, 0x202);
    assert!(!state.vram_changed);
    assert!(!state.beep);
    p.tick(no_keys());
    assert_eq!(p.registers[3], 0x2B);
    assert_eq!(p.pc, 0x204);
}

#[test]
fn tick_reads_the_high_byte_first() {
    let mut p = with_program(&[0x12, 0x34]);
    assert_eq!(p.get_opcode(), 0x1234);
    p.tick(no_keys());
    assert_eq!(p.pc, 0x234);
}

#[test]
fn tick_fetches_around_the_end_of_memory() {
    let mut p = Processor::new();
    p.memory[4095] = 0x6F;
    p.memory[0] = 0x11;
    p.pc = 4095;
    assert_eq!(p.get_opcode(), 0x6F11);
    p.tick(no_keys());
    assert_eq!(p.registers[0xF], 0x11);
    assert_eq!(p.pc, 1);
}

#[test]
fn tick_counts_both_timers_down_to_zero() {
    let mut p = with_program(&[0x00, 0x00, 0x00, 0x00, 0x00, 0x00]);
    p.delay_timer = 2;
    p.sound_timer = 1;
    let state = p.tick(no_keys());
    assert_eq!(p.delay_timer, 1);
    assert_eq!(p.sound_timer, 0);
    assert!(!state.beep);
    p.tick(no_keys());
    assert_eq!(p.delay_timer, 0);
    assert_eq!(p.sound_timer, 0);
    p.tick(no_keys());
    assert_eq!(p.delay_timer, 0);
    assert_eq!(p.sound_timer, 0);
}

#[test]
fn tick_beeps_while_the_sound_timer_runs() {
    let mut p = with_program(&[0x00, 0x00, 0x00, 0x00, 0x00, 0x00]);
    p.sound_timer = 3;
    assert!(p.tick(no_keys()).beep);
    assert!(p.tick(no_keys()).beep);
    assert!(!p.tick(no_keys()).beep);
}

#[test]
fn tick_counts_down_before_the_instruction_reads_the_timer() {
    let mut p = with_program(&[0xF1, 0x07, 0xF2, 0x18]);
    p.delay_timer = 10;
    p.registers[2] = 5;
    p.tick(no_keys());
    assert_eq!(p.registers[1], 9);
    let state = p.tick(no_keys());
    assert_eq!(p.sound_timer, 5);
    assert!(state.beep);
}

#[test]
fn tick_replaces_the_keypad() {
    let mut p = with_program(&[0xE1, 0x9E, 0x00, 0x00, 0xE1, 0x9E]);
    p.registers[1] = 0xB;
    let mut keys = no_keys();
    keys[0xB] = true;
    p.tick(keys);
    assert_eq!(p.keypad, keys);
    assert_eq!(p.pc, 0x204);
    p.tick(no_keys());
    assert_eq!(p.keypad, no_keys());
    assert_eq!(p.pc, 0x206);
}

#[test]
fn tick_reports_the_framebuffer_and_its_change() {
    let mut p = with_program(&[0xD0, 0x05, 0x60, 0x00, 0x00, 0xE0]);
    let drawn = p.tick(no_keys());
    assert!(drawn.vram_changed);
    assert_eq!(drawn.vram, p.vram);
    assert_eq!(drawn.vram[0][0], 1);
    assert_eq!(drawn.vram[1][0], 1);
    assert_eq!(drawn.vram[1][1], 0);
    let idle = p.tick(no_keys());
    assert!(!idle.vram_changed);
    assert!(!p.vram_changed);
    assert_eq!(idle.vram, drawn.vram);
    let cleared = p.tick(no_keys());
    assert!(cleared.vram_changed);
    assert_eq!(cleared.vram, [[0u8; 64]; 32]);
}

#[test]
fn key_wait_takes_the_pressed_key_and_stops_the_timers() {
    let mut p = with_program(&[0xF3, 0x0A, 0x63, 0x01]);
    p.tick(no_keys());
    assert!(p.keypresswait);
    assert_eq!(p.key, 3);
    assert_eq!(p.pc, 0x202);
    p.delay_timer = 9;
    p.sound_timer = 4;
    let mut keys = no_keys();
    keys[7] = true;
    let state = p.tick(keys);
    assert!(!p.keypresswait);
    assert_eq!(p.registers[3], 7);
    assert_eq!(p.delay_timer, 9);
    assert_eq!(p.sound_timer, 4);
    assert_eq!(p.pc, 0x202);
    assert!(state.beep);
    assert!(!state.vram_changed);
}

#[test]
fn key_wait_goes_on_while_no_key_is_pressed() {
    let mut p = with_program(&[0xF3, 0x0A, 0x63, 0x01]);
    p.tick(no_keys());
    p.delay_timer = 9;
    for _ in 0..5 {
        p.tick(no_keys());
        assert!(p.keypresswait);
        assert_eq!(p.pc, 0x202);
        assert_eq!(p.delay_timer, 9);
        assert_eq!(p.registers[3], 0);
    }
}

#[test]
fn key_wait_takes_the_lowest_of_several_keys() {
    let mut p = with_program(&[0xF5, 0x0A]);
    p.tick(no_keys());
    let mut keys = no_keys();
    keys[0xC] = true;
    keys[0x2] = true;
    keys[0x9] = true;
    p.tick(keys);
    assert_eq!(p.registers[5], 2);
    assert!(!p.keypresswait);
}

#[test]
fn key_wait_takes_key_zero() {
    let mut p = with_program(&[0xF5, 0x0A]);
    p.registers[5] = 0xEE;
    p.tick(no_keys());
    let mut keys = no_keys();
    keys[0] = true;
    p.tick(keys);
    assert_eq!(p.registers[5], 0);
    assert!(!p.keypresswait);
}

#[test]
fn execution_resumes_after_the_key_wait() {
    let mut p = with_program(&[0xF3, 0x0A, 0x64, 0x55]);
    p.tick(no_keys());
    let mut keys = no_keys();
    keys[0xF] = true;
    p.tick(keys);
    assert_eq!(p.registers[3], 0xF);
    p.tick(no_keys());
    assert_eq!(p.registers[4], 0x55);
    assert_eq!(p.pc, 0x204);
}

#[test]
fn the_program_counter_stays_inside_memory_and_keeps_its_parity() {
    let mut p = with_program(&[0x60, 0x01, 0x30, 0x01, 0x00, 0x00, 0x70, 0x01]);
    for _ in 0..5000 {
        let before = p.pc;
        p.tick(no_keys());
        assert!(p.pc < 4096);
        assert_eq!(p.pc % 2, before % 2);
    }
}

#[test]
fn a_subroutine_runs_and_returns_through_ticks() {
    let mut p = with_program(&[0x22, 0x06, 0x61, 0x02, 0x00, 0x00, 0x60, 0x01, 0x00, 0xEE]);
    p.tick(no_keys());
    assert_eq!(p.pc, 0x206);
    assert_eq!(p.sp, 1);
    p.tick(no_keys());
    assert_eq!(p.registers[0], 1);
    p.tick(no_keys());
    assert_eq!(p.pc, 0x202);
    assert_eq!(p.sp, 0);
    p.tick(no_keys());
    assert_eq!(p.registers[1], 2);
}
