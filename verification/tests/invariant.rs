use chip8::processor::{lowest_pressed, Processor};

#[test]
fn a_new_machine_is_well_formed() {
    assert!(Processor::new().is_well_formed());
}

#[test]
fn a_machine_stays_well_formed_while_it_runs() {
    let mut p = Processor::new();
    let program: Vec<u8> = vec![
        0x60, 0x3C, 0x61, 0x1E, 0xA0, 0x00, 0xD0, 0x15, 0x22, 0x0C, 0x12, 0x06, 0x70, 0x03, 0x71,
        0x01, 0xF0, 0x1E, 0x00, 0xEE,
    ];
    assert!(p.load_program(program).is_ok());
    for _ in 0..2000 {
        p.tick([false; 16]);
        assert!(p.is_well_formed());
    }
}

#[test]
fn a_program_counter_outside_memory_is_ill_formed() {
    let mut p = Processor::new();
    p.pc = 4095;
    assert!(p.is_well_formed());
    p.pc = 4096;
    assert!(!p.is_well_formed());
}

#[test]
fn a_stack_pointer_above_the_stack_is_ill_formed() {
    let mut p = Processor::new();
    p.sp = 48;
    assert!(p.is_well_formed());
    p.sp = 49;
    assert!(!p.is_well_formed());
}

#[test]
fn a_waiting_register_that_does_not_exist_is_ill_formed() {
    let mut p = Processor::new();
    p.key = 15;
    assert!(p.is_well_formed());
    p.key = 16;
    assert!(!p.is_well_formed());
}

#[test]
fn a_stacked_address_outside_memory_is_ill_formed() {
    let mut p = Processor::new();
    p.stack[47] = 4095;
    assert!(p.is_well_formed());
    p.stack[47] = 4096;
    assert!(!p.is_well_formed());
    p.stack[47] = 0;
    p.stack[0] = 5000;
    assert!(!p.is_well_formed());
}

#[test]
fn a_pixel_that_is_neither_off_nor_on_is_ill_formed() {
    let mut p = Processor::new();
    p.vram[31][63] = 1;
    assert!(p.is_well_formed());
    p.vram[31][63] = 2;
    assert!(!p.is_well_formed());
    p.vram[31][63] = 0;
    p.vram[0][0] = 255;
    assert!(!p.is_well_formed());
}

#[test]
fn any_index_register_is_well_formed() {
    let mut p = Processor::new();
    p.i = usize::MAX;
    assert!(p.is_well_formed());
}

#[test]
fn lowest_pressed_of_no_keys_is_none() {
    assert_eq!(lowest_pressed(&[false; 16]), None);
}

#[test]
fn lowest_pressed_finds_the_first_of_several() {
    let mut keys = [false; 16];
    keys[15] = true;
    assert_eq!(lowest_pressed(&keys), Some(15));
    keys[4] = true;
    keys[9] = true;
    assert_eq!(lowest_pressed(&keys), Some(4));
    keys[0] = true;
    assert_eq!(lowest_pressed(&keys), Some(0));
}
