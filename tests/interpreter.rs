use lascaoito::error::VmError;
use lascaoito::machine::VirtualMachine;
use lascaoito::opcode::Instruction;
use lascaoito::semantics::Mode;

fn machine_with(program: &[u8]) -> VirtualMachine {
    let mut vm = VirtualMachine::new();
    vm.load_program(program).unwrap();
    vm
}

fn run(vm: &mut VirtualMachine, n: usize) {
    for _ in 0..n {
        vm.step(0).unwrap();
    }
}

#[test]
fn add_scenario_three_steps() {
    let mut vm = machine_with(&[0x60, 0x0A, 0x61, 0x05, 0x80, 0x14]);
    run(&mut vm, 3);
    assert_eq!(vm.register(0), 15);
    assert_eq!(vm.register(0xF), 0);
    assert_eq!(vm.pc(), 0x206);
}

#[test]
fn clear_screen_scenario() {
    let mut vm = machine_with(&[0x00, 0xE0]);
    vm.step(0).unwrap();
    let (pixels, dirty) = vm.framebuffer();
    assert_eq!(pixels.len(), 64 * 32);
    assert!(pixels.iter().all(|p| !*p));
    assert!(dirty);
    let (_, dirty_again) = vm.framebuffer();
    assert!(!dirty_again);
}

#[test]
fn add_with_carry_wraps() {
    let mut vm = machine_with(&[0x62, 200, 0x63, 100, 0x82, 0x34]);
    run(&mut vm, 3);
    assert_eq!(vm.register(2), 44);
    assert_eq!(vm.register(0xF), 1);
}

#[test]
fn add_exactly_255_has_no_carry() {
    let mut vm = machine_with(&[0x62, 200, 0x63, 55, 0x82, 0x34]);
    run(&mut vm, 3);
    assert_eq!(vm.register(2), 255);
    assert_eq!(vm.register(0xF), 0);
}

#[test]
fn subtract_with_borrow_wraps() {
    let mut vm = machine_with(&[0x64, 5, 0x65, 10, 0x84, 0x55]);
    run(&mut vm, 3);
    assert_eq!(vm.register(4), 251);
    assert_eq!(vm.register(0xF), 1);
}

#[test]
fn subtract_equal_values_has_no_borrow() {
    let mut vm = machine_with(&[0x64, 9, 0x65, 9, 0x84, 0x55]);
    run(&mut vm, 3);
    assert_eq!(vm.register(4), 0);
    assert_eq!(vm.register(0xF), 0);
}

#[test]
fn reverse_subtract_sets_borrow() {
    let mut vm = machine_with(&[0x64, 10, 0x65, 3, 0x84, 0x57]);
    run(&mut vm, 3);
    assert_eq!(vm.register(4), 249);
    assert_eq!(vm.register(0xF), 1);
}

#[test]
fn shifts_move_the_lost_bit_into_vf() {
    let mut vm = machine_with(&[0x61, 0x81, 0x81, 0x06, 0x62, 0x81, 0x82, 0x0E]);
    run(&mut vm, 2);
    assert_eq!(vm.register(1), 0x40);
    assert_eq!(vm.register(0xF), 1);
    run(&mut vm, 2);
    assert_eq!(vm.register(2), 0x02);
    assert_eq!(vm.register(0xF), 1);
}

#[test]
fn bitwise_operations_and_assign() {
    let mut vm = machine_with(&[
        0x60, 0b1100, 0x61, 0b1010, 0x80, 0x11, 0x62, 0b1100, 0x82, 0x12, 0x63, 0b1100, 0x83,
        0x13, 0x84, 0x10,
    ]);
    run(&mut vm, 8);
    assert_eq!(vm.register(0), 0b1110);
    assert_eq!(vm.register(2), 0b1000);
    assert_eq!(vm.register(3), 0b0110);
    assert_eq!(vm.register(4), 0b1010);
}

#[test]
fn add_immediate_wraps_without_flag() {
    let mut vm = machine_with(&[0x6F, 7, 0x60, 250, 0x70, 10]);
    run(&mut vm, 3);
    assert_eq!(vm.register(0), 4);
    assert_eq!(vm.register(0xF), 7);
}

#[test]
fn draw_twice_restores_pixels() {
    // I := 0x20C (the sprite byte right after the code), draw twice at (V0, V1) = (10, 5).
    let mut vm = machine_with(&[0xA2, 0x0C, 0x60, 10, 0x61, 5, 0xD0, 0x11, 0xD0, 0x11, 0x00, 0x00, 0xA5]);
    run(&mut vm, 4);
    assert_eq!(vm.register(0xF), 0);
    assert!(vm.pixel(10, 5));
    assert!(!vm.pixel(11, 5));
    assert!(vm.pixel(12, 5));
    assert!(vm.pixel(17, 5));
    vm.step(0).unwrap();
    assert_eq!(vm.register(0xF), 1);
    let (pixels, dirty) = vm.framebuffer();
    assert!(pixels.iter().all(|p| !*p));
    assert!(dirty);
}

#[test]
fn draw_wraps_around_both_edges() {
    // Sprite 0xFF, 0x81 at (63, 31).
    let mut vm = machine_with(&[0xA2, 0x08, 0x60, 63, 0x61, 31, 0xD0, 0x12, 0xFF, 0x81]);
    run(&mut vm, 4);
    assert_eq!(vm.register(0xF), 0);
    // Row 0 of the sprite lands on screen row 31, row 1 on screen row 0.
    assert!(vm.pixel(63, 31));
    assert!(vm.pixel(0, 31));
    assert!(vm.pixel(6, 31));
    assert!(!vm.pixel(7, 31));
    assert!(vm.pixel(63, 0));
    assert!(!vm.pixel(0, 0));
    assert!(vm.pixel(6, 0));
}

#[test]
fn draw_past_memory_end_is_refused() {
    let mut vm = machine_with(&[0xAF, 0xFE, 0xD0, 0x05]);
    vm.step(0).unwrap();
    assert_eq!(vm.step(0), Err(VmError::OutOfBounds));
    assert_eq!(vm.pc(), 0x202);
}

#[test]
fn call_then_return_restores_pc_and_stack() {
    let mut vm = machine_with(&[0x23, 0x00]);
    vm.write_byte(0x300, 0x00).unwrap();
    vm.write_byte(0x301, 0xEE).unwrap();
    let sp = vm.stack_pointer();
    vm.step(0).unwrap();
    assert_eq!(vm.pc(), 0x300);
    assert_eq!(vm.stack_pointer(), sp + 1);
    vm.step(0).unwrap();
    assert_eq!(vm.pc(), 0x202);
    assert_eq!(vm.stack_pointer(), sp);
}

#[test]
fn return_on_empty_stack_underflows() {
    let mut vm = machine_with(&[0x00, 0xEE]);
    assert_eq!(vm.step(0), Err(VmError::StackUnderflow));
    assert_eq!(vm.pc(), 0x200);
}

#[test]
fn seventeenth_nested_call_overflows() {
    // A subroutine that calls itself.
    let mut vm = machine_with(&[0x22, 0x00]);
    run(&mut vm, 16);
    assert_eq!(vm.stack_pointer(), 16);
    assert_eq!(vm.step(0), Err(VmError::StackOverflow));
    assert_eq!(vm.stack_pointer(), 16);
}

#[test]
fn sound_timer_reaches_zero_one_step_after_reading_one() {
    let mut vm = machine_with(&[0x60, 2, 0xF0, 0x18, 0x61, 0x00]);
    run(&mut vm, 2);
    assert_eq!(vm.sound_timer(), 1);
    vm.step(0).unwrap();
    assert_eq!(vm.sound_timer(), 0);
}

#[test]
fn delay_timer_counts_down_and_is_readable() {
    let mut vm = machine_with(&[0x60, 5, 0xF0, 0x15, 0xF1, 0x07]);
    run(&mut vm, 2);
    assert_eq!(vm.delay_timer(), 4);
    vm.step(0).unwrap();
    assert_eq!(vm.register(1), 4);
    assert_eq!(vm.delay_timer(), 3);
}

#[test]
fn unknown_opcode_leaves_pc_unchanged() {
    let mut vm = machine_with(&[0xF0, 0xFA]);
    assert_eq!(vm.step(0), Err(VmError::UnknownOpcode(0xF0FA)));
    assert_eq!(vm.pc(), 0x200);
    assert_eq!(vm.step(0), Err(VmError::UnknownOpcode(0xF0FA)));
}

#[test]
fn unknown_opcodes_in_other_classes() {
    assert_eq!(Instruction::decode(0x8008), None);
    assert_eq!(Instruction::decode(0xE09F), None);
    assert_eq!(Instruction::decode(0x00E5), None);
}

#[test]
fn decode_splits_fields() {
    assert_eq!(Instruction::decode(0x00E0), Some(Instruction::ClearScreen));
    assert_eq!(Instruction::decode(0x00EE), Some(Instruction::Return));
    assert_eq!(Instruction::decode(0x1ABC), Some(Instruction::Jump { nnn: 0xABC }));
    assert_eq!(Instruction::decode(0xD12F), Some(Instruction::Draw { x: 1, y: 2, n: 0xF }));
    assert_eq!(Instruction::decode(0x8AB6), Some(Instruction::ShiftRight { x: 0xA }));
    assert_eq!(Instruction::decode(0xC3F0), Some(Instruction::Random { x: 3, nn: 0xF0 }));
    assert_eq!(Instruction::decode(0xF565), Some(Instruction::Load { x: 5 }));
}

#[test]
fn fetch_past_memory_end_fails() {
    let mut vm = machine_with(&[0x1F, 0xFF]);
    vm.step(0).unwrap();
    assert_eq!(vm.pc(), 0xFFF);
    assert_eq!(vm.step(0), Err(VmError::FetchOutOfBounds));
    assert_eq!(vm.pc(), 0xFFF);
}

#[test]
fn program_too_large_is_refused() {
    let mut vm = VirtualMachine::new();
    let big = vec![0u8; 3585];
    assert_eq!(vm.load_program(&big), Err(VmError::ProgramTooLarge));
    let fits = vec![7u8; 3584];
    assert_eq!(vm.load_program(&fits), Ok(()));
    assert_eq!(vm.read_byte(4095), Ok(7));
}

#[test]
fn memory_access_bounds() {
    let mut vm = VirtualMachine::new();
    assert_eq!(vm.read_byte(4096), Err(VmError::OutOfBounds));
    assert_eq!(vm.write_byte(4096, 1), Err(VmError::OutOfBounds));
    assert_eq!(vm.write_byte(4095, 9), Ok(()));
    assert_eq!(vm.read_byte(4095), Ok(9));
}

#[test]
fn new_machine_holds_font_and_starts_at_512() {
    let vm = VirtualMachine::new();
    assert_eq!(vm.pc(), 0x200);
    assert_eq!(vm.read_byte(0), Ok(0xF0));
    assert_eq!(vm.read_byte(5), Ok(0x20));
    assert_eq!(vm.read_byte(79), Ok(0x80));
    assert_eq!(vm.read_byte(80), Ok(0));
    assert_eq!(vm.stack_pointer(), 0);
    assert_eq!(vm.mode(), Mode::Running);
}

#[test]
fn skips_on_registers_and_immediates() {
    let mut vm = machine_with(&[0x60, 3, 0x30, 3, 0x00, 0x00, 0x40, 3, 0x61, 3, 0x50, 0x10]);
    run(&mut vm, 2);
    assert_eq!(vm.pc(), 0x206);
    vm.step(0).unwrap();
    assert_eq!(vm.pc(), 0x208);
    vm.step(0).unwrap();
    vm.step(0).unwrap();
    assert_eq!(vm.pc(), 0x20E);
}

#[test]
fn skip_if_registers_differ() {
    let mut vm = machine_with(&[0x60, 1, 0x90, 0x10]);
    run(&mut vm, 2);
    assert_eq!(vm.pc(), 0x206);
}

#[test]
fn key_skips_follow_the_keypad() {
    let mut vm = machine_with(&[0x60, 0x7, 0xE0, 0x9E, 0x00, 0x00, 0xE0, 0xA1]);
    vm.set_key(7, true);
    run(&mut vm, 2);
    assert_eq!(vm.pc(), 0x206);
    vm.step(0).unwrap();
    assert_eq!(vm.pc(), 0x208);
}

#[test]
fn key_beyond_the_keypad_is_never_pressed() {
    let mut vm = machine_with(&[0x60, 0x20, 0xE0, 0xA1]);
    run(&mut vm, 2);
    assert_eq!(vm.pc(), 0x206);
}

#[test]
fn wait_for_key_holds_until_a_key_is_pressed() {
    let mut vm = machine_with(&[0xF3, 0x0A, 0x00, 0xE0]);
    vm.step(0).unwrap();
    assert_eq!(vm.mode(), Mode::AwaitingKey { x: 3 });
    vm.step(0).unwrap();
    assert_eq!(vm.pc(), 0x200);
    assert_eq!(vm.mode(), Mode::AwaitingKey { x: 3 });
    vm.set_key(2, true);
    vm.set_key(9, true);
    vm.step(0).unwrap();
    assert_eq!(vm.register(3), 9);
    assert_eq!(vm.pc(), 0x202);
    assert_eq!(vm.mode(), Mode::Running);
}

#[test]
fn timers_tick_while_waiting_unless_disabled() {
    let mut vm = machine_with(&[0x60, 10, 0xF0, 0x15, 0xF1, 0x0A]);
    run(&mut vm, 3);
    assert_eq!(vm.delay_timer(), 8);
    vm.step(0).unwrap();
    assert_eq!(vm.delay_timer(), 7);
    vm.set_tick_while_waiting(false);
    vm.step(0).unwrap();
    assert_eq!(vm.delay_timer(), 7);
}

#[test]
fn index_register_operations() {
    let mut vm = machine_with(&[0xAF, 0xFE, 0x60, 3, 0xF0, 0x1E, 0x61, 0xB, 0xF1, 0x29]);
    run(&mut vm, 3);
    assert_eq!(vm.index(), 0x1001);
    assert_eq!(vm.register(0xF), 1);
    run(&mut vm, 2);
    assert_eq!(vm.index(), 55);
}

#[test]
fn add_to_index_without_overflow_clears_flag() {
    let mut vm = machine_with(&[0x6F, 1, 0xA1, 0x00, 0x60, 3, 0xF0, 0x1E]);
    run(&mut vm, 4);
    assert_eq!(vm.index(), 0x103);
    assert_eq!(vm.register(0xF), 0);
}

#[test]
fn bcd_stores_three_digits() {
    let mut vm = machine_with(&[0x60, 254, 0xA3, 0x00, 0xF0, 0x33]);
    run(&mut vm, 3);
    assert_eq!(vm.read_byte(0x300), Ok(2));
    assert_eq!(vm.read_byte(0x301), Ok(5));
    assert_eq!(vm.read_byte(0x302), Ok(4));
}

#[test]
fn bcd_past_memory_end_is_refused() {
    let mut vm = machine_with(&[0xAF, 0xFE, 0xF0, 0x33]);
    vm.step(0).unwrap();
    assert_eq!(vm.step(0), Err(VmError::OutOfBounds));
}

#[test]
fn dump_and_load_registers() {
    let mut vm = machine_with(&[
        0x60, 1, 0x61, 2, 0x62, 3, 0xA3, 0x00, 0xF2, 0x55, 0xA3, 0x01, 0xF1, 0x65,
    ]);
    run(&mut vm, 5);
    assert_eq!(vm.read_byte(0x300), Ok(1));
    assert_eq!(vm.read_byte(0x301), Ok(2));
    assert_eq!(vm.read_byte(0x302), Ok(3));
    assert_eq!(vm.index(), 0x303);
    run(&mut vm, 2);
    assert_eq!(vm.register(0), 2);
    assert_eq!(vm.register(1), 3);
    assert_eq!(vm.register(2), 3);
    assert_eq!(vm.index(), 0x303);
}

#[test]
fn dump_past_memory_end_is_refused() {
    let mut vm = machine_with(&[0xAF, 0xFF, 0xF1, 0x55]);
    vm.step(0).unwrap();
    assert_eq!(vm.step(0), Err(VmError::OutOfBounds));
    assert_eq!(vm.index(), 0xFFF);
}

#[test]
fn jump_with_offset() {
    let mut vm = machine_with(&[0x60, 0x10, 0xB3, 0x00]);
    run(&mut vm, 2);
    assert_eq!(vm.pc(), 0x310);
}

#[test]
fn random_byte_is_masked() {
    let mut vm = machine_with(&[0xC0, 0x0F, 0xC1, 0xF0]);
    vm.step(0xAB).unwrap();
    assert_eq!(vm.register(0), 0x0B);
    vm.run_cycle().unwrap();
    assert_eq!(vm.register(1) & 0x0F, 0);
}

#[test]
fn execute_runs_a_decoded_instruction() {
    let mut vm = VirtualMachine::new();
    vm.execute(Instruction::SetImm { x: 4, nn: 0x42 }, 0).unwrap();
    assert_eq!(vm.register(4), 0x42);
    assert_eq!(vm.pc(), 0x202);
}

#[test]
fn dump_to_the_last_byte_moves_index_past_memory() {
    let mut vm = machine_with(&[0x60, 7, 0x61, 8, 0xAF, 0xFE, 0xF1, 0x55, 0xF0, 0x65]);
    run(&mut vm, 4);
    assert_eq!(vm.read_byte(0xFFE), Ok(7));
    assert_eq!(vm.read_byte(0xFFF), Ok(8));
    assert_eq!(vm.index(), 0x1000);
    assert_eq!(vm.step(0), Err(VmError::OutOfBounds));
    assert_eq!(vm.index(), 0x1000);
}
