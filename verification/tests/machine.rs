use chip8::cpu::Cpu;
use chip8::semantics::CpuError;
use chip8::types::Register;

#[test]
fn test_dimensions() {
    let cpu = Cpu::new();
    assert_eq!(cpu.width(), 64);
    assert_eq!(cpu.height(), 32);
}

#[test]
fn test_font_table_in_memory() {
    let cpu = Cpu::new();
    assert_eq!(cpu.read_memory(0x050), Some(0xF0));
    assert_eq!(cpu.read_memory(0x051), Some(0x90));
    assert_eq!(cpu.read_memory(0x09B), Some(0xF0));
    assert_eq!(cpu.read_memory(0x09F), Some(0x80));
    assert_eq!(cpu.read_memory(0x000), Some(0x00));
    assert_eq!(cpu.read_memory(0x200), Some(0x00));
    assert_eq!(cpu.read_memory(4095), Some(0x00));
    assert_eq!(cpu.read_memory(4096), None);
}

#[test]
fn test_load_places_program_and_resets_rest() {
    let mut cpu = Cpu::new();
    cpu.load(&vec![0x60, 0x2A]);
    assert_eq!(cpu.read_memory(0x200), Some(0x60));
    assert_eq!(cpu.read_memory(0x201), Some(0x2A));
    assert_eq!(cpu.read_memory(0x202), Some(0x00));
    assert_eq!(cpu.read_memory(0x050), Some(0xF0));
    cpu.load(&vec![0x61, 0x07]);
    assert_eq!(cpu.read_memory(0x200), Some(0x61));
    assert_eq!(cpu.read_memory(0x201), Some(0x07));
}

#[test]
fn test_set_all_then_query_all_set() {
    let mut cpu = Cpu::new();
    cpu.load(&vec![0x00, 0xE1]);
    assert_eq!(cpu.tick(), Ok(()));
    let bits = cpu.display();
    assert_eq!(bits.len(), 2048);
    assert!(bits.iter().all(|b| *b));
}

#[test]
fn test_cls_then_query_all_clear() {
    let mut cpu = Cpu::new();
    cpu.load(&vec![0x00, 0xE1, 0x00, 0xE0]);
    assert_eq!(cpu.tick(), Ok(()));
    let bits = cpu.display();
    assert_eq!(bits.len(), 2048);
    assert!(bits.iter().all(|b| !*b));
}

#[test]
fn test_register_instructions() {
    let mut cpu = Cpu::new();
    // Clear the screen, store 255 in V0, add 1 (wrapping to 0), then the
    // skip-if-equal consumes the instruction that would add 17 more.
    cpu.load(&vec![0x00, 0xE0, 0x60, 0xFF, 0x70, 0x01, 0x30, 0x00, 0x70, 0x11]);
    assert_eq!(cpu.tick(), Ok(()));
    assert_eq!(cpu.get_from_register(Register::V0), 0);
}

#[test]
fn test_skip_eq_advances_by_four() {
    let mut cpu = Cpu::new();
    // V0 == 0, so the skip consumes the following word: the pointer
    // moves 4 for that step, then 2 more for the halting fetch.
    cpu.load(&vec![0x30, 0x00]);
    assert_eq!(cpu.tick(), Ok(()));
    assert_eq!(cpu.instruction_pointer(), 0x204 + 2);
}

#[test]
fn test_skip_eq_not_taken_advances_by_two() {
    let mut cpu = Cpu::new();
    // V0 != 5: no skip, so the pointer moves only 2 for that step,
    // then 2 more for the halting fetch.
    cpu.load(&vec![0x30, 0x05]);
    assert_eq!(cpu.tick(), Ok(()));
    assert_eq!(cpu.instruction_pointer(), 0x202 + 2);
}

#[test]
fn test_add_reg_sets_carry() {
    let mut cpu = Cpu::new();
    // V0 = 255, V1 = 1, V0 += V1: wraps to 0 with VF = 1.
    cpu.load(&vec![0x60, 0xFF, 0x61, 0x01, 0x80, 0x14]);
    assert_eq!(cpu.tick(), Ok(()));
    assert_eq!(cpu.get_from_register(Register::V0), 0);
    assert_eq!(cpu.get_from_register(Register::Vf), 1);
}

#[test]
fn test_add_reg_no_carry() {
    let mut cpu = Cpu::new();
    cpu.load(&vec![0x60, 0x10, 0x61, 0x20, 0x80, 0x14]);
    assert_eq!(cpu.tick(), Ok(()));
    assert_eq!(cpu.get_from_register(Register::V0), 0x30);
    assert_eq!(cpu.get_from_register(Register::Vf), 0);
}

#[test]
fn test_sub_no_borrow_sets_flag() {
    let mut cpu = Cpu::new();
    // V0 = 5, V1 = 3, V0 -= V1: no borrow, so VF = 1.
    cpu.load(&vec![0x60, 0x05, 0x61, 0x03, 0x80, 0x15]);
    assert_eq!(cpu.tick(), Ok(()));
    assert_eq!(cpu.get_from_register(Register::V0), 2);
    assert_eq!(cpu.get_from_register(Register::Vf), 1);
}

#[test]
fn test_sub_borrow_clears_flag() {
    let mut cpu = Cpu::new();
    // V0 = 3, V1 = 5, V0 -= V1: borrow, so VF = 0 and the value wraps.
    cpu.load(&vec![0x60, 0x03, 0x61, 0x05, 0x80, 0x15]);
    assert_eq!(cpu.tick(), Ok(()));
    assert_eq!(cpu.get_from_register(Register::V0), 254);
    assert_eq!(cpu.get_from_register(Register::Vf), 0);
}

#[test]
fn test_subn_no_borrow_sets_flag() {
    let mut cpu = Cpu::new();
    // V0 = 3, V1 = 5, V0 = V1 - V0: no borrow, so VF = 1.
    cpu.load(&vec![0x60, 0x03, 0x61, 0x05, 0x80, 0x17]);
    assert_eq!(cpu.tick(), Ok(()));
    assert_eq!(cpu.get_from_register(Register::V0), 2);
    assert_eq!(cpu.get_from_register(Register::Vf), 1);
}

#[test]
fn test_subn_borrow_clears_flag() {
    let mut cpu = Cpu::new();
    // V0 = 5, V1 = 3, V0 = V1 - V0: borrow, so VF = 0.
    cpu.load(&vec![0x60, 0x05, 0x61, 0x03, 0x80, 0x17]);
    assert_eq!(cpu.tick(), Ok(()));
    assert_eq!(cpu.get_from_register(Register::V0), 254);
    assert_eq!(cpu.get_from_register(Register::Vf), 0);
}

#[test]
fn test_shift_right_keeps_low_bit() {
    let mut cpu = Cpu::new();
    // V1 = 7, V0 = V1 >> 1 = 3 with VF = 1 (shifted-out bit).
    cpu.load(&vec![0x61, 0x07, 0x80, 0x16]);
    assert_eq!(cpu.tick(), Ok(()));
    assert_eq!(cpu.get_from_register(Register::V0), 3);
    assert_eq!(cpu.get_from_register(Register::Vf), 1);
}

#[test]
fn test_shift_left_keeps_high_bit() {
    let mut cpu = Cpu::new();
    // V1 = 0x81, V0 = V1 << 1 = 0x02 with VF = 1 (shifted-out bit).
    cpu.load(&vec![0x61, 0x81, 0x80, 0x1E]);
    assert_eq!(cpu.tick(), Ok(()));
    assert_eq!(cpu.get_from_register(Register::V0), 0x02);
    assert_eq!(cpu.get_from_register(Register::Vf), 1);
}

#[test]
fn test_bitwise_ops() {
    let mut cpu = Cpu::new();
    // V0 = 0b1100, V1 = 0b1010, V0 |= V1.
    cpu.load(&vec![0x60, 0x0C, 0x61, 0x0A, 0x80, 0x11]);
    assert_eq!(cpu.tick(), Ok(()));
    assert_eq!(cpu.get_from_register(Register::V0), 0x0E);
    let mut cpu2 = Cpu::new();
    cpu2.load(&vec![0x60, 0x0C, 0x61, 0x0A, 0x80, 0x12]);
    assert_eq!(cpu2.tick(), Ok(()));
    assert_eq!(cpu2.get_from_register(Register::V0), 0x08);
    let mut cpu3 = Cpu::new();
    cpu3.load(&vec![0x60, 0x0C, 0x61, 0x0A, 0x80, 0x13]);
    assert_eq!(cpu3.tick(), Ok(()));
    assert_eq!(cpu3.get_from_register(Register::V0), 0x06);
}

#[test]
fn test_bcd_of_255() {
    let mut cpu = Cpu::new();
    // V0 = 0xFF, I = 0x300, then store the decimal digits of V0.
    cpu.load(&vec![0x60, 0xFF, 0xA3, 0x00, 0xF0, 0x33]);
    assert_eq!(cpu.tick(), Ok(()));
    assert_eq!(cpu.read_memory(0x300), Some(2));
    assert_eq!(cpu.read_memory(0x301), Some(5));
    assert_eq!(cpu.read_memory(0x302), Some(5));
}

#[test]
fn test_store_and_load_registers() {
    let mut cpu = Cpu::new();
    // V0 = 7, V1 = 9, I = 0x300, store V0..=V1, then overwrite V0 and
    // V1 and load them back.
    cpu.load(&vec![
        0x60, 0x07, 0x61, 0x09, 0xA3, 0x00, 0xF1, 0x55, 0x60, 0x00, 0x61, 0x00, 0xF1, 0x65,
    ]);
    assert_eq!(cpu.tick(), Ok(()));
    assert_eq!(cpu.read_memory(0x300), Some(7));
    assert_eq!(cpu.read_memory(0x301), Some(9));
    assert_eq!(cpu.tick(), Ok(()));
    assert_eq!(cpu.get_from_register(Register::V0), 7);
    assert_eq!(cpu.get_from_register(Register::V1), 9);
}

#[test]
fn test_font_addr_points_at_glyph() {
    let mut cpu = Cpu::new();
    // V0 = 0xA7: the low nibble 7 selects the glyph at 0x50 + 5 * 7 =
    // 0x73. Writing the decimal digits of V1 (all zero) through I then
    // overwrites the first bytes of that glyph, which pins down where I
    // pointed.
    assert_eq!(cpu.read_memory(0x73), Some(0xF0));
    cpu.load(&vec![0x60, 0xA7, 0xF0, 0x29, 0xF1, 0x33]);
    assert_eq!(cpu.tick(), Ok(()));
    assert_eq!(cpu.read_memory(0x73), Some(0));
    assert_eq!(cpu.read_memory(0x74), Some(0));
    assert_eq!(cpu.read_memory(0x75), Some(0));
    // The rest of the glyph is untouched.
    assert_eq!(cpu.read_memory(0x76), Some(0x40));
}

#[test]
fn test_add_i() {
    let mut cpu = Cpu::new();
    // I = 0x100, V0 = 0x10, I += V0, then BCD of V1 (0) lands at 0x110.
    cpu.load(&vec![0xA1, 0x00, 0x60, 0x10, 0xF0, 0x1E, 0xF1, 0x33]);
    assert_eq!(cpu.tick(), Ok(()));
    assert_eq!(cpu.read_memory(0x110), Some(0));
}

#[test]
fn test_jump_sets_pointer() {
    let mut cpu = Cpu::new();
    cpu.load(&vec![0x13, 0x00]);
    assert_eq!(cpu.tick(), Ok(()));
    // The jump lands on empty memory, which halts the tick at 0x300.
    assert_eq!(cpu.instruction_pointer(), 0x302);
}

#[test]
fn test_jump_offset_adds_v0() {
    let mut cpu = Cpu::new();
    cpu.load(&vec![0x60, 0x10, 0xB3, 0x00]);
    assert_eq!(cpu.tick(), Ok(()));
    assert_eq!(cpu.instruction_pointer(), 0x312);
}

#[test]
fn test_timers_set_read_and_saturate() {
    let mut cpu = Cpu::new();
    // V0 = 2, delay = V0, sound = V0, V1 = delay.
    cpu.load(&vec![0x60, 0x02, 0xF0, 0x15, 0xF0, 0x18, 0xF1, 0x07]);
    assert_eq!(cpu.tick(), Ok(()));
    assert_eq!(cpu.delay_timer(), 2);
    assert_eq!(cpu.sound_timer(), 2);
    assert_eq!(cpu.get_from_register(Register::V1), 2);
    cpu.decrement_delay_timer();
    cpu.decrement_sound_timer();
    assert_eq!(cpu.delay_timer(), 1);
    assert_eq!(cpu.sound_timer(), 1);
    cpu.decrement_delay_timer();
    cpu.decrement_delay_timer();
    assert_eq!(cpu.delay_timer(), 0);
}

#[test]
fn test_rand_masked_is_seed_determined() {
    let mut cpu = Cpu::new();
    cpu.reseed(0x1234);
    cpu.load(&vec![0xC0, 0xFF, 0xC1, 0x00]);
    assert_eq!(cpu.tick(), Ok(()));
    let expected = ((0x1234u32 * 25173 + 13849) % 0x10000) as u16;
    assert_eq!(cpu.get_from_register(Register::V0), (expected & 0xFF) as u8);
    // A zero mask always stores zero, whatever the sequence yields.
    assert_eq!(cpu.get_from_register(Register::V1), 0);
}

#[test]
fn test_halting_tick_preserves_state() {
    let mut cpu = Cpu::new();
    // One real instruction, then a word that does not decode.
    cpu.load(&vec![0x60, 0x05, 0xFF, 0xFF]);
    assert_eq!(cpu.tick(), Ok(()));
    assert_eq!(cpu.get_from_register(Register::V0), 5);
    assert_eq!(cpu.instruction_pointer(), 0x204);
    let display_before = cpu.display();
    // The next tick halts at once on empty memory: registers, memory,
    // stack and display stay exactly as they were.
    assert_eq!(cpu.tick(), Ok(()));
    assert_eq!(cpu.get_from_register(Register::V0), 5);
    assert_eq!(cpu.get_from_register(Register::Vf), 0);
    assert_eq!(cpu.stack_depth(), 0);
    assert_eq!(cpu.read_memory(0x200), Some(0x60));
    assert_eq!(cpu.display(), display_before);
    assert_eq!(cpu.instruction_pointer(), 0x206);
}

#[test]
fn test_tick_reports_fault_value() {
    let mut cpu = Cpu::new();
    cpu.load(&vec![0x00, 0xEE]);
    assert_eq!(cpu.tick(), Err(CpuError::StackUnderflow));
}
