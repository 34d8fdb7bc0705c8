use chip8::cpu::Cpu;
use chip8::display::{Display, DISPLAY_WIDTH};
use chip8::types::Register;

#[test]
fn test_display_surface_operations() {
    let mut d = Display::new();
    assert!(!d.get(0));
    assert!(!d.get(2047));
    // An index past the surface reads as off.
    assert!(!d.get(5000));
    d.set(70, true);
    assert!(d.get(70));
    assert!(!d.get(71));
    d.set_all();
    assert!(d.get(0) && d.get(1000) && d.get(2047));
    d.clear();
    assert!(!d.get(0) && !d.get(1000) && !d.get(2047));
}

#[test]
fn test_single_pixel_sprite_draw() {
    let mut cpu = Cpu::new();
    // I = 0x20A (one sprite byte 0x80), clear, V0 = 0, V1 = 0, draw one
    // row: exactly one pixel lights, at row 0, column 0, with VF = 0.
    cpu.load(&vec![
        0xA2, 0x0A, 0x00, 0xE0, 0x60, 0x00, 0x61, 0x00, 0xD0, 0x11, 0x80,
    ]);
    assert_eq!(cpu.tick(), Ok(()));
    assert_eq!(cpu.tick(), Ok(()));
    let bits = cpu.display();
    assert_eq!(bits.iter().filter(|b| **b).count(), 1);
    assert!(bits[0 * DISPLAY_WIDTH + 0]);
    assert_eq!(cpu.get_from_register(Register::Vf), 0);
}

#[test]
fn test_draw_on_clear_never_collides() {
    let mut cpu = Cpu::new();
    // Draw the five-row glyph for 0 onto a cleared display.
    cpu.load(&vec![0xA0, 0x50, 0x60, 0x00, 0x61, 0x00, 0xD0, 0x15]);
    assert_eq!(cpu.tick(), Ok(()));
    assert_eq!(cpu.tick(), Ok(()));
    let bits = cpu.display();
    // The 0 glyph bytes F0 90 90 90 F0 hold fourteen on bits.
    assert_eq!(bits.iter().filter(|b| **b).count(), 14);
    assert_eq!(cpu.get_from_register(Register::Vf), 0);
}

#[test]
fn test_draw_twice_collides_and_clears() {
    let mut cpu = Cpu::new();
    // Draw the same glyph twice at the same position: the second blit
    // undoes the first and reports the collision.
    cpu.load(&vec![
        0xA0, 0x50, 0x60, 0x00, 0x61, 0x00, 0xD0, 0x15, 0xD0, 0x15,
    ]);
    assert_eq!(cpu.tick(), Ok(()));
    assert_eq!(cpu.tick(), Ok(()));
    let bits = cpu.display();
    assert_eq!(bits.iter().filter(|b| **b).count(), 0);
    assert_eq!(cpu.get_from_register(Register::Vf), 1);
}

#[test]
fn test_draw_wraps_at_edges() {
    let mut cpu = Cpu::new();
    // A one-byte sprite 0xFF drawn at column 60, row 31: the columns wrap
    // to the left edge, the row count of 2 wraps to the top.
    cpu.load(&vec![
        0xA2, 0x0C, 0x60, 0x3C, 0x61, 0x1F, 0xD0, 0x12, 0x00, 0x00, 0x00, 0x00, 0xFF, 0xFF,
    ]);
    assert_eq!(cpu.tick(), Ok(()));
    assert_eq!(cpu.tick(), Ok(()));
    let bits = cpu.display();
    assert_eq!(bits.iter().filter(|b| **b).count(), 16);
    // Bottom row: columns 60..63 and 0..3.
    assert!(bits[31 * 64 + 60] && bits[31 * 64 + 63] && bits[31 * 64 + 0] && bits[31 * 64 + 3]);
    // Wrapped second sprite row lands on the top display row.
    assert!(bits[0 * 64 + 60] && bits[0 * 64 + 63] && bits[0 * 64 + 0] && bits[0 * 64 + 3]);
    assert!(!bits[31 * 64 + 4] && !bits[0 * 64 + 4]);
    assert_eq!(cpu.get_from_register(Register::Vf), 0);
}

#[test]
fn test_draw_numbers() {
    let mut cpu = Cpu::new();
    cpu.load_instructions();
    assert_eq!(cpu.tick(), Ok(()));
    assert_eq!(cpu.tick(), Ok(()));
    // The glyphs for 0 (fourteen bits) and 1 (eight bits) are both drawn.
    let bits = cpu.display();
    assert_eq!(bits.iter().filter(|b| **b).count(), 22);
}

#[test]
fn test_basic_display_commands() {
    let mut cpu = Cpu::new();
    // Clear, V0 = 0, V0 = 0x10, draw one row from I = 0: that memory
    // byte is zero, so nothing lights.
    cpu.load(&vec![0x00, 0xE0, 0x60, 0x00, 0x60, 0x10, 0xD0, 0x11]);
    assert_eq!(cpu.tick(), Ok(()));
    let bits = cpu.display();
    assert_eq!(bits.iter().filter(|b| **b).count(), 0);
}
