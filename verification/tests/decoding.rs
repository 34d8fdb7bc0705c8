use chip8::instruction::{decode_instruction, Instruction};
use chip8::types::Register;

#[test]
fn test_decode_is_deterministic() {
    let first = decode_instruction(0x8A, 0xB4);
    let second = decode_instruction(0x8A, 0xB4);
    assert_eq!(first, second);
    let third = decode_instruction(0x00, 0xE0);
    let fourth = decode_instruction(0x00, 0xE0);
    assert_eq!(third, fourth);
}

#[test]
fn test_decode_display_and_flow_shapes() {
    assert_eq!(decode_instruction(0x00, 0xE0), Some(Instruction::i00E0));
    assert_eq!(decode_instruction(0x00, 0xE1), Some(Instruction::i00E1));
    assert_eq!(decode_instruction(0x00, 0xEE), Some(Instruction::i00EE));
    assert_eq!(decode_instruction(0x12, 0x34), Some(Instruction::i1NNN(0x234)));
    assert_eq!(decode_instruction(0x2F, 0xFF), Some(Instruction::i2NNN(0xFFF)));
    assert_eq!(
        decode_instruction(0xB1, 0x23),
        Some(Instruction::iBNNN(0x123))
    );
    assert_eq!(
        decode_instruction(0xA0, 0x50),
        Some(Instruction::iANNN(0x050))
    );
}

#[test]
fn test_decode_register_shapes() {
    assert_eq!(
        decode_instruction(0x3A, 0x7F),
        Some(Instruction::i3XNN(Register::Va, 0x7F))
    );
    assert_eq!(
        decode_instruction(0x41, 0x00),
        Some(Instruction::i4XNN(Register::V1, 0x00))
    );
    assert_eq!(
        decode_instruction(0x51, 0x20),
        Some(Instruction::i5XY0(Register::V1, Register::V2))
    );
    assert_eq!(
        decode_instruction(0x6C, 0xFE),
        Some(Instruction::i6XNN(Register::Vc, 0xFE))
    );
    assert_eq!(
        decode_instruction(0x70, 0x01),
        Some(Instruction::i7XNN(Register::V0, 0x01))
    );
    assert_eq!(
        decode_instruction(0x9F, 0x00),
        Some(Instruction::i9XY0(Register::Vf, Register::V0))
    );
}

#[test]
fn test_decode_alu_shapes() {
    assert_eq!(
        decode_instruction(0x81, 0x20),
        Some(Instruction::i8XY0(Register::V1, Register::V2))
    );
    assert_eq!(
        decode_instruction(0x81, 0x21),
        Some(Instruction::i8XY1(Register::V1, Register::V2))
    );
    assert_eq!(
        decode_instruction(0x81, 0x22),
        Some(Instruction::i8XY2(Register::V1, Register::V2))
    );
    assert_eq!(
        decode_instruction(0x81, 0x23),
        Some(Instruction::i8XY3(Register::V1, Register::V2))
    );
    assert_eq!(
        decode_instruction(0x81, 0x24),
        Some(Instruction::i8XY4(Register::V1, Register::V2))
    );
    assert_eq!(
        decode_instruction(0x81, 0x25),
        Some(Instruction::i8XY5(Register::V1, Register::V2))
    );
    assert_eq!(
        decode_instruction(0x81, 0x26),
        Some(Instruction::i8XY6(Register::V1, Register::V2))
    );
    assert_eq!(
        decode_instruction(0x81, 0x27),
        Some(Instruction::i8XY7(Register::V1, Register::V2))
    );
    assert_eq!(
        decode_instruction(0x81, 0x2E),
        Some(Instruction::i8XYE(Register::V1, Register::V2))
    );
}

#[test]
fn test_decode_misc_shapes() {
    assert_eq!(
        decode_instruction(0xC3, 0x0F),
        Some(Instruction::iCXNN(Register::V3, 0x0F))
    );
    assert_eq!(
        decode_instruction(0xD1, 0x25),
        Some(Instruction::iDXYN(Register::V1, Register::V2, 5))
    );
    assert_eq!(
        decode_instruction(0xE0, 0x9E),
        Some(Instruction::iEX9E(Register::V0))
    );
    assert_eq!(
        decode_instruction(0xE0, 0xA1),
        Some(Instruction::iEXA1(Register::V0))
    );
    assert_eq!(
        decode_instruction(0xF5, 0x07),
        Some(Instruction::iFX07(Register::V5))
    );
    assert_eq!(
        decode_instruction(0xF5, 0x0A),
        Some(Instruction::iFX0A(Register::V5))
    );
    assert_eq!(
        decode_instruction(0xF5, 0x15),
        Some(Instruction::iFX15(Register::V5))
    );
    assert_eq!(
        decode_instruction(0xF5, 0x18),
        Some(Instruction::iFX18(Register::V5))
    );
    assert_eq!(
        decode_instruction(0xF5, 0x1E),
        Some(Instruction::iFX1E(Register::V5))
    );
    assert_eq!(
        decode_instruction(0xF5, 0x29),
        Some(Instruction::iFX29(Register::V5))
    );
    assert_eq!(
        decode_instruction(0xF5, 0x33),
        Some(Instruction::iFX33(Register::V5))
    );
    assert_eq!(
        decode_instruction(0xF5, 0x55),
        Some(Instruction::iFX55(Register::V5))
    );
    assert_eq!(
        decode_instruction(0xF5, 0x65),
        Some(Instruction::iFX65(Register::V5))
    );
}

#[test]
fn test_decode_unrecognized() {
    assert_eq!(decode_instruction(0x00, 0x00), None);
    assert_eq!(decode_instruction(0x01, 0x23), None);
    assert_eq!(decode_instruction(0x81, 0x28), None);
    assert_eq!(decode_instruction(0x81, 0x2F), None);
    assert_eq!(decode_instruction(0xE0, 0x00), None);
    assert_eq!(decode_instruction(0xFF, 0xFF), None);
    assert_eq!(decode_instruction(0xF0, 0x00), None);
}
