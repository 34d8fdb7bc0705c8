use chip8::cpu::Cpu;
use chip8::semantics::CpuError;

#[test]
fn test_call_then_ret_round_trip() {
    let mut cpu = Cpu::new();
    // CALL 0x208; the subroutine there returns at once.
    let mut program = vec![0u8; 10];
    program[0] = 0x22;
    program[1] = 0x08;
    program[8] = 0x00;
    program[9] = 0xEE;
    cpu.load(&program);
    assert_eq!(cpu.tick(), Ok(()));
    // The return lands right after the CALL instruction.
    assert_eq!(cpu.instruction_pointer(), 0x202 + 2);
    assert_eq!(cpu.stack_depth(), 0);
}

#[test]
fn test_sixteen_nested_calls_succeed_seventeenth_overflows() {
    let mut cpu = Cpu::new();
    // Seventeen chained CALLs, each into the next word.
    let mut program: Vec<u8> = Vec::new();
    for i in 0..17u16 {
        let target = 0x202 + 2 * i;
        program.push(0x20 | (target >> 8) as u8);
        program.push((target & 0xFF) as u8);
    }
    cpu.load(&program);
    // Four ticks run the first sixteen calls, all of which succeed.
    for _ in 0..4 {
        assert_eq!(cpu.tick(), Ok(()));
    }
    assert_eq!(cpu.stack_depth(), 16);
    // The seventeenth call finds the stack at capacity.
    assert_eq!(cpu.tick(), Err(CpuError::StackOverflow));
    assert_eq!(cpu.stack_depth(), 16);
}

#[test]
fn test_ret_on_empty_stack_underflows() {
    let mut cpu = Cpu::new();
    cpu.load(&vec![0x00, 0xEE]);
    assert_eq!(cpu.tick(), Err(CpuError::StackUnderflow));
    assert_eq!(cpu.stack_depth(), 0);
}
