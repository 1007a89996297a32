use chip8_core::decode::decode;
use chip8_core::state::{VmError, CPU};

#[test]
fn new_machine_is_zeroed() {
    let cpu = CPU::new();
    assert_eq!(cpu.registers, vec![0u8; 16]);
    assert_eq!(cpu.memory, vec![0u8; 4096]);
    assert_eq!(cpu.stack, vec![0u16; 16]);
    assert_eq!(cpu.position_in_memory, 0);
    assert_eq!(cpu.stack_pointer, 0);
    assert!(!cpu.halted);
}

#[test]
fn fetch_combines_bytes_big_endian() {
    let mut cpu = CPU::new();
    cpu.memory[0] = 0xAB;
    cpu.memory[1] = 0xCD;
    assert_eq!(cpu.read_opcode(), 0xABCD);
    cpu.position_in_memory = 0x123;
    cpu.memory[0x123] = 0x12;
    cpu.memory[0x124] = 0x34;
    assert_eq!(cpu.read_opcode(), 0x1234);
}

#[test]
fn decode_matches_bit_slicing_for_all_words() {
    for w in 0..=0xFFFFu16 {
        let (o, x, y, d, nnn) = decode(w);
        assert_eq!(o as u16, w / 4096);
        assert_eq!(x as u16, (w / 256) % 16);
        assert_eq!(y as u16, (w / 16) % 16);
        assert_eq!(d as u16, w % 16);
        assert_eq!(nnn, w % 4096);
    }
}

#[test]
fn add_without_overflow_clears_flag() {
    let mut cpu = CPU::new();
    cpu.registers[0] = 6;
    cpu.registers[1] = 10;
    cpu.add_xy(0, 1);
    assert_eq!(cpu.registers[0], 16);
    assert_eq!(cpu.registers[1], 10);
    assert_eq!(cpu.registers[0xF], 0);
}

#[test]
fn add_with_overflow_wraps_and_sets_flag() {
    let mut cpu = CPU::new();
    cpu.registers[0] = 250;
    cpu.registers[1] = 10;
    cpu.add_xy(0, 1);
    assert_eq!(cpu.registers[0], 4);
    assert_eq!(cpu.registers[0xF], 1);
}

#[test]
fn add_boundary_sum_of_255_clears_flag() {
    let mut cpu = CPU::new();
    cpu.registers[4] = 245;
    cpu.registers[5] = 10;
    cpu.add_xy(4, 5);
    assert_eq!(cpu.registers[4], 255);
    assert_eq!(cpu.registers[0xF], 0);
}

#[test]
fn call_then_ret_restores_pc_and_depth() {
    let mut cpu = CPU::new();
    cpu.position_in_memory = 0x123;
    assert_eq!(cpu.call(0x456), Ok(()));
    assert_eq!(cpu.position_in_memory, 0x456);
    assert_eq!(cpu.stack_pointer, 1);
    assert_eq!(cpu.ret(), Ok(()));
    assert_eq!(cpu.position_in_memory, 0x123);
    assert_eq!(cpu.stack_pointer, 0);
}

#[test]
fn nested_calls_to_capacity_then_overflow_then_unwind() {
    let mut cpu = CPU::new();
    cpu.position_in_memory = 0x200;
    for i in 0..16u16 {
        assert_eq!(cpu.call(0x300 + 2 * i), Ok(()));
    }
    assert_eq!(cpu.stack_pointer, 16);
    assert_eq!(cpu.call(0x400), Err(VmError::StackOverflow));
    assert_eq!(cpu.stack_pointer, 16);
    for _ in 0..16 {
        assert_eq!(cpu.ret(), Ok(()));
    }
    assert_eq!(cpu.position_in_memory, 0x200);
    assert_eq!(cpu.stack_pointer, 0);
    assert_eq!(cpu.ret(), Err(VmError::StackUnderflow));
}

#[test]
fn run_demo_program_two_calls_add_twice_each() {
    let mut cpu = CPU::new();
    cpu.registers[0] = 6;
    cpu.registers[1] = 10;
    cpu.memory[0x000] = 0x21; // CALL 0x100
    cpu.memory[0x001] = 0x00;
    cpu.memory[0x002] = 0x21; // CALL 0x100
    cpu.memory[0x003] = 0x00;
    cpu.memory[0x004] = 0x00; // HALT
    cpu.memory[0x005] = 0x00;
    cpu.memory[0x100] = 0x80; // ADD V0, V1
    cpu.memory[0x101] = 0x14;
    cpu.memory[0x102] = 0x80; // ADD V0, V1
    cpu.memory[0x103] = 0x14;
    cpu.memory[0x104] = 0x00; // RET
    cpu.memory[0x105] = 0xEE;
    assert_eq!(cpu.run(), Ok(()));
    assert_eq!(cpu.registers[0], 46);
    assert_eq!(cpu.registers[0xF], 0);
    assert!(cpu.halted);
    assert_eq!(cpu.stack_pointer, 0);
}

#[test]
fn run_add_program_sets_flag_on_wraparound() {
    let mut cpu = CPU::new();
    cpu.registers[2] = 0xFF;
    cpu.registers[3] = 0x02;
    cpu.memory[0] = 0x82; // ADD V2, V3
    cpu.memory[1] = 0x34;
    // the all-zero word at 0x002 halts the machine
    assert_eq!(cpu.run(), Ok(()));
    assert_eq!(cpu.registers[2], 1);
    assert_eq!(cpu.registers[0xF], 1);
}

#[test]
fn rerun_after_halt_changes_nothing() {
    let mut cpu = CPU::new(); // memory is all zero: the first fetch halts
    assert_eq!(cpu.run(), Ok(()));
    assert!(cpu.halted);
    assert_eq!(cpu.position_in_memory, 2);
    let pc = cpu.position_in_memory;
    let regs = cpu.registers.clone();
    let sp = cpu.stack_pointer;
    assert_eq!(cpu.run(), Ok(()));
    assert_eq!(cpu.position_in_memory, pc);
    assert_eq!(cpu.registers, regs);
    assert_eq!(cpu.stack_pointer, sp);
    assert!(cpu.halted);
}

#[test]
fn run_reports_unimplemented_instruction() {
    let mut cpu = CPU::new();
    cpu.memory[0] = 0x12; // operation family 1 is not in the subset
    cpu.memory[1] = 0x34;
    assert_eq!(cpu.run(), Err(VmError::UnimplementedInstruction));
    assert_eq!(cpu.position_in_memory, 2);
    assert!(!cpu.halted);
}

#[test]
fn run_reports_out_of_bounds_fetch() {
    let mut cpu = CPU::new();
    cpu.position_in_memory = 4095; // second instruction byte would be at 4096
    assert_eq!(cpu.run(), Err(VmError::OutOfBoundsFetch));
    assert_eq!(cpu.position_in_memory, 4095);
}

#[test]
fn run_reports_stack_overflow_on_runaway_recursion() {
    let mut cpu = CPU::new();
    cpu.memory[0] = 0x20; // CALL 0x000: calls itself without returning
    cpu.memory[1] = 0x00;
    assert_eq!(cpu.run(), Err(VmError::StackOverflow));
    assert_eq!(cpu.stack_pointer, 16);
    assert_eq!(cpu.position_in_memory, 2);
}

#[test]
fn run_reports_stack_underflow_on_unmatched_return() {
    let mut cpu = CPU::new();
    cpu.memory[0] = 0x00; // RET with an empty stack
    cpu.memory[1] = 0xEE;
    assert_eq!(cpu.run(), Err(VmError::StackUnderflow));
    assert_eq!(cpu.position_in_memory, 2);
}
