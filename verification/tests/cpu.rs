use gb_emu::Cpu;
use gb_emu::cpu::Fault;
use gb_emu::instruction::Instruction;
use gb_emu::instruction::Mnemonic;
use gb_emu::instruction::Target;

const ENTRY: u16 = 0x0100;

fn boot(program: &[u8]) -> Cpu {
    let mut rom = vec![0u8; 0x8000];
    for (i, &byte) in program.iter().enumerate() {
        rom[ENTRY as usize + i] = byte;
    }
    Cpu::new(rom)
}

fn decoded(byte: u8) -> Instruction {
    Instruction::from_byte(byte).unwrap()
}

#[test]
fn boot_state() {
    let cpu = boot(&[]);
    assert_eq!(cpu.program_counter.get(), ENTRY);
    assert_eq!(cpu.stack_pointer, 0xFFFE);
    assert_eq!(cpu.registers.get_a(), 0x01);
    assert_eq!(cpu.registers.get_f(), 0x00);
}

#[test]
fn boot_flags_follow_the_header_checksum() {
    let mut rom = vec![0u8; 0x8000];
    rom[0x014D] = 0x66;
    let cpu = Cpu::new(rom);
    // Nonzero checksum: carry and half-carry set
    assert_eq!(cpu.registers.get_f(), 0x30);
}

#[test]
fn end_to_end_xor_then_nop() {
    let mut cpu = boot(&[0xAF, 0x00]);
    assert_eq!(cpu.step(), Ok(()));
    assert_eq!(cpu.step(), Ok(()));
    assert_eq!(cpu.registers.get_a(), 0x00);
    assert_eq!(cpu.registers.get_f(), 0x80);
    assert_eq!(cpu.program_counter.get(), ENTRY + 2);
}

#[test]
fn compare_equal_operand() {
    let mut cpu = boot(&[0xFE, 0x3E]);
    cpu.registers.set_a(0x3E);
    assert_eq!(cpu.step(), Ok(()));
    assert!(cpu.registers.f.get_zero());
    assert!(cpu.registers.f.get_subtract());
    assert!(!cpu.registers.f.get_half_carry());
    assert!(!cpu.registers.f.get_carry());
    assert_eq!(cpu.registers.get_a(), 0x3E);
    assert_eq!(cpu.program_counter.get(), ENTRY + 2);
}

#[test]
fn compare_larger_operand() {
    let mut cpu = boot(&[0xFE, 0x20]);
    cpu.registers.set_a(0x10);
    assert_eq!(cpu.step(), Ok(()));
    assert!(!cpu.registers.f.get_zero());
    assert!(cpu.registers.f.get_subtract());
    assert!(!cpu.registers.f.get_half_carry());
    assert!(cpu.registers.f.get_carry());
}

#[test]
fn compare_sets_half_carry_on_low_nibble_borrow() {
    let mut cpu = boot(&[0xFE, 0x0F]);
    cpu.registers.set_a(0x10);
    assert_eq!(cpu.step(), Ok(()));
    assert!(cpu.registers.f.get_half_carry());
    assert!(!cpu.registers.f.get_carry());
}

#[test]
fn xor_a_with_itself_zeroes_a_and_sets_only_zero() {
    let mut cpu = boot(&[]);
    cpu.registers.set_a(0x5C);
    cpu.registers.f.set_flags(false, true, true, true);
    assert_eq!(cpu.execute_instruction(decoded(0xAF)), Ok(()));
    assert_eq!(cpu.registers.get_a(), 0x00);
    assert_eq!(cpu.registers.get_f(), 0x80);
}

#[test]
fn xor_with_another_register() {
    let mut cpu = boot(&[]);
    cpu.registers.set_a(0b1010_0000);
    cpu.registers.set_b(0b0110_0000);
    assert_eq!(cpu.execute_instruction(decoded(0xA8)), Ok(()));
    assert_eq!(cpu.registers.get_a(), 0b1100_0000);
    assert_eq!(cpu.registers.get_f(), 0x00);
}

#[test]
fn restart_pushes_the_return_address_exactly() {
    let mut cpu = boot(&[]);
    cpu.program_counter.set(0x1234);
    cpu.stack_pointer = 0xD000;
    cpu.rst(0x0008);

    // The stack pointer decreases by exactly 2
    assert_eq!(cpu.stack_pointer, 0xCFFE);
    // Low byte at the pointer, high byte at pointer+1
    let low = cpu.memory_bus.read_byte(0xCFFE) as u16;
    let high = cpu.memory_bus.read_byte(0xCFFF) as u16;
    assert_eq!(low, 0x34);
    assert_eq!(high, 0x12);
    assert_eq!(high << 8 | low, 0x1234);
    assert_eq!(cpu.program_counter.get(), 0x0008);
}

#[test]
fn restart_through_step_pushes_the_advanced_counter() {
    let mut cpu = boot(&[0xCF]);
    cpu.stack_pointer = 0xD000;
    assert_eq!(cpu.step(), Ok(()));
    let low = cpu.memory_bus.read_byte(0xCFFE) as u16;
    let high = cpu.memory_bus.read_byte(0xCFFF) as u16;
    // The pushed address is the counter after the opcode fetch
    assert_eq!(high << 8 | low, ENTRY + 1);
    assert_eq!(cpu.program_counter.get(), 0x0008);
}

#[test]
fn absolute_jump() {
    let mut cpu = boot(&[0xC3, 0x34, 0x12]);
    assert_eq!(cpu.step(), Ok(()));
    assert_eq!(cpu.program_counter.get(), 0x1234);
}

#[test]
fn relative_jump_taken_forward() {
    let mut cpu = boot(&[0x28, 0x10]);
    cpu.registers.f.set_flags(true, false, false, false);
    assert_eq!(cpu.step(), Ok(()));
    assert_eq!(cpu.program_counter.get(), ENTRY + 2 + 0x10);
}

#[test]
fn relative_jump_taken_backward() {
    let mut cpu = boot(&[0x28, 0xF0]);
    cpu.registers.f.set_flags(true, false, false, false);
    assert_eq!(cpu.step(), Ok(()));
    assert_eq!(cpu.program_counter.get(), ENTRY + 2 - 16);
}

#[test]
fn relative_jump_not_taken_only_consumes_the_operand() {
    let mut cpu = boot(&[0x28, 0x10]);
    cpu.registers.f.set_flags(false, false, false, false);
    assert_eq!(cpu.step(), Ok(()));
    assert_eq!(cpu.program_counter.get(), ENTRY + 2);
}

#[test]
fn relative_jump_tests_the_carry_flag_when_encoded() {
    let mut cpu = boot(&[0x38, 0x02]);
    cpu.registers.f.set_flags(false, false, false, true);
    assert_eq!(cpu.step(), Ok(()));
    assert_eq!(cpu.program_counter.get(), ENTRY + 4);
}

#[test]
fn pair_increment() {
    let mut cpu = boot(&[0x03]);
    cpu.registers.set_bc(0x00FF);
    assert_eq!(cpu.step(), Ok(()));
    assert_eq!(cpu.registers.get_bc(), 0x0100);
}

#[test]
fn pair_increment_wraps_and_leaves_flags_alone() {
    let mut cpu = boot(&[0x23]);
    cpu.registers.set_hl(0xFFFF);
    cpu.registers.f.set_flags(true, true, false, true);
    assert_eq!(cpu.step(), Ok(()));
    assert_eq!(cpu.registers.get_hl(), 0x0000);
    assert_eq!(cpu.registers.get_f(), 0xD0);
}

#[test]
fn store_register_at_pair_address() {
    let mut cpu = boot(&[0x77]);
    cpu.registers.set_hl(0xC123);
    cpu.registers.set_a(0x66);
    assert_eq!(cpu.step(), Ok(()));
    assert_eq!(cpu.memory_bus.read_byte(0xC123), 0x66);
}

#[test]
fn load_register_from_pair_address() {
    let mut cpu = boot(&[0x7E]);
    cpu.memory_bus.write_byte(0xC200, 0x99);
    cpu.registers.set_hl(0xC200);
    assert_eq!(cpu.step(), Ok(()));
    assert_eq!(cpu.registers.get_a(), 0x99);
}

#[test]
fn load_immediate_into_register() {
    let mut cpu = boot(&[0x06, 0xAB]);
    assert_eq!(cpu.step(), Ok(()));
    assert_eq!(cpu.registers.get_b(), 0xAB);
    assert_eq!(cpu.program_counter.get(), ENTRY + 2);
}

#[test]
fn unknown_opcode_is_a_fault_naming_the_byte() {
    let mut cpu = boot(&[0xD3]);
    assert_eq!(cpu.step(), Err(Fault::UnknownOpcode(0xD3)));
    // The fetch already advanced the counter; nothing else changed
    assert_eq!(cpu.program_counter.get(), ENTRY + 1);
    assert_eq!(cpu.registers.get_a(), 0x01);
}

#[test]
fn unhandled_operation_is_a_fault_naming_the_tag() {
    let mut cpu = boot(&[0x27]);
    assert_eq!(cpu.step(), Err(Fault::UnhandledOperation(Mnemonic::DAA)));
    assert_eq!(cpu.program_counter.get(), ENTRY + 1);
}

#[test]
fn prefix_escape_is_not_executable_by_itself() {
    let mut cpu = boot(&[0xCB, 0x00]);
    assert_eq!(cpu.step(), Err(Fault::UnhandledOperation(Mnemonic::Prefix)));
}

#[test]
fn execute_instruction_rejects_unhandled_tags_without_mutating() {
    let mut cpu = boot(&[]);
    let ret = decoded(0xC9);
    assert_eq!(
        cpu.execute_instruction(ret),
        Err(Fault::UnhandledOperation(Mnemonic::RET))
    );
    assert_eq!(cpu.program_counter.get(), ENTRY);
    assert_eq!(cpu.stack_pointer, 0xFFFE);
}

#[test]
fn nop_changes_nothing_but_the_fetch() {
    let mut cpu = boot(&[0x00]);
    assert_eq!(cpu.step(), Ok(()));
    assert_eq!(cpu.program_counter.get(), ENTRY + 1);
    assert_eq!(cpu.registers.get_a(), 0x01);
    assert_eq!(cpu.registers.get_bc(), 0x0013);
}

#[test]
fn generic_store_covers_every_pair_and_register() {
    // LD (BC),A and LD (DE),A drive the same generic handler
    let mut cpu = boot(&[0x02, 0x12]);
    cpu.registers.set_bc(0xC010);
    cpu.registers.set_de(0xC020);
    cpu.registers.set_a(0x5A);
    assert_eq!(cpu.step(), Ok(()));
    assert_eq!(cpu.step(), Ok(()));
    assert_eq!(cpu.memory_bus.read_byte(0xC010), 0x5A);
    assert_eq!(cpu.memory_bus.read_byte(0xC020), 0x5A);
}

#[test]
fn xor_covers_every_register_selector() {
    let opcodes = [0xA8u8, 0xA9, 0xAA, 0xAB, 0xAC, 0xAD];
    let setters: [fn(&mut Cpu, u8); 6] = [
        |c, v| c.registers.set_b(v),
        |c, v| c.registers.set_c(v),
        |c, v| c.registers.set_d(v),
        |c, v| c.registers.set_e(v),
        |c, v| c.registers.set_h(v),
        |c, v| c.registers.set_l(v),
    ];
    for (opcode, set) in opcodes.iter().zip(setters.iter()) {
        let mut cpu = boot(&[]);
        cpu.registers.set_a(0xFF);
        set(&mut cpu, 0x0F);
        assert_eq!(cpu.execute_instruction(decoded(*opcode)), Ok(()));
        assert_eq!(cpu.registers.get_a(), 0xF0);
    }
}

#[test]
fn xor_reg_handler_takes_the_target_directly() {
    let mut cpu = boot(&[]);
    cpu.registers.set_a(0x0F);
    cpu.registers.set_l(0xF0);
    cpu.xor_reg(Target::L);
    assert_eq!(cpu.registers.get_a(), 0xFF);
    assert!(!cpu.registers.f.get_zero());
}
