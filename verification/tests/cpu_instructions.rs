//! Tests for the cycle-stepped CPU instructions other than the branches.

use tinfo::cartridge::nrom::Nrom;
use tinfo::cartridge::Cartridge;
use tinfo::cpu::{Cpu, CpuError, CycleError, Instruction, InstructionData, StatusFlag};

/// A cartridge whose program ROM starts with the given bytes at 0x8000 and
/// holds the no-operation opcode everywhere else, so stray reads past the
/// program always fetch a harmless instruction byte.
fn test_cartridge(prg_data: &[u8]) -> Cartridge {
    let mut rom = vec![0xEAu8; 16 * 1024];
    for (index, byte) in prg_data.iter().enumerate() {
        rom[index] = *byte;
    }
    Cartridge::Nrom(Nrom::new(false, rom))
}

/// Run the fetch cycle and every announced idle cycle of one instruction.
fn run_full_instruction(cpu: &mut Cpu) -> InstructionData {
    let instruction_data = cpu.cycle().unwrap().unwrap().instruction_data;
    for _ in 0..instruction_data.idle_cycles {
        cpu.cycle().unwrap();
    }
    instruction_data
}

#[test]
fn test_jmp_absolute() {
    let cartridge = test_cartridge(&[
        // JMP $5533
        0x4C, 0x33, 0x55,
    ]);

    let mut cpu = Cpu::new(cartridge);

    let instruction_data = cpu.cycle().unwrap().unwrap().instruction_data;
    assert_eq!(instruction_data.assembly, "JMP $5533");
    assert_eq!(instruction_data.idle_cycles, 2);

    assert_eq!(cpu.program_counter, 0x8001);

    cpu.cycle().unwrap();
    assert_eq!(cpu.program_counter, 0x8002);

    cpu.cycle().unwrap();
    assert_eq!(cpu.program_counter, 0x5533);
}

#[test]
fn test_ldx_immediate_positive() {
    let cartridge = test_cartridge(&[
        // LDX #$5C
        0xA2, 0x5C,
    ]);

    let mut cpu = Cpu::new(cartridge);

    let instruction_data = cpu.cycle().unwrap().unwrap().instruction_data;
    assert_eq!(instruction_data.assembly, "LDX #$5C");
    assert_eq!(instruction_data.idle_cycles, 1);

    assert_eq!(cpu.program_counter, 0x8001);

    cpu.cycle().unwrap();
    assert_eq!(cpu.program_counter, 0x8002);
    assert_eq!(cpu.register_x, 0x5C);
    assert!(!cpu.status.contains(StatusFlag::Zero));
    assert!(!cpu.status.contains(StatusFlag::Negative));
}

#[test]
fn test_ldx_immediate_negative() {
    let cartridge = test_cartridge(&[
        // LDX #$FC
        0xA2, 0xFC,
    ]);

    let mut cpu = Cpu::new(cartridge);

    let instruction_data = cpu.cycle().unwrap().unwrap().instruction_data;
    assert_eq!(instruction_data.assembly, "LDX #$FC");
    assert_eq!(instruction_data.idle_cycles, 1);

    assert_eq!(cpu.program_counter, 0x8001);

    cpu.cycle().unwrap();
    assert_eq!(cpu.program_counter, 0x8002);
    assert_eq!(cpu.register_x, 0xFC);
    assert!(!cpu.status.contains(StatusFlag::Zero));
    assert!(cpu.status.contains(StatusFlag::Negative));
}

#[test]
fn test_ldx_immediate_zero() {
    let cartridge = test_cartridge(&[
        // LDX #$00
        0xA2, 0x00,
    ]);

    let mut cpu = Cpu::new(cartridge);

    let instruction_data = cpu.cycle().unwrap().unwrap().instruction_data;
    assert_eq!(instruction_data.assembly, "LDX #$00");
    assert_eq!(instruction_data.idle_cycles, 1);

    assert_eq!(cpu.program_counter, 0x8001);

    cpu.cycle().unwrap();
    assert_eq!(cpu.program_counter, 0x8002);
    assert_eq!(cpu.register_x, 0x00);
    assert!(cpu.status.contains(StatusFlag::Zero));
    assert!(!cpu.status.contains(StatusFlag::Negative));
}

#[test]
fn test_nop_immediate() {
    let cartridge = test_cartridge(&[
        // NOP
        0xEA,
    ]);

    let mut cpu = Cpu::new(cartridge);

    let instruction_data = cpu.cycle().unwrap().unwrap().instruction_data;
    assert_eq!(instruction_data.assembly, "NOP");
    assert_eq!(instruction_data.idle_cycles, 1);

    assert_eq!(cpu.program_counter, 0x8001);

    cpu.cycle().unwrap();
}

#[test]
fn test_stx_zero_page() {
    let cartridge = test_cartridge(&[
        // LDX #$5C
        0xA2, 0x5C, // STX $EE
        0x86, 0xEE,
    ]);

    let mut cpu = Cpu::new(cartridge);
    cpu.bus.write(0x00EE, 0xAB).unwrap();

    run_full_instruction(&mut cpu);

    let instruction_data = cpu.cycle().unwrap().unwrap().instruction_data;
    assert_eq!(instruction_data.assembly, "STX #$EE = AB");
    assert_eq!(instruction_data.idle_cycles, 2);

    assert_eq!(cpu.program_counter, 0x8003);

    cpu.cycle().unwrap();
    assert_eq!(cpu.program_counter, 0x8004);

    cpu.cycle().unwrap();
    assert_eq!(cpu.program_counter, 0x8004);
    assert_eq!(cpu.bus.read(0x00EE).unwrap(), 0x5C);
}

#[test]
fn test_stx_to_first_ram_byte() {
    let cartridge = test_cartridge(&[
        // LDX #$CC, then STX $00
        0xA2, 0xCC, 0x86, 0x00,
    ]);

    let mut cpu = Cpu::new(cartridge);
    run_full_instruction(&mut cpu);
    run_full_instruction(&mut cpu);

    assert_eq!(cpu.bus.read(0x0000).unwrap(), 0xCC);
}

#[test]
fn test_jsr_immediate() {
    let cartridge = test_cartridge(&[
        // JSR $77EE
        0x20, 0xEE, 0x77,
    ]);

    let mut cpu = Cpu::new(cartridge);

    let instruction_data = cpu.cycle().unwrap().unwrap().instruction_data;
    assert_eq!(instruction_data.assembly, "JSR $77EE");
    assert_eq!(instruction_data.idle_cycles, 5);

    assert_eq!(cpu.program_counter, 0x8001);

    cpu.cycle().unwrap();
    assert_eq!(cpu.program_counter, 0x8002);

    cpu.cycle().unwrap();
    assert_eq!(cpu.program_counter, 0x8002);

    cpu.cycle().unwrap();
    assert_eq!(cpu.program_counter, 0x8002);
    assert_eq!(cpu.bus.read(0x01FD).unwrap(), 0x80);

    cpu.cycle().unwrap();
    assert_eq!(cpu.program_counter, 0x8002);
    assert_eq!(cpu.bus.read(0x01FC).unwrap(), 0x02);

    cpu.cycle().unwrap();
    assert_eq!(cpu.program_counter, 0x77EE);
}

#[test]
fn test_set_carry_flag_implied() {
    let cartridge = test_cartridge(&[
        // SEC
        0x38,
    ]);

    let mut cpu = Cpu::new(cartridge);

    let instruction_data = cpu.cycle().unwrap().unwrap().instruction_data;
    assert_eq!(instruction_data.assembly, "SEC");
    assert_eq!(instruction_data.idle_cycles, 2);

    assert_eq!(cpu.program_counter, 0x8001);

    cpu.cycle().unwrap();
    assert_eq!(cpu.program_counter, 0x8001);
    assert!(cpu.status.contains(StatusFlag::Carry));
}

#[test]
fn test_clear_carry_flag_implied() {
    let cartridge = test_cartridge(&[
        // CLC
        0x18,
    ]);

    let mut cpu = Cpu::new(cartridge);
    cpu.status.remove(StatusFlag::Carry);

    let instruction_data = cpu.cycle().unwrap().unwrap().instruction_data;
    assert_eq!(instruction_data.assembly, "CLC");
    assert_eq!(instruction_data.idle_cycles, 2);

    assert_eq!(cpu.program_counter, 0x8001);

    cpu.cycle().unwrap();
    assert_eq!(cpu.program_counter, 0x8001);
    assert!(!cpu.status.contains(StatusFlag::Carry));
}

#[test]
fn test_unmapped_opcode_is_fatal() {
    let cartridge = test_cartridge(&[0xFF]);

    let mut cpu = Cpu::new(cartridge);
    assert!(matches!(
        cpu.cycle(),
        Err(CpuError::UnimplementedOpcode(0xFF))
    ));
}

#[test]
fn test_cycle_out_of_bounds_is_fatal() {
    let cartridge = test_cartridge(&[0xEA]);

    let mut cpu = Cpu::new(cartridge);
    cpu.current_instruction = Instruction::NoOperationImplied;
    cpu.current_instruction_cycle = 9;
    assert!(matches!(
        cpu.cycle(),
        Err(CpuError::InstructionError(
            CycleError::InstructionCycleOutOfBounds
        ))
    ));
}

#[test]
fn test_snapshot_reports_pre_fetch_state() {
    let cartridge = test_cartridge(&[
        // LDX #$01
        0xA2, 0x01,
    ]);

    let mut cpu = Cpu::new(cartridge);
    let snapshot = cpu.cycle().unwrap().unwrap();

    assert_eq!(snapshot.program_counter, 0x8000);
    assert_eq!(snapshot.opcode, 0xA2);
    assert_eq!(snapshot.accumulator, 0);
    assert_eq!(snapshot.register_x, 0);
    assert_eq!(snapshot.register_y, 0);
    assert_eq!(snapshot.stack_pointer, 0xFD);
    // Power-on status: decimal (bit 3) and break-origin (bit 4)
    assert_eq!(snapshot.status, 0b0001_1000);
    // Six reset cycles plus the fetch cycle itself
    assert_eq!(snapshot.cpy_cycles, 7);
    assert_eq!(snapshot.instruction_data.arg_1, Some(0x01));
    assert_eq!(snapshot.instruction_data.arg_2, None);
}
