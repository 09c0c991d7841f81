//! Tests for the relative branch instructions: timing, page crossing and
//! the observable transient program counter.

use tinfo::cartridge::nrom::Nrom;
use tinfo::cartridge::Cartridge;
use tinfo::cpu::{Cpu, StatusFlag};

/// A cartridge whose program ROM starts with the given bytes at 0x8000 and
/// holds the no-operation opcode everywhere else.
fn test_cartridge(prg_data: &[u8]) -> Cartridge {
    let mut rom = vec![0xEAu8; 16 * 1024];
    for (index, byte) in prg_data.iter().enumerate() {
        rom[index] = *byte;
    }
    Cartridge::Nrom(Nrom::new(false, rom))
}

fn branching_relative_no_branching(opcode: u8, assembly_text: &str, not: bool, flag: StatusFlag) {
    let cartridge = test_cartridge(&[opcode, 0x20]);

    let mut cpu = Cpu::new(cartridge);

    if not {
        cpu.status.insert(flag);
    }
    let instruction_data = cpu.cycle().unwrap().unwrap().instruction_data;
    assert_eq!(instruction_data.assembly, format!("{assembly_text} $8022"));
    assert_eq!(instruction_data.idle_cycles, 1);

    assert_eq!(cpu.program_counter, 0x8001);

    cpu.cycle().unwrap();
    assert_eq!(cpu.program_counter, 0x8002);
}

#[test]
fn test_branching_relative_no_branching_bcs() {
    branching_relative_no_branching(0xB0, "BCS", false, StatusFlag::Carry);
}

#[test]
fn test_branching_relative_no_branching_bcc() {
    branching_relative_no_branching(0x90, "BCC", true, StatusFlag::Carry);
}

#[test]
fn test_branching_relative_no_branching_beq() {
    branching_relative_no_branching(0xF0, "BEQ", false, StatusFlag::Zero);
}

#[test]
fn test_branching_relative_no_branching_bne() {
    branching_relative_no_branching(0xD0, "BNE", true, StatusFlag::Zero);
}

#[test]
fn test_branching_relative_no_branching_bvs() {
    branching_relative_no_branching(0x70, "BVS", false, StatusFlag::Overflow);
}

#[test]
fn test_branching_relative_no_branching_bvc() {
    branching_relative_no_branching(0x50, "BVC", true, StatusFlag::Overflow);
}

#[test]
fn test_branching_relative_no_branching_bmi() {
    branching_relative_no_branching(0x30, "BMI", false, StatusFlag::Negative);
}

#[test]
fn test_branching_relative_no_branching_bpl() {
    branching_relative_no_branching(0x10, "BPL", true, StatusFlag::Negative);
}

fn branching_relative_branching_same_page(
    opcode: u8,
    assembly_text: &str,
    not: bool,
    flag: StatusFlag,
) {
    let cartridge = test_cartridge(&[opcode, 0x20]);

    let mut cpu = Cpu::new(cartridge);

    if !not {
        cpu.status.insert(flag);
    }
    let instruction_data = cpu.cycle().unwrap().unwrap().instruction_data;
    assert_eq!(instruction_data.assembly, format!("{assembly_text} $8022"));
    assert_eq!(instruction_data.idle_cycles, 2);

    assert_eq!(cpu.program_counter, 0x8001);

    cpu.cycle().unwrap();
    assert_eq!(cpu.program_counter, 0x8002);

    cpu.cycle().unwrap();
    assert_eq!(cpu.program_counter, 0x8022);
}

#[test]
fn test_branching_relative_branching_same_page_bcs() {
    branching_relative_branching_same_page(0xB0, "BCS", false, StatusFlag::Carry);
}

#[test]
fn test_branching_relative_branching_same_page_bcc() {
    branching_relative_branching_same_page(0x90, "BCC", true, StatusFlag::Carry);
}

#[test]
fn test_branching_relative_branching_same_page_beq() {
    branching_relative_branching_same_page(0xF0, "BEQ", false, StatusFlag::Zero);
}

#[test]
fn test_branching_relative_branching_same_page_bne() {
    branching_relative_branching_same_page(0xD0, "BNE", true, StatusFlag::Zero);
}

#[test]
fn test_branching_relative_branching_same_page_bvs() {
    branching_relative_branching_same_page(0x70, "BVS", false, StatusFlag::Overflow);
}

#[test]
fn test_branching_relative_branching_same_page_bvc() {
    branching_relative_branching_same_page(0x50, "BVC", true, StatusFlag::Overflow);
}

#[test]
fn test_branching_relative_branching_same_page_bmi() {
    branching_relative_branching_same_page(0x30, "BMI", false, StatusFlag::Negative);
}

#[test]
fn test_branching_relative_branching_same_page_bpl() {
    branching_relative_branching_same_page(0x10, "BPL", true, StatusFlag::Negative);
}

fn branching_relative_branching_page_change(
    opcode: u8,
    assembly_text: &str,
    not: bool,
    flag: StatusFlag,
) {
    let cartridge = test_cartridge(&[opcode, 0xFE]);

    let mut cpu = Cpu::new(cartridge);

    if !not {
        cpu.status.insert(flag);
    }
    let instruction_data = cpu.cycle().unwrap().unwrap().instruction_data;
    assert_eq!(instruction_data.assembly, format!("{assembly_text} $8100"));
    assert_eq!(instruction_data.idle_cycles, 3);

    assert_eq!(cpu.program_counter, 0x8001);

    cpu.cycle().unwrap();
    assert_eq!(cpu.program_counter, 0x8002);

    cpu.cycle().unwrap();
    // Check that the transiently incorrect value is being exposed on purpose
    assert_eq!(cpu.program_counter, 0x8000);

    cpu.cycle().unwrap();
    assert_eq!(cpu.program_counter, 0x8100);
}

#[test]
fn test_branching_relative_branching_page_change_bcs() {
    branching_relative_branching_page_change(0xB0, "BCS", false, StatusFlag::Carry);
}

#[test]
fn test_branching_relative_branching_page_change_bcc() {
    branching_relative_branching_page_change(0x90, "BCC", true, StatusFlag::Carry);
}

#[test]
fn test_branching_relative_branching_page_change_beq() {
    branching_relative_branching_page_change(0xF0, "BEQ", false, StatusFlag::Zero);
}

#[test]
fn test_branching_relative_branching_page_change_bne() {
    branching_relative_branching_page_change(0xD0, "BNE", true, StatusFlag::Zero);
}

#[test]
fn test_branching_relative_branching_page_change_bvs() {
    branching_relative_branching_page_change(0x70, "BVS", false, StatusFlag::Overflow);
}

#[test]
fn test_branching_relative_branching_page_change_bvc() {
    branching_relative_branching_page_change(0x50, "BVC", true, StatusFlag::Overflow);
}

#[test]
fn test_branching_relative_branching_page_change_bmi() {
    branching_relative_branching_page_change(0x30, "BMI", false, StatusFlag::Negative);
}

#[test]
fn test_branching_relative_branching_page_change_bpl() {
    branching_relative_branching_page_change(0x10, "BPL", true, StatusFlag::Negative);
}
