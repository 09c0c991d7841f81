//! The relative branch instructions: one for each testable status flag and
//! polarity.

use crate::bus::BusError;
use crate::cpu::{
    spec_data_result_matches, Cpu, CpuView, CycleError, InstructionData, InstructionDataView,
    StatusFlag,
};
use crate::text::{append_hex4, spec_hex4};
use crate::{
    build_address, get_lower_byte, get_upper_byte, spec_build_address, spec_lower_byte,
    spec_upper_byte, spec_wrapping_add_u16, spec_wrapping_inc_u16, spec_wrapping_inc_u8,
    wrapping_add_u16, wrapping_inc_u16, wrapping_inc_u8,
};
use vstd::prelude::*;
use vstd::string::StringExecFns;

verus! {

/// Whether a status flag can steer a branch instruction.
pub open spec fn spec_is_branch_flag(flag: StatusFlag) -> bool {
    match flag {
        StatusFlag::Carry => true,
        StatusFlag::Zero => true,
        StatusFlag::Overflow => true,
        StatusFlag::Negative => true,
        _ => false,
    }
}

/// The assembly mnemonic of the branch over the given flag and polarity.
pub open spec fn spec_branch_prefix(flag: StatusFlag, not: bool) -> Seq<char> {
    if !not {
        match flag {
            StatusFlag::Carry => "BCS"@,
            StatusFlag::Zero => "BEQ"@,
            StatusFlag::Overflow => "BVS"@,
            StatusFlag::Negative => "BMI"@,
            _ => Seq::empty(),
        }
    } else {
        match flag {
            StatusFlag::Carry => "BCC"@,
            StatusFlag::Zero => "BNE"@,
            StatusFlag::Overflow => "BVC"@,
            StatusFlag::Negative => "BPL"@,
            _ => Seq::empty(),
        }
    }
}

/// The branch target as the instruction data computes it: the program
/// counter still at the opcode, plus the two instruction bytes, plus the
/// offset byte, wrapping around the 16-bit range.
pub open spec fn spec_branch_target(program_counter: u16, offset: u8) -> u16 {
    spec_wrapping_add_u16(program_counter, (2 + offset) as u16)
}

/// Whether the branch is taken: the tested flag must match the wanted
/// polarity.
pub open spec fn spec_branch_taken(
    status: crate::cpu::CpuStatusFlags,
    flag: StatusFlag,
    not: bool,
) -> bool {
    status.spec_contains(flag) != not
}

/// The idle cycles a branch announces: one when not taken, one more for the
/// redirect when taken, and a further one when the target's page differs
/// from the opcode's page.
pub open spec fn spec_branch_idle_cycles(pre: CpuView, offset: u8, flag: StatusFlag, not: bool) -> u8 {
    if spec_branch_taken(pre.status, flag, not) {
        if spec_upper_byte(pre.program_counter) != spec_upper_byte(
            spec_branch_target(pre.program_counter, offset),
        ) {
            3
        } else {
            2
        }
    } else {
        1
    }
}

/// The instruction data a branch instruction reports: the offset byte as
/// its one argument, the computed target in its assembly rendering, and the
/// idle cycles its condition and page crossing cost.
pub open spec fn spec_branch_data(pre: CpuView, flag: StatusFlag, not: bool) -> Result<
    InstructionDataView,
    BusError,
> {
    match pre.read(spec_wrapping_inc_u16(pre.program_counter)) {
        Ok(offset) => Ok(
            InstructionDataView {
                assembly: spec_branch_prefix(flag, not) + " $"@ + spec_hex4(
                    spec_branch_target(pre.program_counter, offset),
                ),
                idle_cycles: spec_branch_idle_cycles(pre, offset, flag, not),
                arg_1: Some(offset),
                arg_2: None,
            },
        ),
        Err(error) => Err(error),
    }
}

/// One cycle of a branch instruction. The first idle cycle reads the offset
/// and advances past it, ending the instruction when the branch is not
/// taken. The second adds the offset to the program counter; when the sum
/// stays on the page the instruction ends there, otherwise the program
/// counter transiently keeps the stale high byte with the correct low byte.
/// The third cycle patches the high byte by one.
pub open spec fn spec_branch_cycles(pre: CpuView, flag: StatusFlag, not: bool) -> (
    CpuView,
    Result<bool, CycleError>,
) {
    if pre.current_instruction_cycle == 2 {
        match pre.read(pre.program_counter) {
            Ok(offset) => {
                let advanced = CpuView {
                    program_counter: spec_wrapping_inc_u16(pre.program_counter),
                    ..pre
                };
                if spec_branch_taken(pre.status, flag, not) {
                    (CpuView { cache: pre.cache.push(offset), ..advanced }, Ok(false))
                } else {
                    (advanced, Ok(true))
                }
            },
            Err(error) => (pre, Err(CycleError::BusError(error))),
        }
    } else if pre.current_instruction_cycle == 3 {
        let target = spec_wrapping_add_u16(pre.program_counter, pre.cache[0] as u16);
        if spec_upper_byte(target) == spec_upper_byte(pre.program_counter) {
            (CpuView { program_counter: target, ..pre }, Ok(true))
        } else {
            (
                CpuView {
                    program_counter: spec_build_address(
                        spec_lower_byte(target),
                        spec_upper_byte(pre.program_counter),
                    ),
                    ..pre
                },
                Ok(false),
            )
        }
    } else if pre.current_instruction_cycle == 4 {
        (
            CpuView {
                program_counter: spec_build_address(
                    spec_lower_byte(pre.program_counter),
                    spec_wrapping_inc_u8(spec_upper_byte(pre.program_counter)),
                ),
                ..pre
            },
            Ok(true),
        )
    } else {
        (pre, Err(CycleError::InstructionCycleOutOfBounds))
    }
}

/// The flag and polarity a branch instruction tests, or nothing for an
/// instruction that is no branch.
pub open spec fn spec_branch_selector(instruction: crate::cpu::Instruction) -> Option<
    (StatusFlag, bool),
> {
    match instruction {
        crate::cpu::Instruction::BranchIfCarrySetRelative => Some((StatusFlag::Carry, false)),
        crate::cpu::Instruction::BranchIfCarryClearRelative => Some((StatusFlag::Carry, true)),
        crate::cpu::Instruction::BranchIfEqual => Some((StatusFlag::Zero, false)),
        crate::cpu::Instruction::BranchIfNotEqual => Some((StatusFlag::Zero, true)),
        crate::cpu::Instruction::BranchIfOverflowSet => Some((StatusFlag::Overflow, false)),
        crate::cpu::Instruction::BranchIfOverflowClear => Some((StatusFlag::Overflow, true)),
        crate::cpu::Instruction::BranchIfMinus => Some((StatusFlag::Negative, false)),
        crate::cpu::Instruction::BranchIfPositive => Some((StatusFlag::Negative, true)),
        _ => None,
    }
}

/// Law: a branch that is not taken costs exactly one idle cycle. From the
/// cycle after the fetch, one step of the engine completes the instruction,
/// with the program counter just past the offset byte and the flags and
/// registers untouched.
pub proof fn lemma_branch_not_taken_costs_one_idle(
    s2: CpuView,
    flag: StatusFlag,
    not: bool,
    offset: u8,
)
    requires
        s2.wf(),
        spec_branch_selector(s2.current_instruction) == Some((flag, not)),
        s2.current_instruction_cycle == 2,
        s2.read(s2.program_counter) == Ok::<u8, BusError>(offset),
        !spec_branch_taken(s2.status, flag, not),
    ensures
        ({
            let (s3, outcome) = crate::cpu::spec_cycle(s2);
            &&& outcome matches Ok(None)
            &&& s3.current_instruction_cycle == 1
            &&& s3.program_counter == spec_wrapping_inc_u16(s2.program_counter)
            &&& s3.status == s2.status
            &&& s3.register_x == s2.register_x
            &&& s3.ram == s2.ram
        }),
{
}

/// Law: a branch that is taken within its page costs exactly two idle
/// cycles. From the cycle after the fetch, two steps of the engine complete
/// the instruction, with the program counter at the target built from the
/// post-operand program counter plus the unsigned offset.
pub proof fn lemma_branch_taken_same_page_costs_two_idles(
    s2: CpuView,
    flag: StatusFlag,
    not: bool,
    offset: u8,
)
    requires
        s2.wf(),
        spec_branch_selector(s2.current_instruction) == Some((flag, not)),
        s2.current_instruction_cycle == 2,
        s2.read(s2.program_counter) == Ok::<u8, BusError>(offset),
        spec_branch_taken(s2.status, flag, not),
        spec_upper_byte(
            spec_wrapping_add_u16(spec_wrapping_inc_u16(s2.program_counter), offset as u16),
        ) == spec_upper_byte(spec_wrapping_inc_u16(s2.program_counter)),
    ensures
        ({
            let (s3, outcome3) = crate::cpu::spec_cycle(s2);
            let (s4, outcome4) = crate::cpu::spec_cycle(s3);
            &&& outcome3 matches Ok(None)
            &&& s3.current_instruction_cycle == 3
            &&& outcome4 matches Ok(None)
            &&& s4.current_instruction_cycle == 1
            &&& s4.program_counter == spec_wrapping_add_u16(
                spec_wrapping_inc_u16(s2.program_counter),
                offset as u16,
            )
        }),
{
}

/// Law: a branch that is taken across a page boundary costs exactly three
/// idle cycles, and after the second of them the program counter
/// observably holds the transiently wrong address: the target's low byte
/// combined with the original high byte. The third idle cycle patches the
/// high byte by one and completes the instruction.
#[verifier::rlimit(60)]
pub proof fn lemma_branch_taken_page_cross_costs_three_idles(
    s2: CpuView,
    flag: StatusFlag,
    not: bool,
    offset: u8,
)
    requires
        s2.wf(),
        spec_branch_selector(s2.current_instruction) == Some((flag, not)),
        s2.current_instruction_cycle == 2,
        s2.read(s2.program_counter) == Ok::<u8, BusError>(offset),
        spec_branch_taken(s2.status, flag, not),
        spec_upper_byte(
            spec_wrapping_add_u16(spec_wrapping_inc_u16(s2.program_counter), offset as u16),
        ) != spec_upper_byte(spec_wrapping_inc_u16(s2.program_counter)),
    ensures
        ({
            let (s3, outcome3) = crate::cpu::spec_cycle(s2);
            let (s4, outcome4) = crate::cpu::spec_cycle(s3);
            let (s5, outcome5) = crate::cpu::spec_cycle(s4);
            let operand_pc = spec_wrapping_inc_u16(s2.program_counter);
            let target = spec_wrapping_add_u16(operand_pc, offset as u16);
            &&& outcome3 matches Ok(None)
            &&& s3.current_instruction_cycle == 3
            &&& outcome4 matches Ok(None)
            &&& s4.current_instruction_cycle == 4
            &&& s4.program_counter == spec_build_address(
                spec_lower_byte(target),
                spec_upper_byte(operand_pc),
            )
            &&& outcome5 matches Ok(None)
            &&& s5.current_instruction_cycle == 1
            &&& s5.program_counter == target
        }),
{
    let (s3, outcome3) = crate::cpu::spec_cycle(s2);
    let (s4, outcome4) = crate::cpu::spec_cycle(s3);
    let operand_pc = spec_wrapping_inc_u16(s2.program_counter);
    let target = spec_wrapping_add_u16(operand_pc, offset as u16);
    assert(s4.program_counter == spec_build_address(
        spec_lower_byte(target),
        spec_upper_byte(operand_pc),
    ));
    assert(spec_lower_byte(spec_build_address(spec_lower_byte(target), spec_upper_byte(operand_pc)))
        == spec_lower_byte(target)) by (nonlinear_arith);
    assert(spec_upper_byte(spec_build_address(spec_lower_byte(target), spec_upper_byte(operand_pc)))
        == spec_upper_byte(operand_pc)) by (nonlinear_arith);
    lemma_branch_patch_reaches_target(operand_pc, offset);
}

/// Law: the hardware's two-step program-counter correction is sound. When
/// adding the unsigned offset to the post-operand program counter leaves its
/// page, the address built from the sum's low byte and the high byte patched
/// by one is exactly the true branch target.
pub proof fn lemma_branch_patch_reaches_target(operand_pc: u16, offset: u8)
    requires
        spec_upper_byte(spec_wrapping_add_u16(operand_pc, offset as u16)) != spec_upper_byte(
            operand_pc,
        ),
    ensures
        spec_build_address(
            spec_lower_byte(spec_wrapping_add_u16(operand_pc, offset as u16)),
            spec_wrapping_inc_u8(spec_upper_byte(operand_pc)),
        ) == spec_wrapping_add_u16(operand_pc, offset as u16),
{
    let target = spec_wrapping_add_u16(operand_pc, offset as u16);
    let high = operand_pc as int / 256;
    let low = operand_pc as int % 256;
    vstd::arithmetic::div_mod::lemma_fundamental_div_mod(operand_pc as int, 256);
    if operand_pc + offset < 0x10000 {
        vstd::arithmetic::div_mod::lemma_small_mod((operand_pc + offset) as nat, 0x10000);
        assert(target == operand_pc + offset);
        if low + offset < 256 {
            // The sum stays on the page, against the premise.
            vstd::arithmetic::div_mod::lemma_fundamental_div_mod_converse(
                target as int,
                256,
                high,
                low + offset,
            );
            assert(false);
        } else {
            vstd::arithmetic::div_mod::lemma_fundamental_div_mod_converse(
                target as int,
                256,
                high + 1,
                low + offset - 256,
            );
            assert(spec_upper_byte(target) == high + 1);
            assert(spec_lower_byte(target) == low + offset - 256);
        }
    } else {
        // The sum wraps around the address space, so the original page was
        // the last one and the patched high byte wraps to zero.
        assert(target == operand_pc + offset - 0x10000) by {
            vstd::arithmetic::div_mod::lemma_mod_multiples_vanish(
                -1,
                operand_pc + offset - 0x10000,
                0x10000,
            );
            vstd::arithmetic::div_mod::lemma_small_mod(
                (operand_pc + offset - 0x10000) as nat,
                0x10000,
            );
        }
        assert(high == 255) by {
            if high < 255 {
                assert(operand_pc < 0x10000 - 255);
            }
        }
        vstd::arithmetic::div_mod::lemma_fundamental_div_mod_converse(
            target as int,
            256,
            0,
            low + offset - 256,
        );
        assert(spec_upper_byte(target) == 0);
        assert(spec_lower_byte(target) == low + offset - 256);
    }
}

/// The assembly mnemonic of the branch over the given flag and polarity.
fn branch_prefix(flag: StatusFlag, not: bool) -> (prefix: &'static str)
    requires
        spec_is_branch_flag(flag),
    ensures
        prefix@ == spec_branch_prefix(flag, not),
{
    if !not {
        match flag {
            StatusFlag::Carry => "BCS",
            StatusFlag::Zero => "BEQ",
            StatusFlag::Overflow => "BVS",
            StatusFlag::Negative => "BMI",
            _ => "",
        }
    } else {
        match flag {
            StatusFlag::Carry => "BCC",
            StatusFlag::Zero => "BNE",
            StatusFlag::Overflow => "BVC",
            StatusFlag::Negative => "BPL",
            _ => "",
        }
    }
}

impl Cpu {
    /// Report the instruction data of the branch over the given flag and
    /// polarity.
    pub(crate) fn branch_instruction(&self, flag: StatusFlag, not: bool) -> (result: Result<
        InstructionData,
        BusError,
    >)
        requires
            self.wf(),
            spec_is_branch_flag(flag),
        ensures
            spec_data_result_matches(spec_branch_data(self@, flag, not), result),
    {
        let arg_1 = match self.bus.read(wrapping_inc_u16(self.program_counter)) {
            Ok(value) => value,
            Err(error) => {
                return Err(error);
            },
        };
        let new_program_counter = wrapping_add_u16(self.program_counter, 2 + arg_1 as u16);

        let mut idle_cycles: u8 = 1;
        let contains_status_flag = self.status.contains(flag);
        if (contains_status_flag && !not) || (!contains_status_flag && not) {
            idle_cycles = idle_cycles + 1;
            if get_upper_byte(self.program_counter) != get_upper_byte(new_program_counter) {
                idle_cycles = idle_cycles + 1;
            }
        }
        let mut assembly = String::from_str(branch_prefix(flag, not));
        assembly.append(" $");
        append_hex4(&mut assembly, new_program_counter);
        Ok(InstructionData { arg_1: Some(arg_1), arg_2: None, assembly, idle_cycles })
    }

    /// Run one cycle of the branch over the given flag and polarity.
    pub(crate) fn branch_cycles(&mut self, flag: StatusFlag, not: bool) -> (result: Result<
        bool,
        CycleError,
    >)
        requires
            old(self).wf(),
            old(self)@.current_instruction_cycle >= 3 ==> old(self)@.cache.len() >= 1,
        ensures
            ({
                let (post, outcome) = spec_branch_cycles(old(self)@, flag, not);
                final(self)@ == post && result == outcome
            }),
    {
        match self.current_instruction_cycle {
            2 => {
                let offset = match self.read_program_counter() {
                    Ok(value) => value,
                    Err(error) => {
                        return Err(CycleError::BusError(error));
                    },
                };
                self.program_counter = wrapping_inc_u16(self.program_counter);

                let contains_status_flag = self.status.contains(flag);
                if !((contains_status_flag && !not) || (!contains_status_flag && not)) {
                    return Ok(true);
                }
                self.cache.push(offset);
                Ok(false)
            },
            3 => {
                let _ = self.bus.read(wrapping_inc_u16(self.program_counter));
                let new_program_counter = wrapping_add_u16(
                    self.program_counter,
                    self.cache[0] as u16,
                );

                if get_upper_byte(new_program_counter) == get_upper_byte(self.program_counter) {
                    self.program_counter = new_program_counter;
                    return Ok(true);
                }
                // Force the transiently broken program counter: correct low
                // byte, stale high byte
                self.program_counter = build_address(
                    get_lower_byte(new_program_counter),
                    get_upper_byte(self.program_counter),
                );
                Ok(false)
            },
            4 => {
                let _ = self.read_program_counter();
                // Patch the high byte of the program counter
                self.program_counter = build_address(
                    get_lower_byte(self.program_counter),
                    wrapping_inc_u8(get_upper_byte(self.program_counter)),
                );
                Ok(true)
            },
            _ => Err(CycleError::InstructionCycleOutOfBounds),
        }
    }
}

} // verus!
