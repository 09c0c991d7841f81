//! The instructions that set and clear the carry flag of the CPU.

use crate::bus::BusError;
use crate::cpu::{
    spec_data_result_matches, Cpu, CpuView, CycleError, InstructionData, InstructionDataView,
    StatusFlag,
};
use vstd::prelude::*;
use vstd::string::StringExecFns;

verus! {

/// The instruction data the implied set-carry-flag instruction reports.
pub open spec fn spec_set_carry_flag_data(pre: CpuView) -> Result<InstructionDataView, BusError> {
    Ok(
        InstructionDataView {
            assembly: "SEC"@,
            idle_cycles: 2,
            arg_1: None,
            arg_2: None,
        },
    )
}

/// The instruction data the implied clear-carry-flag instruction reports.
pub open spec fn spec_clear_carry_flag_data(pre: CpuView) -> Result<
    InstructionDataView,
    BusError,
> {
    Ok(
        InstructionDataView {
            assembly: "CLC"@,
            idle_cycles: 2,
            arg_1: None,
            arg_2: None,
        },
    )
}

/// One cycle of the implied set-carry-flag instruction: its single idle
/// cycle performs a dummy read and sets the carry flag.
pub open spec fn spec_set_carry_flag_implied_cycles(pre: CpuView) -> (
    CpuView,
    Result<bool, CycleError>,
) {
    if pre.current_instruction_cycle == 2 {
        (CpuView { status: pre.status.spec_insert(StatusFlag::Carry), ..pre }, Ok(true))
    } else {
        (pre, Err(CycleError::InstructionCycleOutOfBounds))
    }
}

/// One cycle of the implied clear-carry-flag instruction: its single idle
/// cycle performs a dummy read and clears the carry flag.
pub open spec fn spec_clear_carry_flag_implied_cycles(pre: CpuView) -> (
    CpuView,
    Result<bool, CycleError>,
) {
    if pre.current_instruction_cycle == 2 {
        (CpuView { status: pre.status.spec_remove(StatusFlag::Carry), ..pre }, Ok(true))
    } else {
        (pre, Err(CycleError::InstructionCycleOutOfBounds))
    }
}

impl Cpu {
    /// Report the implied set-carry-flag instruction data.
    pub(crate) fn set_carry_flag_implied_instruction(&self) -> (result: Result<
        InstructionData,
        BusError,
    >)
        ensures
            spec_data_result_matches(spec_set_carry_flag_data(self@), result),
    {
        Ok(
            InstructionData {
                arg_1: None,
                arg_2: None,
                assembly: String::from_str("SEC"),
                idle_cycles: 2,
            },
        )
    }

    /// Report the implied clear-carry-flag instruction data.
    pub(crate) fn clear_carry_flag_implied_instruction(&self) -> (result: Result<
        InstructionData,
        BusError,
    >)
        ensures
            spec_data_result_matches(spec_clear_carry_flag_data(self@), result),
    {
        Ok(
            InstructionData {
                arg_1: None,
                arg_2: None,
                assembly: String::from_str("CLC"),
                idle_cycles: 2,
            },
        )
    }

    /// Run one cycle of the implied set-carry-flag instruction.
    pub(crate) fn set_carry_flag_implied_cycles(&mut self) -> (result: Result<bool, CycleError>)
        requires
            old(self).wf(),
        ensures
            ({
                let (post, outcome) = spec_set_carry_flag_implied_cycles(old(self)@);
                final(self)@ == post && result == outcome
            }),
    {
        match self.current_instruction_cycle {
            2 => {
                let _ = self.read_program_counter();
                self.status.insert(StatusFlag::Carry);
                Ok(true)
            },
            _ => Err(CycleError::InstructionCycleOutOfBounds),
        }
    }

    /// Run one cycle of the implied clear-carry-flag instruction.
    pub(crate) fn clear_carry_flag_implied_cycles(&mut self) -> (result: Result<bool, CycleError>)
        requires
            old(self).wf(),
        ensures
            ({
                let (post, outcome) = spec_clear_carry_flag_implied_cycles(old(self)@);
                final(self)@ == post && result == outcome
            }),
    {
        match self.current_instruction_cycle {
            2 => {
                let _ = self.read_program_counter();
                self.status.remove(StatusFlag::Carry);
                Ok(true)
            },
            _ => Err(CycleError::InstructionCycleOutOfBounds),
        }
    }
}

} // verus!
