//! The no-operation instruction: one idle cycle with a dummy bus read.

use crate::bus::BusError;
use crate::cpu::{
    spec_data_result_matches, Cpu, CpuView, CycleError, InstructionData, InstructionDataView,
};
use vstd::prelude::*;
use vstd::string::StringExecFns;

verus! {

/// The instruction data the no-operation instruction reports: no arguments
/// and one idle cycle.
pub open spec fn spec_no_operation_data(pre: CpuView) -> Result<InstructionDataView, BusError> {
    Ok(
        InstructionDataView {
            assembly: "NOP"@,
            idle_cycles: 1,
            arg_1: None,
            arg_2: None,
        },
    )
}

/// One cycle of the no-operation instruction: its single idle cycle performs
/// a dummy read under the program counter and changes nothing.
pub open spec fn spec_no_operation_cycles(pre: CpuView) -> (CpuView, Result<bool, CycleError>) {
    if pre.current_instruction_cycle == 2 {
        (pre, Ok(true))
    } else {
        (pre, Err(CycleError::InstructionCycleOutOfBounds))
    }
}

impl Cpu {
    /// Report the implied no-operation instruction data.
    pub(crate) fn no_operation_implied_instruction(&self) -> (result: Result<
        InstructionData,
        BusError,
    >)
        ensures
            spec_data_result_matches(spec_no_operation_data(self@), result),
    {
        Ok(
            InstructionData {
                arg_1: None,
                arg_2: None,
                assembly: String::from_str("NOP"),
                idle_cycles: 1,
            },
        )
    }

    /// Run one cycle of the implied no-operation instruction.
    pub(crate) fn no_operation_cycles(&mut self) -> (result: Result<bool, CycleError>)
        requires
            old(self).wf(),
        ensures
            ({
                let (post, outcome) = spec_no_operation_cycles(old(self)@);
                final(self)@ == post && result == outcome
            }),
    {
        match self.current_instruction_cycle {
            2 => {
                // Dummy read
                let _ = self.read_program_counter();
                Ok(true)
            },
            _ => Err(CycleError::InstructionCycleOutOfBounds),
        }
    }
}

} // verus!
