//! The absolute jump instruction.

use crate::bus::BusError;
use crate::cpu::{
    spec_data_result_matches, Cpu, CpuView, CycleError, InstructionData, InstructionDataView,
};
use crate::text::{append_hex4, spec_hex4};
use crate::{
    build_address, spec_build_address, spec_wrapping_add_u16, spec_wrapping_inc_u16,
    wrapping_add_u16, wrapping_inc_u16,
};
use vstd::prelude::*;
use vstd::string::StringExecFns;

verus! {

/// The instruction data the absolute jump instruction reports: the two
/// target address bytes as its arguments, and two idle cycles.
pub open spec fn spec_jump_absolute_data(pre: CpuView) -> Result<InstructionDataView, BusError> {
    match pre.read(spec_wrapping_inc_u16(pre.program_counter)) {
        Ok(arg_1) => match pre.read(spec_wrapping_add_u16(pre.program_counter, 2)) {
            Ok(arg_2) => Ok(
                InstructionDataView {
                    assembly: "JMP $"@ + spec_hex4(spec_build_address(arg_1, arg_2)),
                    idle_cycles: 2,
                    arg_1: Some(arg_1),
                    arg_2: Some(arg_2),
                },
            ),
            Err(error) => Err(error),
        },
        Err(error) => Err(error),
    }
}

/// One cycle of the absolute jump instruction: the first idle cycle saves
/// the low target byte and advances past it, the second reads the high
/// target byte and loads the assembled address into the program counter.
pub open spec fn spec_jump_absolute_cycles(pre: CpuView) -> (CpuView, Result<bool, CycleError>) {
    if pre.current_instruction_cycle == 2 {
        match pre.read(pre.program_counter) {
            Ok(value) => (
                CpuView {
                    cache: pre.cache.push(value),
                    program_counter: spec_wrapping_inc_u16(pre.program_counter),
                    ..pre
                },
                Ok(false),
            ),
            Err(error) => (pre, Err(CycleError::BusError(error))),
        }
    } else if pre.current_instruction_cycle == 3 {
        match pre.read(pre.program_counter) {
            Ok(value) => (
                CpuView { program_counter: spec_build_address(pre.cache[0], value), ..pre },
                Ok(true),
            ),
            Err(error) => (pre, Err(CycleError::BusError(error))),
        }
    } else {
        (pre, Err(CycleError::InstructionCycleOutOfBounds))
    }
}

impl Cpu {
    /// Report the absolute jump instruction data.
    pub(crate) fn jump_absolute_instruction(&self) -> (result: Result<InstructionData, BusError>)
        requires
            self.wf(),
        ensures
            spec_data_result_matches(spec_jump_absolute_data(self@), result),
    {
        let arg_1 = match self.bus.read(wrapping_inc_u16(self.program_counter)) {
            Ok(value) => value,
            Err(error) => {
                return Err(error);
            },
        };
        let arg_2 = match self.bus.read(wrapping_add_u16(self.program_counter, 2)) {
            Ok(value) => value,
            Err(error) => {
                return Err(error);
            },
        };
        let address = build_address(arg_1, arg_2);
        let mut assembly = String::from_str("JMP $");
        append_hex4(&mut assembly, address);
        Ok(InstructionData { arg_1: Some(arg_1), arg_2: Some(arg_2), assembly, idle_cycles: 2 })
    }

    /// Run one cycle of the absolute jump instruction.
    pub(crate) fn jump_absolute_cycles(&mut self) -> (result: Result<bool, CycleError>)
        requires
            old(self).wf(),
            old(self)@.current_instruction_cycle >= 3 ==> old(self)@.cache.len() >= 1,
        ensures
            ({
                let (post, outcome) = spec_jump_absolute_cycles(old(self)@);
                final(self)@ == post && result == outcome
            }),
    {
        match self.current_instruction_cycle {
            2 => {
                let value = match self.read_program_counter() {
                    Ok(value) => value,
                    Err(error) => {
                        return Err(CycleError::BusError(error));
                    },
                };
                self.cache.push(value);
                self.program_counter = wrapping_inc_u16(self.program_counter);
                Ok(false)
            },
            3 => {
                let upper_byte = match self.read_program_counter() {
                    Ok(value) => value,
                    Err(error) => {
                        return Err(CycleError::BusError(error));
                    },
                };
                self.program_counter = build_address(self.cache[0], upper_byte);
                Ok(true)
            },
            _ => Err(CycleError::InstructionCycleOutOfBounds),
        }
    }
}

} // verus!
