//! The zero-page store-X-register instruction.

use crate::bus::BusError;
use crate::cpu::{
    spec_data_result_matches, Cpu, CpuView, CycleError, InstructionData, InstructionDataView,
};
use crate::text::{append_hex2, spec_hex2};
use crate::{build_address, spec_build_address, spec_wrapping_inc_u16, wrapping_inc_u16};
use vstd::prelude::*;
use vstd::string::StringExecFns;

verus! {

/// The instruction data the zero-page store-X-register instruction reports:
/// the zero-page address byte as its one argument, the byte currently under
/// that address in its assembly rendering, and two idle cycles.
pub open spec fn spec_store_x_register_zero_page_data(pre: CpuView) -> Result<
    InstructionDataView,
    BusError,
> {
    match pre.read(spec_wrapping_inc_u16(pre.program_counter)) {
        Ok(arg_1) => match pre.read(spec_build_address(arg_1, 0)) {
            Ok(stored) => Ok(
                InstructionDataView {
                    assembly: "STX #$"@ + spec_hex2(arg_1) + " = "@ + spec_hex2(stored),
                    idle_cycles: 2,
                    arg_1: Some(arg_1),
                    arg_2: None,
                },
            ),
            Err(error) => Err(error),
        },
        Err(error) => Err(error),
    }
}

/// One cycle of the zero-page store-X-register instruction: the first idle
/// cycle saves the zero-page address byte and advances past it, the second
/// writes register X to that zero-page address.
pub open spec fn spec_store_x_register_zero_page_cycles(pre: CpuView) -> (
    CpuView,
    Result<bool, CycleError>,
) {
    if pre.current_instruction_cycle == 2 {
        match pre.read(pre.program_counter) {
            Ok(value) => (
                CpuView {
                    cache: pre.cache.push(value),
                    program_counter: spec_wrapping_inc_u16(pre.program_counter),
                    ..pre
                },
                Ok(false),
            ),
            Err(error) => (pre, Err(CycleError::BusError(error))),
        }
    } else if pre.current_instruction_cycle == 3 {
        (CpuView { ram: pre.ram.update(pre.cache[0] as int, pre.register_x), ..pre }, Ok(true))
    } else {
        (pre, Err(CycleError::InstructionCycleOutOfBounds))
    }
}

impl Cpu {
    /// Report the zero-page store-X-register instruction data.
    pub(crate) fn store_x_register_zero_page_instruction(&self) -> (result: Result<
        InstructionData,
        BusError,
    >)
        requires
            self.wf(),
        ensures
            spec_data_result_matches(spec_store_x_register_zero_page_data(self@), result),
    {
        let arg_1 = match self.bus.read(wrapping_inc_u16(self.program_counter)) {
            Ok(value) => value,
            Err(error) => {
                return Err(error);
            },
        };
        let stored = match self.bus.read(build_address(arg_1, 0x00)) {
            Ok(value) => value,
            Err(error) => {
                return Err(error);
            },
        };
        let mut assembly = String::from_str("STX #$");
        append_hex2(&mut assembly, arg_1);
        assembly.append(" = ");
        append_hex2(&mut assembly, stored);
        Ok(InstructionData { arg_1: Some(arg_1), arg_2: None, assembly, idle_cycles: 2 })
    }

    /// Run one cycle of the zero-page store-X-register instruction.
    pub(crate) fn store_x_register_zero_page_cycles(&mut self) -> (result: Result<
        bool,
        CycleError,
    >)
        requires
            old(self).wf(),
            old(self)@.current_instruction_cycle >= 3 ==> old(self)@.cache.len() >= 1,
        ensures
            ({
                let (post, outcome) = spec_store_x_register_zero_page_cycles(old(self)@);
                final(self)@ == post && result == outcome
            }),
    {
        match self.current_instruction_cycle {
            2 => {
                let value = match self.read_program_counter() {
                    Ok(value) => value,
                    Err(error) => {
                        return Err(CycleError::BusError(error));
                    },
                };
                self.cache.push(value);
                self.program_counter = wrapping_inc_u16(self.program_counter);
                Ok(false)
            },
            3 => {
                let address = build_address(self.cache[0], 0x00);
                match self.bus.write(address, self.register_x) {
                    Ok(_) => {},
                    Err(error) => {
                        return Err(CycleError::BusError(error));
                    },
                }
                Ok(true)
            },
            _ => Err(CycleError::InstructionCycleOutOfBounds),
        }
    }
}

} // verus!
