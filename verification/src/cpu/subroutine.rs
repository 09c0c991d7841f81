//! The absolute jump-to-subroutine instruction.

use crate::bus::BusError;
use crate::cpu::{
    spec_data_result_matches, Cpu, CpuView, CycleError, InstructionData, InstructionDataView,
    STACK_ADDRESS,
};
use crate::text::{append_hex4, spec_hex4};
use crate::{
    build_address, get_lower_byte, get_upper_byte, spec_build_address, spec_lower_byte,
    spec_upper_byte, spec_wrapping_add_u16, spec_wrapping_dec_u8, spec_wrapping_inc_u16,
    wrapping_add_u16, wrapping_inc_u16,
};
use vstd::prelude::*;
use vstd::string::StringExecFns;

verus! {

/// The instruction data the absolute jump-to-subroutine instruction
/// reports: the two target address bytes as its arguments, and five idle
/// cycles.
pub open spec fn spec_jump_to_subroutine_data(pre: CpuView) -> Result<
    InstructionDataView,
    BusError,
> {
    match pre.read(spec_wrapping_inc_u16(pre.program_counter)) {
        Ok(arg_1) => match pre.read(spec_wrapping_add_u16(pre.program_counter, 2)) {
            Ok(arg_2) => Ok(
                InstructionDataView {
                    assembly: "JSR $"@ + spec_hex4(spec_build_address(arg_1, arg_2)),
                    idle_cycles: 5,
                    arg_1: Some(arg_1),
                    arg_2: Some(arg_2),
                },
            ),
            Err(error) => Err(error),
        },
        Err(error) => Err(error),
    }
}

/// One cycle of the absolute jump-to-subroutine instruction: save the low
/// target byte and advance past it, spend one internal-operation cycle on a
/// dummy stack-page read, push the high then the low byte of the return
/// address (the program counter still pointing at the high target byte),
/// and finally read the high target byte and load the assembled address.
pub open spec fn spec_jump_to_subroutine_cycles(pre: CpuView) -> (
    CpuView,
    Result<bool, CycleError>,
) {
    if pre.current_instruction_cycle == 2 {
        match pre.read(pre.program_counter) {
            Ok(value) => (
                CpuView {
                    cache: pre.cache.push(value),
                    program_counter: spec_wrapping_inc_u16(pre.program_counter),
                    ..pre
                },
                Ok(false),
            ),
            Err(error) => (pre, Err(CycleError::BusError(error))),
        }
    } else if pre.current_instruction_cycle == 3 {
        match pre.read(0x100) {
            Ok(_) => (pre, Ok(false)),
            Err(error) => (pre, Err(CycleError::BusError(error))),
        }
    } else if pre.current_instruction_cycle == 4 {
        (
            CpuView {
                ram: pre.ram.update(
                    0x100 + pre.stack_pointer,
                    spec_upper_byte(pre.program_counter),
                ),
                stack_pointer: spec_wrapping_dec_u8(pre.stack_pointer),
                ..pre
            },
            Ok(false),
        )
    } else if pre.current_instruction_cycle == 5 {
        (
            CpuView {
                ram: pre.ram.update(
                    0x100 + pre.stack_pointer,
                    spec_lower_byte(pre.program_counter),
                ),
                stack_pointer: spec_wrapping_dec_u8(pre.stack_pointer),
                ..pre
            },
            Ok(false),
        )
    } else if pre.current_instruction_cycle == 6 {
        match pre.read(pre.program_counter) {
            Ok(value) => (
                CpuView { program_counter: spec_build_address(pre.cache[0], value), ..pre },
                Ok(true),
            ),
            Err(error) => (pre, Err(CycleError::BusError(error))),
        }
    } else {
        (pre, Err(CycleError::InstructionCycleOutOfBounds))
    }
}

impl Cpu {
    /// Report the absolute jump-to-subroutine instruction data.
    pub(crate) fn jump_to_subroutine_absolute_instruction(&self) -> (result: Result<
        InstructionData,
        BusError,
    >)
        requires
            self.wf(),
        ensures
            spec_data_result_matches(spec_jump_to_subroutine_data(self@), result),
    {
        let arg_1 = match self.bus.read(wrapping_inc_u16(self.program_counter)) {
            Ok(value) => value,
            Err(error) => {
                return Err(error);
            },
        };
        let arg_2 = match self.bus.read(wrapping_add_u16(self.program_counter, 2)) {
            Ok(value) => value,
            Err(error) => {
                return Err(error);
            },
        };
        let address = build_address(arg_1, arg_2);
        let mut assembly = String::from_str("JSR $");
        append_hex4(&mut assembly, address);
        Ok(InstructionData { arg_1: Some(arg_1), arg_2: Some(arg_2), assembly, idle_cycles: 5 })
    }

    /// Run one cycle of the absolute jump-to-subroutine instruction.
    pub(crate) fn jump_to_subroutine_absolute_cycles(&mut self) -> (result: Result<
        bool,
        CycleError,
    >)
        requires
            old(self).wf(),
            old(self)@.current_instruction_cycle >= 3 ==> old(self)@.cache.len() >= 1,
        ensures
            ({
                let (post, outcome) = spec_jump_to_subroutine_cycles(old(self)@);
                final(self)@ == post && result == outcome
            }),
    {
        match self.current_instruction_cycle {
            2 => {
                let value = match self.read_program_counter() {
                    Ok(value) => value,
                    Err(error) => {
                        return Err(CycleError::BusError(error));
                    },
                };
                self.cache.push(value);
                self.program_counter = wrapping_inc_u16(self.program_counter);
                Ok(false)
            },
            3 => {
                // Internal operation
                match self.bus.read(STACK_ADDRESS) {
                    Ok(_) => {},
                    Err(error) => {
                        return Err(CycleError::BusError(error));
                    },
                }
                Ok(false)
            },
            4 => {
                let upper_byte = get_upper_byte(self.program_counter);
                match self.stack_push(upper_byte) {
                    Ok(_) => {},
                    Err(error) => {
                        return Err(CycleError::BusError(error));
                    },
                }
                Ok(false)
            },
            5 => {
                let lower_byte = get_lower_byte(self.program_counter);
                match self.stack_push(lower_byte) {
                    Ok(_) => {},
                    Err(error) => {
                        return Err(CycleError::BusError(error));
                    },
                }
                Ok(false)
            },
            6 => {
                let program_counter_high = match self.read_program_counter() {
                    Ok(value) => value,
                    Err(error) => {
                        return Err(CycleError::BusError(error));
                    },
                };
                self.program_counter = build_address(self.cache[0], program_counter_high);
                Ok(true)
            },
            _ => Err(CycleError::InstructionCycleOutOfBounds),
        }
    }
}

} // verus!
