//! The immediate load-X-register instruction.

use crate::bus::BusError;
use crate::cpu::{
    spec_data_result_matches, spec_with_signedness, Cpu, CpuView, CycleError, InstructionData,
    InstructionDataView,
};
use crate::text::{append_hex2, spec_hex2};
use crate::{spec_wrapping_inc_u16, wrapping_inc_u16};
use vstd::prelude::*;
use vstd::string::StringExecFns;

verus! {

/// The instruction data the immediate load-X-register instruction reports:
/// the immediate byte as its one argument, and one idle cycle.
pub open spec fn spec_load_x_register_immediate_data(pre: CpuView) -> Result<
    InstructionDataView,
    BusError,
> {
    match pre.read(spec_wrapping_inc_u16(pre.program_counter)) {
        Ok(argument) => Ok(
            InstructionDataView {
                assembly: "LDX #$"@ + spec_hex2(argument),
                idle_cycles: 1,
                arg_1: Some(argument),
                arg_2: None,
            },
        ),
        Err(error) => Err(error),
    }
}

/// One cycle of the immediate load-X-register instruction: its single idle
/// cycle reads the immediate byte into register X, advances the program
/// counter past it, and rewrites the zero and negative flags from the loaded
/// value.
pub open spec fn spec_load_x_register_immediate_cycles(pre: CpuView) -> (
    CpuView,
    Result<bool, CycleError>,
) {
    if pre.current_instruction_cycle == 2 {
        match pre.read(pre.program_counter) {
            Ok(value) => (
                CpuView {
                    register_x: value,
                    program_counter: spec_wrapping_inc_u16(pre.program_counter),
                    status: spec_with_signedness(pre.status, value),
                    ..pre
                },
                Ok(true),
            ),
            Err(error) => (pre, Err(CycleError::BusError(error))),
        }
    } else {
        (pre, Err(CycleError::InstructionCycleOutOfBounds))
    }
}

/// Law: loading a byte into register X rewrites both signedness flags. A
/// byte with its high bit set leaves the negative flag set and the zero
/// flag cleared; the zero byte leaves the zero flag set and the negative
/// flag cleared; any other byte leaves both cleared.
pub proof fn lemma_load_rewrites_signedness_flags(s2: CpuView, value: u8)
    requires
        s2.wf(),
        s2.current_instruction == crate::cpu::Instruction::LoadXRegisterImmediate,
        s2.current_instruction_cycle == 2,
        s2.read(s2.program_counter) == Ok::<u8, BusError>(value),
    ensures
        ({
            let (s3, outcome) = crate::cpu::spec_cycle(s2);
            &&& outcome matches Ok(None)
            &&& s3.current_instruction_cycle == 1
            &&& s3.register_x == value
            &&& s3.status.zero == (value == 0)
            &&& s3.status.negative == (value >= 0x80)
        }),
{
}

impl Cpu {
    /// Report the immediate load-X-register instruction data.
    pub(crate) fn load_x_register_immediate_instruction(&self) -> (result: Result<
        InstructionData,
        BusError,
    >)
        requires
            self.wf(),
        ensures
            spec_data_result_matches(spec_load_x_register_immediate_data(self@), result),
    {
        let arg_1 = match self.bus.read(wrapping_inc_u16(self.program_counter)) {
            Ok(value) => value,
            Err(error) => {
                return Err(error);
            },
        };
        let mut assembly = String::from_str("LDX #$");
        append_hex2(&mut assembly, arg_1);
        Ok(InstructionData { arg_1: Some(arg_1), arg_2: None, assembly, idle_cycles: 1 })
    }

    /// Run one cycle of the immediate load-X-register instruction.
    pub(crate) fn load_x_register_immediate_cycles(&mut self) -> (result: Result<bool, CycleError>)
        requires
            old(self).wf(),
        ensures
            ({
                let (post, outcome) = spec_load_x_register_immediate_cycles(old(self)@);
                final(self)@ == post && result == outcome
            }),
    {
        match self.current_instruction_cycle {
            2 => {
                let value = match self.read_program_counter() {
                    Ok(value) => value,
                    Err(error) => {
                        return Err(CycleError::BusError(error));
                    },
                };
                self.register_x = value;
                self.program_counter = wrapping_inc_u16(self.program_counter);
                self.set_signedness(value);
                Ok(true)
            },
            _ => Err(CycleError::InstructionCycleOutOfBounds),
        }
    }
}

} // verus!
