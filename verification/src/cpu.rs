//! The CPU used by the console: a cycle-stepped instruction engine that
//! performs exactly one clock cycle of work per call, routing every memory
//! access through the bus.

pub mod branching;
pub mod flags;
pub mod jump;
pub mod load_x_register;
pub mod no_operation;
pub mod store_x_register;
pub mod subroutine;

use crate::bus::{spec_read_at, Bus, BusError};
use crate::cartridge::Cartridge;
use crate::{
    spec_wrapping_add_u16, spec_wrapping_inc_u16, wrapping_inc_u16, BYTES_ON_A_KIBIBYTE,
};
use vstd::prelude::*;

verus! {

/// The address of the first byte of the stack in the bus memory space.
pub const STACK_ADDRESS: u16 = 0x0100;

/// One named bit of the CPU status register.
#[derive(Clone, Copy, Debug, PartialEq, Eq, Structural)]
pub enum StatusFlag {
    /// Carries a bit remaining from some instructions.
    Carry,
    /// Set by some instructions when their result value is zero.
    Zero,
    /// Whether the interrupts of the CPU, except for the non-maskable one,
    /// are disabled.
    InterruptsDisabled,
    /// Whether the CPU is in decimal mode; a junk value on this console.
    Decimal,
    /// Whether the last interrupt was triggered by a break instruction
    /// rather than an interrupt line.
    B,
    /// A stub bit that does nothing; kept only so snapshots can match other
    /// emulators' settings.
    Stub,
    /// Set by some instructions when their result value overflows.
    Overflow,
    /// Set by some instructions when their result value is negative.
    Negative,
}

/// The status register of the CPU: a fixed bitset of eight named flags.
#[derive(Clone, Copy, Debug, PartialEq, Eq, Structural)]
pub struct CpuStatusFlags {
    /// The carry flag, bit 0.
    pub carry: bool,
    /// The zero flag, bit 1.
    pub zero: bool,
    /// The interrupts-disabled flag, bit 2.
    pub interrupts_disabled: bool,
    /// The decimal-mode flag, bit 3.
    pub decimal: bool,
    /// The break-origin flag, bit 4.
    pub b: bool,
    /// The stub flag, bit 5.
    pub stub: bool,
    /// The overflow flag, bit 6.
    pub overflow: bool,
    /// The negative flag, bit 7.
    pub negative: bool,
}

impl CpuStatusFlags {
    /// Whether the named flag is set.
    pub open spec fn spec_contains(self, flag: StatusFlag) -> bool {
        match flag {
            StatusFlag::Carry => self.carry,
            StatusFlag::Zero => self.zero,
            StatusFlag::InterruptsDisabled => self.interrupts_disabled,
            StatusFlag::Decimal => self.decimal,
            StatusFlag::B => self.b,
            StatusFlag::Stub => self.stub,
            StatusFlag::Overflow => self.overflow,
            StatusFlag::Negative => self.negative,
        }
    }

    /// The register with the named flag set.
    pub open spec fn spec_insert(self, flag: StatusFlag) -> CpuStatusFlags {
        match flag {
            StatusFlag::Carry => CpuStatusFlags { carry: true, ..self },
            StatusFlag::Zero => CpuStatusFlags { zero: true, ..self },
            StatusFlag::InterruptsDisabled => CpuStatusFlags { interrupts_disabled: true, ..self },
            StatusFlag::Decimal => CpuStatusFlags { decimal: true, ..self },
            StatusFlag::B => CpuStatusFlags { b: true, ..self },
            StatusFlag::Stub => CpuStatusFlags { stub: true, ..self },
            StatusFlag::Overflow => CpuStatusFlags { overflow: true, ..self },
            StatusFlag::Negative => CpuStatusFlags { negative: true, ..self },
        }
    }

    /// The register with the named flag cleared.
    pub open spec fn spec_remove(self, flag: StatusFlag) -> CpuStatusFlags {
        match flag {
            StatusFlag::Carry => CpuStatusFlags { carry: false, ..self },
            StatusFlag::Zero => CpuStatusFlags { zero: false, ..self },
            StatusFlag::InterruptsDisabled => CpuStatusFlags { interrupts_disabled: false, ..self },
            StatusFlag::Decimal => CpuStatusFlags { decimal: false, ..self },
            StatusFlag::B => CpuStatusFlags { b: false, ..self },
            StatusFlag::Stub => CpuStatusFlags { stub: false, ..self },
            StatusFlag::Overflow => CpuStatusFlags { overflow: false, ..self },
            StatusFlag::Negative => CpuStatusFlags { negative: false, ..self },
        }
    }

    /// The register packed into one byte, carry in the lowest bit and
    /// negative in the highest.
    pub open spec fn spec_bits(self) -> u8 {
        ((if self.carry {
            1int
        } else {
            0int
        }) + (if self.zero {
            2int
        } else {
            0int
        }) + (if self.interrupts_disabled {
            4int
        } else {
            0int
        }) + (if self.decimal {
            8int
        } else {
            0int
        }) + (if self.b {
            16int
        } else {
            0int
        }) + (if self.stub {
            32int
        } else {
            0int
        }) + (if self.overflow {
            64int
        } else {
            0int
        }) + (if self.negative {
            128int
        } else {
            0int
        })) as u8
    }

    /// Whether the named flag is set.
    pub fn contains(&self, flag: StatusFlag) -> (result: bool)
        ensures
            result == self.spec_contains(flag),
    {
        match flag {
            StatusFlag::Carry => self.carry,
            StatusFlag::Zero => self.zero,
            StatusFlag::InterruptsDisabled => self.interrupts_disabled,
            StatusFlag::Decimal => self.decimal,
            StatusFlag::B => self.b,
            StatusFlag::Stub => self.stub,
            StatusFlag::Overflow => self.overflow,
            StatusFlag::Negative => self.negative,
        }
    }

    /// Set the named flag.
    pub fn insert(&mut self, flag: StatusFlag)
        ensures
            *final(self) == old(self).spec_insert(flag),
    {
        match flag {
            StatusFlag::Carry => self.carry = true,
            StatusFlag::Zero => self.zero = true,
            StatusFlag::InterruptsDisabled => self.interrupts_disabled = true,
            StatusFlag::Decimal => self.decimal = true,
            StatusFlag::B => self.b = true,
            StatusFlag::Stub => self.stub = true,
            StatusFlag::Overflow => self.overflow = true,
            StatusFlag::Negative => self.negative = true,
        }
    }

    /// Clear the named flag.
    pub fn remove(&mut self, flag: StatusFlag)
        ensures
            *final(self) == old(self).spec_remove(flag),
    {
        match flag {
            StatusFlag::Carry => self.carry = false,
            StatusFlag::Zero => self.zero = false,
            StatusFlag::InterruptsDisabled => self.interrupts_disabled = false,
            StatusFlag::Decimal => self.decimal = false,
            StatusFlag::B => self.b = false,
            StatusFlag::Stub => self.stub = false,
            StatusFlag::Overflow => self.overflow = false,
            StatusFlag::Negative => self.negative = false,
        }
    }

    /// Pack the register into one byte.
    pub fn bits(&self) -> (bits: u8)
        ensures
            bits == self.spec_bits(),
    {
        (if self.carry {
            1u8
        } else {
            0u8
        }) + (if self.zero {
            2u8
        } else {
            0u8
        }) + (if self.interrupts_disabled {
            4u8
        } else {
            0u8
        }) + (if self.decimal {
            8u8
        } else {
            0u8
        }) + (if self.b {
            16u8
        } else {
            0u8
        }) + (if self.stub {
            32u8
        } else {
            0u8
        }) + (if self.overflow {
            64u8
        } else {
            0u8
        }) + (if self.negative {
            128u8
        } else {
            0u8
        })
    }
}

/// The status register with the zero and negative flags rewritten for a
/// freshly loaded byte: zero iff the byte is zero, negative iff its signed
/// interpretation is below zero. Both flags are always written, never left
/// stale.
pub open spec fn spec_with_signedness(status: CpuStatusFlags, value: u8) -> CpuStatusFlags {
    CpuStatusFlags { zero: value == 0, negative: value >= 0x80, ..status }
}

/// The status register at power-on: only the decimal and break-origin flags
/// are set.
pub open spec fn spec_power_on_status() -> CpuStatusFlags {
    CpuStatusFlags {
        carry: false,
        zero: false,
        interrupts_disabled: false,
        decimal: true,
        b: true,
        stub: false,
        overflow: false,
        negative: false,
    }
}

/// The different instructions that the CPU can run.
#[derive(Clone, Copy, Debug, PartialEq, Eq, Structural)]
#[allow(missing_docs)]
pub enum Instruction {
    Stub,
    JumpAbsolute,
    LoadXRegisterImmediate,
    StoreXRegisterZeroPage,
    JumpToSubroutineAbsolute,
    NoOperationImplied,
    SetCarryFlagImplied,
    ClearCarryFlagImplied,
    BranchIfCarrySetRelative,
    BranchIfCarryClearRelative,
    BranchIfEqual,
    BranchIfNotEqual,
    BranchIfOverflowSet,
    BranchIfOverflowClear,
    BranchIfPositive,
    BranchIfMinus,
}

/// Errors that may happen when interacting with the CPU.
#[derive(Clone, Copy, Debug, PartialEq, Eq, Structural)]
pub enum CpuError {
    /// Accessing the bus failed.
    BusError(BusError),
    /// Running the cycle failed.
    InstructionError(CycleError),
    /// The fetched opcode maps to no instruction this core implements; the
    /// emulated program cannot go on.
    UnimplementedOpcode(u8),
}

/// Errors that can happen when running a cycle.
#[derive(Clone, Copy, Debug, PartialEq, Eq, Structural)]
pub enum CycleError {
    /// The requested instruction step is out of bounds: an internal timing
    /// table was violated.
    InstructionCycleOutOfBounds,
    /// Accessing the bus failed.
    BusError(BusError),
}

/// Data of the running instruction.
#[derive(Debug)]
pub struct InstructionData {
    /// The assembly code that represents the instruction.
    pub assembly: String,
    /// The number of extra cycles the instruction is going to take.
    pub idle_cycles: u8,
    /// The first "argument" given to the instruction, if it uses one.
    pub arg_1: Option<u8>,
    /// The second "argument" given to the instruction, if it uses one.
    pub arg_2: Option<u8>,
}

/// The mathematical value of an [`InstructionData`].
pub ghost struct InstructionDataView {
    /// The assembly text as a character sequence.
    pub assembly: Seq<char>,
    /// The number of extra cycles the instruction is going to take.
    pub idle_cycles: u8,
    /// The first "argument" given to the instruction, if it uses one.
    pub arg_1: Option<u8>,
    /// The second "argument" given to the instruction, if it uses one.
    pub arg_2: Option<u8>,
}

impl View for InstructionData {
    type V = InstructionDataView;

    open spec fn view(&self) -> InstructionDataView {
        InstructionDataView {
            assembly: self.assembly@,
            idle_cycles: self.idle_cycles,
            arg_1: self.arg_1,
            arg_2: self.arg_2,
        }
    }
}

/// Whether the instruction data a dispatch computed matches the model: the
/// same error, or a value whose mathematical view is the modelled one.
pub open spec fn spec_data_result_matches(
    model: Result<InstructionDataView, BusError>,
    result: Result<InstructionData, BusError>,
) -> bool {
    match (model, result) {
        (Ok(data_view), Ok(data)) => data@ == data_view,
        (Err(model_error), Err(error)) => model_error == error,
        _ => false,
    }
}

/// A snapshot of the state of the CPU, taken on an opcode-fetch cycle before
/// the fetched instruction runs.
#[derive(Debug)]
#[allow(missing_docs)]
pub struct CpuSnapshot {
    pub accumulator: u8,
    pub register_x: u8,
    pub register_y: u8,
    pub status: u8,
    pub stack_pointer: u8,
    pub program_counter: u16,
    pub opcode: u8,
    pub instruction_data: InstructionData,
    pub cpy_cycles: u16,
}

/// The mathematical value of a [`CpuSnapshot`].
#[allow(missing_docs)]
pub ghost struct CpuSnapshotView {
    pub accumulator: u8,
    pub register_x: u8,
    pub register_y: u8,
    pub status: u8,
    pub stack_pointer: u8,
    pub program_counter: u16,
    pub opcode: u8,
    pub instruction_data: InstructionDataView,
    pub cpy_cycles: u16,
}

impl View for CpuSnapshot {
    type V = CpuSnapshotView;

    open spec fn view(&self) -> CpuSnapshotView {
        CpuSnapshotView {
            accumulator: self.accumulator,
            register_x: self.register_x,
            register_y: self.register_y,
            status: self.status,
            stack_pointer: self.stack_pointer,
            program_counter: self.program_counter,
            opcode: self.opcode,
            instruction_data: self.instruction_data@,
            cpy_cycles: self.cpy_cycles,
        }
    }
}

/// The CPU of the console.
pub struct Cpu {
    /// Accumulator register, also known as register `A`, used by some
    /// arithmetic operations.
    pub accumulator: u8,
    /// Generic index register X.
    pub register_x: u8,
    /// Generic index register Y.
    pub register_y: u8,
    /// Status register, holds different bit flags that report the state of
    /// the CPU.
    pub status: CpuStatusFlags,
    /// Current offset from the start of the stack address.
    pub stack_pointer: u8,
    /// The address of the next instruction byte to process.
    pub program_counter: u16,
    /// The instruction currently being stepped.
    pub current_instruction: Instruction,
    /// Which cycle of the current instruction runs next; one is the
    /// opcode-fetch cycle of every instruction.
    pub current_instruction_cycle: u8,
    /// The memory bus the CPU drives.
    pub bus: Bus,
    /// Bytes fetched in earlier cycles of the same instruction, cleared
    /// exactly when the instruction completes.
    pub cache: Vec<u8>,
    /// The number of cycles the CPU has already executed.
    pub cpu_cycles: u16,
}

/// The mathematical value of a [`Cpu`]: its registers together with the
/// observable state of the bus it owns.
#[allow(missing_docs)]
pub ghost struct CpuView {
    pub accumulator: u8,
    pub register_x: u8,
    pub register_y: u8,
    pub status: CpuStatusFlags,
    pub stack_pointer: u8,
    pub program_counter: u16,
    pub current_instruction: Instruction,
    pub current_instruction_cycle: u8,
    pub ram: Seq<u8>,
    pub cartridge: Cartridge,
    pub cache: Seq<u8>,
    pub cpu_cycles: u16,
}

impl CpuView {
    /// What the bus answers to a read at `address` in this state.
    pub open spec fn read(self, address: u16) -> Result<u8, BusError> {
        spec_read_at(self.ram, self.cartridge, address)
    }

    /// Whether the instruction cache holds exactly the bytes the current
    /// instruction position accounts for: nothing around the fetch cycle,
    /// and from the third cycle on exactly the one operand byte of the
    /// instructions that save one.
    pub open spec fn cache_wf(self) -> bool {
        if self.current_instruction_cycle <= 2 {
            self.cache.len() == 0
        } else {
            self.cache.len() == if spec_caches_an_operand(self.current_instruction) {
                1int
            } else {
                0int
            }
        }
    }

    /// The state is well formed: the bus RAM has its fixed size, the
    /// cartridge is well formed, the cache matches the instruction position,
    /// and the placeholder instruction never proceeds past the fetch cycle.
    pub open spec fn wf(self) -> bool {
        &&& self.ram.len() == 2 * BYTES_ON_A_KIBIBYTE
        &&& self.cartridge.wf()
        &&& self.cache_wf()
        &&& self.current_instruction_cycle != 1 ==> self.current_instruction != Instruction::Stub
    }
}

/// Whether the instruction saves an operand byte in the cache for its later
/// cycles.
pub open spec fn spec_caches_an_operand(instruction: Instruction) -> bool {
    match instruction {
        Instruction::JumpAbsolute => true,
        Instruction::StoreXRegisterZeroPage => true,
        Instruction::JumpToSubroutineAbsolute => true,
        Instruction::BranchIfCarrySetRelative => true,
        Instruction::BranchIfCarryClearRelative => true,
        Instruction::BranchIfEqual => true,
        Instruction::BranchIfNotEqual => true,
        Instruction::BranchIfOverflowSet => true,
        Instruction::BranchIfOverflowClear => true,
        Instruction::BranchIfPositive => true,
        Instruction::BranchIfMinus => true,
        _ => false,
    }
}

impl View for Cpu {
    type V = CpuView;

    open spec fn view(&self) -> CpuView {
        CpuView {
            accumulator: self.accumulator,
            register_x: self.register_x,
            register_y: self.register_y,
            status: self.status,
            stack_pointer: self.stack_pointer,
            program_counter: self.program_counter,
            current_instruction: self.current_instruction,
            current_instruction_cycle: self.current_instruction_cycle,
            ram: self.bus.cpu_ram@,
            cartridge: self.bus.cartridge,
            cache: self.cache@,
            cpu_cycles: self.cpu_cycles,
        }
    }
}

impl Cpu {
    /// The CPU state is well formed.
    pub open spec fn wf(self) -> bool {
        self@.wf()
    }

    /// Create a new [`Cpu`] with the program counter at the canonical reset
    /// address 0x8000.
    pub fn new(cartridge: Cartridge) -> (cpu: Cpu)
        requires
            cartridge.wf(),
        ensures
            cpu.wf(),
            cpu@ == Cpu::spec_power_on(cartridge, 0x8000),
    {
        Cpu::new_with_program_counter(cartridge, 0x8000)
    }

    /// The power-on state over the given cartridge: registers cleared, the
    /// status register at its power-on value, the stack pointer at 0xFD, the
    /// RAM zeroed, and six cycles already accounted to the hardware reset.
    pub open spec fn spec_power_on(cartridge: Cartridge, program_counter: u16) -> CpuView {
        CpuView {
            accumulator: 0,
            register_x: 0,
            register_y: 0,
            status: spec_power_on_status(),
            stack_pointer: 0xFD,
            program_counter: program_counter,
            current_instruction: Instruction::Stub,
            current_instruction_cycle: 1,
            ram: Seq::new((2 * BYTES_ON_A_KIBIBYTE) as nat, |i: int| 0u8),
            cartridge: cartridge,
            cache: Seq::empty(),
            cpu_cycles: 6,
        }
    }

    /// Create a new [`Cpu`] with the program counter set to the given value.
    pub fn new_with_program_counter(cartridge: Cartridge, program_counter: u16) -> (cpu: Cpu)
        requires
            cartridge.wf(),
        ensures
            cpu.wf(),
            cpu@ == Cpu::spec_power_on(cartridge, program_counter),
    {
        let cpu = Cpu {
            accumulator: 0,
            register_x: 0,
            register_y: 0,
            status: CpuStatusFlags {
                carry: false,
                zero: false,
                interrupts_disabled: false,
                decimal: true,
                b: true,
                stub: false,
                overflow: false,
                negative: false,
            },
            stack_pointer: 0xFD,
            program_counter,
            current_instruction: Instruction::Stub,
            current_instruction_cycle: 1,
            bus: Bus::new(cartridge),
            cache: Vec::new(),
            cpu_cycles: 6,
        };
        assert(cpu@ == Cpu::spec_power_on(cartridge, program_counter));
        cpu
    }

    /// Read a byte from the bus pointed at by the program counter.
    pub fn read_program_counter(&self) -> (result: Result<u8, BusError>)
        requires
            self.wf(),
        ensures
            result == self@.read(self@.program_counter),
    {
        self.bus.read(self.program_counter)
    }

    /// Given a freshly loaded value, set the zero and negative flags from
    /// its signed interpretation.
    pub(crate) fn set_signedness(&mut self, value: u8)
        ensures
            final(self).status == spec_with_signedness(old(self).status, value),
            final(self)@ == (CpuView { status: final(self)@.status, ..old(self)@ }),
    {
        if value == 0 {
            self.status.zero = true;
            self.status.negative = false;
        } else if value >= 0x80 {
            self.status.negative = true;
            self.status.zero = false;
        } else {
            self.status.negative = false;
            self.status.zero = false;
        }
    }

    /// Push a value to the stack: write it at the stack base plus the
    /// current stack-pointer offset, then decrement the offset, wrapping on
    /// 8-bit overflow as the hardware does.
    pub(crate) fn stack_push(&mut self, value: u8) -> (result: Result<(), BusError>)
        requires
            old(self).wf(),
        ensures
            final(self).wf(),
            result == Ok::<(), BusError>(()),
            final(self)@ == (CpuView {
                ram: old(self)@.ram.update(0x100 + old(self)@.stack_pointer, value),
                stack_pointer: crate::spec_wrapping_dec_u8(old(self)@.stack_pointer),
                ..old(self)@
            }),
    {
        let address = STACK_ADDRESS + self.stack_pointer as u16;
        match self.bus.write(address, value) {
            Ok(_) => {},
            Err(error) => {
                return Err(error);
            },
        }
        self.stack_pointer = crate::wrapping_dec_u8(self.stack_pointer);
        Ok(())
    }

    /// The instruction an opcode byte dispatches to, if this core implements
    /// it.
    pub open spec fn spec_dispatch_opcode(opcode: u8) -> Option<Instruction> {
        match opcode {
            0x4C => Some(Instruction::JumpAbsolute),
            0xA2 => Some(Instruction::LoadXRegisterImmediate),
            0x86 => Some(Instruction::StoreXRegisterZeroPage),
            0x20 => Some(Instruction::JumpToSubroutineAbsolute),
            0xEA => Some(Instruction::NoOperationImplied),
            0x38 => Some(Instruction::SetCarryFlagImplied),
            0xB0 => Some(Instruction::BranchIfCarrySetRelative),
            0x18 => Some(Instruction::ClearCarryFlagImplied),
            0x90 => Some(Instruction::BranchIfCarryClearRelative),
            0xF0 => Some(Instruction::BranchIfEqual),
            0xD0 => Some(Instruction::BranchIfNotEqual),
            0x70 => Some(Instruction::BranchIfOverflowSet),
            0x50 => Some(Instruction::BranchIfOverflowClear),
            0x30 => Some(Instruction::BranchIfMinus),
            0x10 => Some(Instruction::BranchIfPositive),
            _ => None,
        }
    }

    /// Get the matching instruction of the given opcode byte, or nothing for
    /// an opcode this core does not implement.
    pub fn dispatch_opcode(opcode: u8) -> (instruction: Option<Instruction>)
        ensures
            instruction == Cpu::spec_dispatch_opcode(opcode),
    {
        match opcode {
            0x4C => Some(Instruction::JumpAbsolute),
            0xA2 => Some(Instruction::LoadXRegisterImmediate),
            0x86 => Some(Instruction::StoreXRegisterZeroPage),
            0x20 => Some(Instruction::JumpToSubroutineAbsolute),
            0xEA => Some(Instruction::NoOperationImplied),
            0x38 => Some(Instruction::SetCarryFlagImplied),
            0xB0 => Some(Instruction::BranchIfCarrySetRelative),
            0x18 => Some(Instruction::ClearCarryFlagImplied),
            0x90 => Some(Instruction::BranchIfCarryClearRelative),
            0xF0 => Some(Instruction::BranchIfEqual),
            0xD0 => Some(Instruction::BranchIfNotEqual),
            0x70 => Some(Instruction::BranchIfOverflowSet),
            0x50 => Some(Instruction::BranchIfOverflowClear),
            0x30 => Some(Instruction::BranchIfMinus),
            0x10 => Some(Instruction::BranchIfPositive),
            _ => None,
        }
    }
}

impl CpuSnapshot {
    /// The snapshot of the given CPU state before its next instruction runs:
    /// the registers as they stand, the byte under the program counter as
    /// the opcode, and empty instruction data to be filled by the dispatch.
    pub open spec fn spec_base_snapshot(state: CpuView, opcode: u8) -> CpuSnapshotView {
        CpuSnapshotView {
            accumulator: state.accumulator,
            register_x: state.register_x,
            register_y: state.register_y,
            status: state.status.spec_bits(),
            stack_pointer: state.stack_pointer,
            program_counter: state.program_counter,
            opcode: opcode,
            instruction_data: InstructionDataView {
                assembly: Seq::empty(),
                idle_cycles: 0,
                arg_1: None,
                arg_2: None,
            },
            cpy_cycles: state.cpu_cycles,
        }
    }

    /// Make a new [`CpuSnapshot`] of the given CPU.
    pub(crate) fn new(cpu: &Cpu) -> (result: Result<CpuSnapshot, BusError>)
        requires
            cpu.wf(),
        ensures
            match cpu@.read(cpu@.program_counter) {
                Ok(opcode) => {
                    &&& result matches Ok(snapshot)
                    &&& snapshot@ == CpuSnapshot::spec_base_snapshot(cpu@, opcode)
                },
                Err(error) => result matches Err(e) && e == error,
            },
    {
        let opcode = match cpu.read_program_counter() {
            Ok(opcode) => opcode,
            Err(error) => {
                return Err(error);
            },
        };
        let snapshot = CpuSnapshot {
            accumulator: cpu.accumulator,
            register_x: cpu.register_x,
            register_y: cpu.register_y,
            status: cpu.status.bits(),
            stack_pointer: cpu.stack_pointer,
            program_counter: cpu.program_counter,
            opcode,
            instruction_data: InstructionData {
                arg_1: None,
                arg_2: None,
                idle_cycles: 0,
                assembly: String::new(),
            },
            cpy_cycles: cpu.cpu_cycles,
        };
        assert(snapshot@.instruction_data.assembly =~= Seq::<char>::empty());
        Ok(snapshot)
    }
}

/// The instruction data the given instruction reports in the given state.
pub open spec fn spec_instruction_data(instruction: Instruction, pre: CpuView) -> Result<
    InstructionDataView,
    BusError,
> {
    match instruction {
        Instruction::JumpAbsolute => jump::spec_jump_absolute_data(pre),
        Instruction::LoadXRegisterImmediate => load_x_register::spec_load_x_register_immediate_data(
            pre,
        ),
        Instruction::StoreXRegisterZeroPage => store_x_register::spec_store_x_register_zero_page_data(
            pre,
        ),
        Instruction::JumpToSubroutineAbsolute => subroutine::spec_jump_to_subroutine_data(pre),
        Instruction::NoOperationImplied => no_operation::spec_no_operation_data(pre),
        Instruction::SetCarryFlagImplied => flags::spec_set_carry_flag_data(pre),
        Instruction::ClearCarryFlagImplied => flags::spec_clear_carry_flag_data(pre),
        Instruction::BranchIfCarrySetRelative => branching::spec_branch_data(
            pre,
            StatusFlag::Carry,
            false,
        ),
        Instruction::BranchIfCarryClearRelative => branching::spec_branch_data(
            pre,
            StatusFlag::Carry,
            true,
        ),
        Instruction::BranchIfEqual => branching::spec_branch_data(pre, StatusFlag::Zero, false),
        Instruction::BranchIfNotEqual => branching::spec_branch_data(pre, StatusFlag::Zero, true),
        Instruction::BranchIfOverflowSet => branching::spec_branch_data(
            pre,
            StatusFlag::Overflow,
            false,
        ),
        Instruction::BranchIfOverflowClear => branching::spec_branch_data(
            pre,
            StatusFlag::Overflow,
            true,
        ),
        Instruction::BranchIfMinus => branching::spec_branch_data(
            pre,
            StatusFlag::Negative,
            false,
        ),
        Instruction::BranchIfPositive => branching::spec_branch_data(
            pre,
            StatusFlag::Negative,
            true,
        ),
        Instruction::Stub => Ok(
            InstructionDataView {
                assembly: "INVALID STUB"@,
                idle_cycles: 0,
                arg_1: None,
                arg_2: None,
            },
        ),
    }
}

/// One cycle of the current instruction of the given state, as its own
/// cycle handler performs it, before the engine advances the cycle counter.
pub open spec fn spec_dispatch_cycles(pre: CpuView) -> (CpuView, Result<bool, CycleError>) {
    match pre.current_instruction {
        Instruction::JumpAbsolute => jump::spec_jump_absolute_cycles(pre),
        Instruction::LoadXRegisterImmediate => load_x_register::spec_load_x_register_immediate_cycles(
            pre,
        ),
        Instruction::StoreXRegisterZeroPage => store_x_register::spec_store_x_register_zero_page_cycles(
            pre,
        ),
        Instruction::JumpToSubroutineAbsolute => subroutine::spec_jump_to_subroutine_cycles(pre),
        Instruction::NoOperationImplied => no_operation::spec_no_operation_cycles(pre),
        Instruction::SetCarryFlagImplied => flags::spec_set_carry_flag_implied_cycles(pre),
        Instruction::ClearCarryFlagImplied => flags::spec_clear_carry_flag_implied_cycles(pre),
        Instruction::BranchIfCarrySetRelative => branching::spec_branch_cycles(
            pre,
            StatusFlag::Carry,
            false,
        ),
        Instruction::BranchIfCarryClearRelative => branching::spec_branch_cycles(
            pre,
            StatusFlag::Carry,
            true,
        ),
        Instruction::BranchIfEqual => branching::spec_branch_cycles(pre, StatusFlag::Zero, false),
        Instruction::BranchIfNotEqual => branching::spec_branch_cycles(
            pre,
            StatusFlag::Zero,
            true,
        ),
        Instruction::BranchIfOverflowSet => branching::spec_branch_cycles(
            pre,
            StatusFlag::Overflow,
            false,
        ),
        Instruction::BranchIfOverflowClear => branching::spec_branch_cycles(
            pre,
            StatusFlag::Overflow,
            true,
        ),
        Instruction::BranchIfMinus => branching::spec_branch_cycles(
            pre,
            StatusFlag::Negative,
            false,
        ),
        Instruction::BranchIfPositive => branching::spec_branch_cycles(
            pre,
            StatusFlag::Negative,
            true,
        ),
        Instruction::Stub => (pre, Err(CycleError::InstructionCycleOutOfBounds)),
    }
}

/// A non-fetch cycle of the engine: run the current instruction's cycle
/// handler, then advance the cycle counter; when the handler reports the
/// instruction complete, reset the counter to the fetch cycle and clear the
/// instruction cache.
pub open spec fn spec_instruction_step(pre: CpuView) -> (
    CpuView,
    Result<Option<CpuSnapshotView>, CpuError>,
) {
    let (stepped, outcome) = spec_dispatch_cycles(pre);
    match outcome {
        Err(error) => (stepped, Err(CpuError::InstructionError(error))),
        Ok(ended) => if ended {
            (
                CpuView { current_instruction_cycle: 1, cache: Seq::empty(), ..stepped },
                Ok(None),
            )
        } else {
            (
                CpuView {
                    current_instruction_cycle: (stepped.current_instruction_cycle + 1) as u8,
                    ..stepped
                },
                Ok(None),
            )
        },
    }
}

/// The fetch cycle of the engine: read the opcode under the program
/// counter, dispatch it to an instruction, compute that instruction's
/// reported data, advance past the opcode, and yield a snapshot of the
/// pre-fetch register state carrying that data. Bus failures and unmapped
/// opcodes surface as errors, leaving whatever had already been applied in
/// place.
pub open spec fn spec_fetch(pre: CpuView) -> (CpuView, Result<Option<CpuSnapshotView>, CpuError>) {
    match spec_read_at(pre.ram, pre.cartridge, pre.program_counter) {
        Err(error) => (pre, Err(CpuError::BusError(error))),
        Ok(opcode) => match Cpu::spec_dispatch_opcode(opcode) {
            None => (pre, Err(CpuError::UnimplementedOpcode(opcode))),
            Some(instruction) => {
                let dispatched = CpuView { current_instruction: instruction, ..pre };
                match spec_instruction_data(instruction, dispatched) {
                    Err(error) => (dispatched, Err(CpuError::BusError(error))),
                    Ok(data) => (
                        CpuView {
                            program_counter: spec_wrapping_inc_u16(pre.program_counter),
                            current_instruction_cycle: 2,
                            ..dispatched
                        },
                        Ok(
                            Some(
                                CpuSnapshotView {
                                    instruction_data: data,
                                    ..CpuSnapshot::spec_base_snapshot(pre, opcode)
                                },
                            ),
                        ),
                    ),
                }
            },
        },
    }
}

/// One full call of the engine: account the clock cycle, then run either
/// the fetch cycle or one cycle of the current instruction.
pub open spec fn spec_cycle(pre: CpuView) -> (CpuView, Result<Option<CpuSnapshotView>, CpuError>) {
    let counted = CpuView { cpu_cycles: spec_wrapping_add_u16(pre.cpu_cycles, 1), ..pre };
    if counted.current_instruction_cycle == 1 {
        spec_fetch(counted)
    } else {
        spec_instruction_step(counted)
    }
}

/// Whether the outcome a call of the engine returned matches the model: the
/// same error, the same silence, or a snapshot whose mathematical view is
/// the modelled one.
pub open spec fn spec_cycle_result_matches(
    model: Result<Option<CpuSnapshotView>, CpuError>,
    result: Result<Option<CpuSnapshot>, CpuError>,
) -> bool {
    match (model, result) {
        (Ok(Some(snapshot_view)), Ok(Some(snapshot))) => snapshot@ == snapshot_view,
        (Ok(None), Ok(None)) => true,
        (Err(model_error), Err(error)) => model_error == error,
        _ => false,
    }
}

/// What one instruction cycle leaves in place: the handler touches neither
/// the instruction register nor the cycle counter, keeps the bus geometry,
/// reports a result only for the cycle numbers of its timing table, and
/// leaves the whole state alone on a failure. Advancing the cycle counter
/// afterwards, or resetting it with the cache cleared on completion, keeps
/// the state well formed.
pub proof fn lemma_dispatch_cycles_wf(pre: CpuView)
    requires
        pre.wf(),
        pre.current_instruction_cycle != 1,
    ensures
        ({
            let (stepped, outcome) = spec_dispatch_cycles(pre);
            &&& stepped.current_instruction == pre.current_instruction
            &&& stepped.current_instruction_cycle == pre.current_instruction_cycle
            &&& (outcome is Ok ==> 2 <= pre.current_instruction_cycle <= 6)
            &&& (outcome matches Ok(ended) && !ended ==> (CpuView {
                current_instruction_cycle: (stepped.current_instruction_cycle + 1) as u8,
                ..stepped
            }).wf())
            &&& (outcome matches Ok(ended) && ended ==> (CpuView {
                current_instruction_cycle: 1,
                cache: Seq::empty(),
                ..stepped
            }).wf())
            &&& (outcome is Err ==> stepped == pre)
        }),
{
    match pre.current_instruction {
        Instruction::JumpAbsolute => {},
        Instruction::LoadXRegisterImmediate => {},
        Instruction::StoreXRegisterZeroPage => {},
        Instruction::JumpToSubroutineAbsolute => {},
        Instruction::NoOperationImplied => {},
        Instruction::SetCarryFlagImplied => {},
        Instruction::ClearCarryFlagImplied => {},
        Instruction::BranchIfCarrySetRelative => {},
        Instruction::BranchIfCarryClearRelative => {},
        Instruction::BranchIfEqual => {},
        Instruction::BranchIfNotEqual => {},
        Instruction::BranchIfOverflowSet => {},
        Instruction::BranchIfOverflowClear => {},
        Instruction::BranchIfPositive => {},
        Instruction::BranchIfMinus => {},
        Instruction::Stub => {},
    }
}

impl Cpu {
    /// Run one cycle of the current instruction through its cycle handler.
    pub(crate) fn dispatch_instruction_cycles(&mut self) -> (result: Result<bool, CycleError>)
        requires
            old(self).wf(),
            old(self)@.current_instruction_cycle != 1,
        ensures
            ({
                let (stepped, outcome) = spec_dispatch_cycles(old(self)@);
                final(self)@ == stepped && result == outcome
            }),
    {
        match self.current_instruction {
            Instruction::JumpAbsolute => self.jump_absolute_cycles(),
            Instruction::LoadXRegisterImmediate => self.load_x_register_immediate_cycles(),
            Instruction::StoreXRegisterZeroPage => self.store_x_register_zero_page_cycles(),
            Instruction::JumpToSubroutineAbsolute => self.jump_to_subroutine_absolute_cycles(),
            Instruction::NoOperationImplied => self.no_operation_cycles(),
            Instruction::SetCarryFlagImplied => self.set_carry_flag_implied_cycles(),
            Instruction::ClearCarryFlagImplied => self.clear_carry_flag_implied_cycles(),
            Instruction::BranchIfCarrySetRelative => self.branch_cycles(StatusFlag::Carry, false),
            Instruction::BranchIfCarryClearRelative => self.branch_cycles(StatusFlag::Carry, true),
            Instruction::BranchIfEqual => self.branch_cycles(StatusFlag::Zero, false),
            Instruction::BranchIfNotEqual => self.branch_cycles(StatusFlag::Zero, true),
            Instruction::BranchIfOverflowSet => self.branch_cycles(StatusFlag::Overflow, false),
            Instruction::BranchIfOverflowClear => self.branch_cycles(StatusFlag::Overflow, true),
            Instruction::BranchIfMinus => self.branch_cycles(StatusFlag::Negative, false),
            Instruction::BranchIfPositive => self.branch_cycles(StatusFlag::Negative, true),
            Instruction::Stub => Err(CycleError::InstructionCycleOutOfBounds),
        }
    }

    /// Get the matching instruction data for the current running
    /// instruction.
    pub(crate) fn dispatch_instruction(&self) -> (result: Result<InstructionData, BusError>)
        requires
            self.wf(),
        ensures
            spec_data_result_matches(spec_instruction_data(self@.current_instruction, self@), result),
    {
        match self.current_instruction {
            Instruction::JumpAbsolute => self.jump_absolute_instruction(),
            Instruction::LoadXRegisterImmediate => self.load_x_register_immediate_instruction(),
            Instruction::StoreXRegisterZeroPage => self.store_x_register_zero_page_instruction(),
            Instruction::JumpToSubroutineAbsolute => self.jump_to_subroutine_absolute_instruction(),
            Instruction::NoOperationImplied => self.no_operation_implied_instruction(),
            Instruction::SetCarryFlagImplied => self.set_carry_flag_implied_instruction(),
            Instruction::ClearCarryFlagImplied => self.clear_carry_flag_implied_instruction(),
            Instruction::BranchIfCarrySetRelative => self.branch_instruction(
                StatusFlag::Carry,
                false,
            ),
            Instruction::BranchIfCarryClearRelative => self.branch_instruction(
                StatusFlag::Carry,
                true,
            ),
            Instruction::BranchIfEqual => self.branch_instruction(StatusFlag::Zero, false),
            Instruction::BranchIfNotEqual => self.branch_instruction(StatusFlag::Zero, true),
            Instruction::BranchIfOverflowSet => self.branch_instruction(
                StatusFlag::Overflow,
                false,
            ),
            Instruction::BranchIfOverflowClear => self.branch_instruction(
                StatusFlag::Overflow,
                true,
            ),
            Instruction::BranchIfMinus => self.branch_instruction(StatusFlag::Negative, false),
            Instruction::BranchIfPositive => self.branch_instruction(StatusFlag::Negative, true),
            Instruction::Stub => Ok(
                InstructionData {
                    arg_1: None,
                    arg_2: None,
                    assembly: String::from_str("INVALID STUB"),
                    idle_cycles: 0,
                },
            ),
        }
    }

    /// Run a cycle of the CPU: exactly the work the processor performs in
    /// one clock cycle. The opcode-fetch cycle yields a snapshot of the
    /// register state with the dispatched instruction's reported data; every
    /// other cycle yields nothing. A bus failure, an unmapped opcode or an
    /// out-of-range cycle index surfaces as a fatal error, with the effects
    /// applied so far left in place.
    #[verifier::rlimit(100)]
    pub fn cycle(&mut self) -> (result: Result<Option<CpuSnapshot>, CpuError>)
        requires
            old(self).wf(),
        ensures
            final(self).wf(),
            ({
                let (post, outcome) = spec_cycle(old(self)@);
                final(self)@ == post && spec_cycle_result_matches(outcome, result)
            }),
    {
        self.cpu_cycles = wrapping_inc_u16(self.cpu_cycles);

        if self.current_instruction_cycle == 1 {
            let mut snapshot = match CpuSnapshot::new(self) {
                Ok(snapshot) => snapshot,
                Err(error) => {
                    return Err(CpuError::BusError(error));
                },
            };
            let opcode = match self.bus.read(self.program_counter) {
                Ok(opcode) => opcode,
                Err(error) => {
                    return Err(CpuError::BusError(error));
                },
            };
            let instruction = match Cpu::dispatch_opcode(opcode) {
                Some(instruction) => instruction,
                None => {
                    return Err(CpuError::UnimplementedOpcode(opcode));
                },
            };
            self.current_instruction = instruction;
            let data = match self.dispatch_instruction() {
                Ok(data) => data,
                Err(error) => {
                    return Err(CpuError::BusError(error));
                },
            };
            snapshot.instruction_data = data;
            self.program_counter = wrapping_inc_u16(self.program_counter);
            self.current_instruction_cycle = 2;
            return Ok(Some(snapshot));
        }
        proof {
            lemma_dispatch_cycles_wf(self@);
        }
        let outcome = self.dispatch_instruction_cycles();
        let instruction_ended = match outcome {
            Ok(ended) => ended,
            Err(error) => {
                return Err(CpuError::InstructionError(error));
            },
        };
        self.current_instruction_cycle = self.current_instruction_cycle + 1;
        if instruction_ended {
            // This will retrigger the opcode dispatch cycle
            self.current_instruction_cycle = 1;
            self.cache.clear();
        }
        Ok(None)
    }
}

} // verus!
