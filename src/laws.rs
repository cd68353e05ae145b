//! General properties of a single step, proved from the step semantics.

use vstd::prelude::*;

use crate::cpu::{decode_spec, CpuError, Instruction, Operand, CPU};

verus! {

/// An `ADD` leaves in the accumulator the sum of the accumulator and the operand,
/// modulo 256: it wraps and never faults.
pub proof fn lemma_add_truncates(cpu: CPU, operand: Operand, value: u8)
    requires
        (cpu.pc as int) < cpu.memory@.len(),
        decode_spec(cpu.memory@[cpu.pc as int]) == Some(
            Instruction::Add { operand, with_carry: false },
        ),
        cpu.operand_value(operand) == Some(value),
    ensures
        cpu.step_spec() is Ok,
        cpu.step_spec()->Ok_0.a as int == (cpu.a as int + value as int) % 256,
{
}

/// An opcode outside the supported set (`0x00` and `0x80..=0x8F`) makes the step
/// fail with an unimplemented-opcode error that names it; since a failed step leaves
/// the state as it was, the program counter, registers and flags do not change.
pub proof fn lemma_unrecognized_opcode_fails(cpu: CPU)
    requires
        (cpu.pc as int) < cpu.memory@.len(),
        cpu.memory@[cpu.pc as int] != 0x00,
        !(0x80 <= cpu.memory@[cpu.pc as int] && cpu.memory@[cpu.pc as int] <= 0x8f),
    ensures
        cpu.step_spec() == Err::<CPU, CpuError>(
            CpuError::UnimplementedOpcode(cpu.memory@[cpu.pc as int]),
        ),
{
}

/// The flags and accumulator after an addition depend only on the accumulator, the
/// operand's value and (for a carry-in addition) the Carry flag: two states that agree
/// on those reach the same flags, whatever else differs, including the earlier flags.
pub proof fn lemma_add_flags_deterministic(
    first: CPU,
    second: CPU,
    operand: Operand,
    with_carry: bool,
    value: u8,
)
    requires
        (first.pc as int) < first.memory@.len(),
        (second.pc as int) < second.memory@.len(),
        decode_spec(first.memory@[first.pc as int]) == Some(
            Instruction::Add { operand, with_carry },
        ),
        decode_spec(second.memory@[second.pc as int]) == Some(
            Instruction::Add { operand, with_carry },
        ),
        first.a == second.a,
        first.operand_value(operand) == Some(value),
        second.operand_value(operand) == Some(value),
        with_carry ==> first.condition.cy == second.condition.cy,
    ensures
        first.step_spec() is Ok,
        second.step_spec() is Ok,
        first.step_spec()->Ok_0.condition == second.step_spec()->Ok_0.condition,
        first.step_spec()->Ok_0.a == second.step_spec()->Ok_0.a,
{
}

} // verus!
