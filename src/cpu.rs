//! Processor state, instruction decoding, and the single-step interpreter.

use vstd::prelude::*;

use crate::flags::{arith_flags, ConditionCodes};

verus! {

/// Operand selector of the arithmetic instructions: a register, or the memory
/// cell addressed by the `H:L` pair (`M`).
#[derive(Clone, Copy, Debug, PartialEq, Eq, Structural)]
pub enum Operand {
    B,
    C,
    D,
    E,
    H,
    L,
    M,
    A,
}

/// The operand that the low three bits of an opcode select.
pub open spec fn operand_spec(index: u8) -> Operand {
    if index == 0 {
        Operand::B
    } else if index == 1 {
        Operand::C
    } else if index == 2 {
        Operand::D
    } else if index == 3 {
        Operand::E
    } else if index == 4 {
        Operand::H
    } else if index == 5 {
        Operand::L
    } else if index == 6 {
        Operand::M
    } else {
        Operand::A
    }
}

impl Operand {
    /// The operand selected by a three-bit field of an opcode.
    pub fn from_index(index: u8) -> (r: Operand)
        requires
            index < 8,
        ensures
            r == operand_spec(index),
    {
        match index {
            0 => Operand::B,
            1 => Operand::C,
            2 => Operand::D,
            3 => Operand::E,
            4 => Operand::H,
            5 => Operand::L,
            6 => Operand::M,
            _ => Operand::A,
        }
    }
}

/// A decoded instruction of the supported subset.
#[derive(Clone, Copy, Debug, PartialEq, Eq, Structural)]
pub enum Instruction {
    /// No operation.
    Nop,
    /// `ADD` (no carry-in) or `ADC` (carry-in from the Carry flag) of an operand
    /// into the accumulator.
    Add { operand: Operand, with_carry: bool },
}

/// The instruction that an opcode byte stands for, if it is in the supported subset:
/// `0x00` is `NOP`, `0x80..=0x87` are `ADD`, `0x88..=0x8F` are `ADC`, in the operand
/// order `B, C, D, E, H, L, M, A`.
pub open spec fn decode_spec(opcode: u8) -> Option<Instruction> {
    if opcode == 0x00 {
        Some(Instruction::Nop)
    } else if 0x80 <= opcode && opcode <= 0x8f {
        Some(Instruction::Add { operand: operand_spec(opcode % 8), with_carry: opcode >= 0x88 })
    } else {
        None
    }
}

/// Decodes one opcode byte.
pub fn decode(opcode: u8) -> (r: Option<Instruction>)
    ensures
        r == decode_spec(opcode),
{
    if opcode == 0x00 {
        Some(Instruction::Nop)
    } else if 0x80 <= opcode && opcode <= 0x8f {
        Some(Instruction::Add { operand: Operand::from_index(opcode % 8), with_carry: opcode >= 0x88 })
    } else {
        None
    }
}

/// Why a step failed.
#[derive(Clone, Copy, Debug, PartialEq, Eq, Structural)]
pub enum CpuError {
    /// The byte at the program counter is no instruction of the supported subset.
    UnimplementedOpcode(u8),
    /// An access to a memory cell that does not exist: the opcode fetch at the
    /// program counter, or operand `M` through the `H:L` pair.
    AddressOutOfRange(u16),
}

/// The 16-bit address formed by the register pair `H:L`: `H` is the high byte.
pub open spec fn pair_address(h: u8, l: u8) -> int {
    h as int * 256 + l as int
}

/// The complete state of the processor.
#[derive(Clone, Debug)]
pub struct CPU {
    /// Accumulator.
    pub a: u8,
    pub b: u8,
    pub c: u8,
    pub d: u8,
    pub e: u8,
    pub h: u8,
    pub l: u8,
    /// Stack pointer.
    pub sp: u16,
    /// Program counter.
    pub pc: u16,
    /// Addressable memory, filled in by the caller before execution.
    pub memory: Vec<u8>,
    /// Status flags of the most recent arithmetic operation.
    pub condition: ConditionCodes,
    /// Interrupt-enable byte.
    pub int_enable: u8,
}

impl CPU {
    /// The address held in the `H:L` pair.
    pub open spec fn hl_spec(&self) -> int {
        pair_address(self.h, self.l)
    }

    /// The value of an operand in this state; `None` where operand `M` addresses a
    /// cell past the end of memory.
    pub open spec fn operand_value(&self, operand: Operand) -> Option<u8> {
        match operand {
            Operand::B => Some(self.b),
            Operand::C => Some(self.c),
            Operand::D => Some(self.d),
            Operand::E => Some(self.e),
            Operand::H => Some(self.h),
            Operand::L => Some(self.l),
            Operand::A => Some(self.a),
            Operand::M => if self.hl_spec() < self.memory@.len() {
                Some(self.memory@[self.hl_spec()])
            } else {
                None
            },
        }
    }

    /// The program counter advanced by one, wrapping at 16 bits.
    pub open spec fn next_pc(&self) -> u16 {
        ((self.pc as int + 1) % 0x10000) as u16
    }

    /// The widened sum that an addition of `value` computes: the accumulator plus
    /// `value`, plus one when carry-in is requested and the Carry flag is set.
    pub open spec fn sum_spec(&self, value: u8, with_carry: bool) -> int {
        self.a as int + value as int + if with_carry && self.condition.cy {
            1int
        } else {
            0int
        }
    }

    /// The state after adding `value` into the accumulator: the accumulator holds
    /// the sum modulo 256 and every flag is recomputed from the widened sum.
    pub open spec fn add_spec(self, value: u8, with_carry: bool) -> CPU {
        let sum = self.sum_spec(value, with_carry);
        CPU { a: (sum % 256) as u8, condition: arith_flags(sum), ..self }
    }

    /// What one fetch-decode-execute step yields: the next state, or the error.
    /// On success the program counter has advanced by exactly one.
    pub open spec fn step_spec(self) -> Result<CPU, CpuError> {
        if self.pc as int >= self.memory@.len() {
            Err(CpuError::AddressOutOfRange(self.pc))
        } else {
            let opcode = self.memory@[self.pc as int];
            match decode_spec(opcode) {
                None => Err(CpuError::UnimplementedOpcode(opcode)),
                Some(Instruction::Nop) => Ok(CPU { pc: self.next_pc(), ..self }),
                Some(Instruction::Add { operand, with_carry }) => match self.operand_value(
                    operand,
                ) {
                    None => Err(CpuError::AddressOutOfRange(self.hl_spec() as u16)),
                    Some(value) => Ok(
                        CPU { pc: self.next_pc(), ..self.add_spec(value, with_carry) },
                    ),
                },
            }
        }
    }

    /// A processor with the given memory and every register and flag zeroed.
    pub fn new(memory: Vec<u8>) -> (r: CPU)
        ensures
            r.a == 0 && r.b == 0 && r.c == 0 && r.d == 0 && r.e == 0 && r.h == 0 && r.l == 0,
            r.sp == 0 && r.pc == 0 && r.int_enable == 0,
            r.memory@ == memory@,
            r.condition == (ConditionCodes { z: false, s: false, p: false, cy: false, ac: false }),
    {
        CPU {
            a: 0,
            b: 0,
            c: 0,
            d: 0,
            e: 0,
            h: 0,
            l: 0,
            sp: 0,
            pc: 0,
            memory,
            condition: ConditionCodes::empty(),
            int_enable: 0,
        }
    }

    /// The address held in the `H:L` pair: `H` in the high byte, `L` in the low byte.
    pub fn hl(&self) -> (r: u16)
        ensures
            r as int == self.hl_spec(),
    {
        let h: u16 = self.h as u16;
        let l: u16 = self.l as u16;
        let r: u16 = (h << 8u16) | l;
        assert(r == h * 256 + l) by (bit_vector)
            requires
                h < 256,
                l < 256,
                r == (h << 8u16) | l,
        ;
        r
    }

    /// Reads an operand; operand `M` reads memory at `H:L` and fails past its end.
    pub fn read_operand(&self, operand: Operand) -> (r: Result<u8, CpuError>)
        ensures
            match self.operand_value(operand) {
                Some(v) => r == Ok::<u8, CpuError>(v),
                None => r == Err::<u8, CpuError>(CpuError::AddressOutOfRange(self.hl_spec() as u16)),
            },
    {
        match operand {
            Operand::B => Ok(self.b),
            Operand::C => Ok(self.c),
            Operand::D => Ok(self.d),
            Operand::E => Ok(self.e),
            Operand::H => Ok(self.h),
            Operand::L => Ok(self.l),
            Operand::A => Ok(self.a),
            Operand::M => {
                let address = self.hl();
                if (address as usize) < self.memory.len() {
                    Ok(self.memory[address as usize])
                } else {
                    Err(CpuError::AddressOutOfRange(address))
                }
            },
        }
    }

    /// Replaces every flag by those of the widened arithmetic result `value`, and
    /// returns the new flags.
    pub fn set_arth_flags(&mut self, value: u16) -> (r: ConditionCodes)
        ensures
            r == arith_flags(value as int),
            *final(self) == (CPU { condition: arith_flags(value as int), ..*old(self) }),
    {
        self.condition = ConditionCodes::from_result(value);
        self.condition
    }

    /// Adds `value` into the accumulator, with carry-in from the Carry flag when
    /// `with_carry` holds, and recomputes the flags from the widened sum.
    pub fn add_to_accumulator(&mut self, value: u8, with_carry: bool)
        ensures
            *final(self) == old(self).add_spec(value, with_carry),
    {
        let carry_in: u16 = if with_carry && self.condition.cy {
            1
        } else {
            0
        };
        let answer: u16 = self.a as u16 + value as u16 + carry_in;
        self.set_arth_flags(answer);
        assert(answer & 0xff == answer % 256) by (bit_vector);
        self.a = (answer & 0xff) as u8;
    }

    /// Executes exactly one instruction. On success the program counter has advanced
    /// by one; on failure the state is left as it was, positioned at the failing
    /// instruction.
    pub fn run(&mut self) -> (r: Result<(), CpuError>)
        ensures
            match old(self).step_spec() {
                Ok(next) => r == Ok::<(), CpuError>(()) && *final(self) == next,
                Err(e) => r == Err::<(), CpuError>(e) && *final(self) == *old(self),
            },
    {
        if (self.pc as usize) >= self.memory.len() {
            return Err(CpuError::AddressOutOfRange(self.pc));
        }
        let opcode = self.memory[self.pc as usize];
        match decode(opcode) {
            None => {
                return Err(CpuError::UnimplementedOpcode(opcode));
            },
            Some(Instruction::Nop) => {},
            Some(Instruction::Add { operand, with_carry }) => {
                let value = match self.read_operand(operand) {
                    Ok(v) => v,
                    Err(e) => {
                        return Err(e);
                    },
                };
                self.add_to_accumulator(value, with_carry);
            },
        }
        self.pc = if self.pc == 0xffff {
            0
        } else {
            self.pc + 1
        };
        Ok(())
    }
}

} // verus!
