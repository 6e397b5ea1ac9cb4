use vstd::prelude::*;

use crate::error::VirtualMachineError;

verus! {

/// Number of registers of the machine.
pub const NBR_REGISTERS: u16 = 8;

/// Smallest word that names a register; also the modulus of all arithmetic.
pub const MODULO: u16 = 32768;

/// A decoded word: a literal value in `0..=32767` or the index of a register.
#[derive(Debug, Clone, Copy, PartialEq, Eq, Structural)]
pub enum Operand {
    Literal(u16),
    Register(u16),
}

/// What decoding the word `w` yields.
pub open spec fn decode_spec(w: u16) -> Result<Operand, VirtualMachineError> {
    if w < MODULO {
        Ok(Operand::Literal(w))
    } else if w < MODULO + NBR_REGISTERS {
        Ok(Operand::Register((w - MODULO) as u16))
    } else {
        Err(VirtualMachineError::InvalidInstructionValue)
    }
}

/// The register that a destination operand names.
pub open spec fn register_index_spec(op: Operand) -> Result<u16, VirtualMachineError> {
    match op {
        Operand::Register(i) => Ok(i),
        Operand::Literal(_) => Err(VirtualMachineError::ExpectedRegisterOperand),
    }
}

impl Operand {
    /// A decoded operand is in range: a literal below 32768, a register below 8.
    pub open spec fn valid(self) -> bool {
        match self {
            Operand::Literal(v) => v < MODULO,
            Operand::Register(i) => i < NBR_REGISTERS,
        }
    }

    /// Decodes a raw word.
    pub fn decode(w: u16) -> (r: Result<Operand, VirtualMachineError>)
        ensures
            r == decode_spec(w),
            r is Ok ==> r->Ok_0.valid(),
    {
        if w < MODULO {
            Ok(Operand::Literal(w))
        } else if w < MODULO + NBR_REGISTERS {
            Ok(Operand::Register(w - MODULO))
        } else {
            Err(VirtualMachineError::InvalidInstructionValue)
        }
    }

    /// The register that this operand names, for a destination position.
    pub fn register_index(&self) -> (r: Result<u16, VirtualMachineError>)
        ensures
            r == register_index_spec(*self),
    {
        match *self {
            Operand::Register(i) => Ok(i),
            Operand::Literal(_) => Err(VirtualMachineError::ExpectedRegisterOperand),
        }
    }
}

} // verus!
