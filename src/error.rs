use vstd::prelude::*;

verus! {

/// Why the machine stopped executing a program.
#[derive(Debug, Clone, Copy, PartialEq, Eq, Structural)]
pub enum VirtualMachineError {
    /// A fetched word is 32776 or larger: neither a literal nor a register.
    InvalidInstructionValue,
    /// A destination operand names a literal instead of a register.
    ExpectedRegisterOperand,
    /// The opcode word matches none of the defined instructions.
    InvalidOpCode,
    /// `pop` or `ret` found the stack empty.
    StackUnderflow,
    /// The input stream had no byte when `in` asked for one.
    InputReadFailure,
    /// `mod` was asked to divide by zero.
    DivisionByZero,
    /// A fetch, `rmem` or `wmem` named an address outside memory.
    InvalidAddress,
}

} // verus!
