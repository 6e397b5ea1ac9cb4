//! A virtual machine for a small 16-bit architecture: 32768 words of memory,
//! eight registers, an unbounded stack and an instruction pointer.
//!
//! `operand` decodes words, `state` gives the meaning of every instruction
//! over an abstract machine state, `machine` runs programs against that
//! meaning, and `laws` proves properties of it.

mod error;
mod laws;
mod machine;
mod operand;
mod state;

pub use error::VirtualMachineError;
pub use laws::{
    lemma_add_mult_commutative_and_closed, lemma_add_mult_operands_commute,
    lemma_empty_stack_underflow, lemma_literal_destination_rejected, lemma_not_involution,
    lemma_step_keeps_wf, lemma_wmem_rmem_round_trip, reads_from, state_after, writes_to,
};
pub use machine::{le_word, words_from_le_bytes, VirtualMachine};
pub use operand::{decode_spec, register_index_spec, Operand, MODULO, NBR_REGISTERS};
pub use state::{
    add_value, flag_value, mult_value, not_value, Event, MachineState, StepResult, MEMORY_SIZE,
    OP_ADD, OP_AND, OP_CALL, OP_EQ, OP_GT, OP_HALT, OP_IN, OP_JF, OP_JMP, OP_JT, OP_MOD, OP_MULT,
    OP_NOOP, OP_NOT, OP_OR, OP_OUT, OP_POP, OP_PUSH, OP_RET, OP_RMEM, OP_SET, OP_WMEM,
};
