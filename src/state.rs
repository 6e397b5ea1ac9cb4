use vstd::prelude::*;

use crate::error::VirtualMachineError;
use crate::operand::{decode_spec, register_index_spec, Operand, MODULO, NBR_REGISTERS};

verus! {

/// Number of memory cells.
pub const MEMORY_SIZE: usize = 32768;

/// Opcode words of the instruction set.
pub const OP_HALT: u16 = 0;
pub const OP_SET: u16 = 1;
pub const OP_PUSH: u16 = 2;
pub const OP_POP: u16 = 3;
pub const OP_EQ: u16 = 4;
pub const OP_GT: u16 = 5;
pub const OP_JMP: u16 = 6;
pub const OP_JT: u16 = 7;
pub const OP_JF: u16 = 8;
pub const OP_ADD: u16 = 9;
pub const OP_MULT: u16 = 10;
pub const OP_MOD: u16 = 11;
pub const OP_AND: u16 = 12;
pub const OP_OR: u16 = 13;
pub const OP_NOT: u16 = 14;
pub const OP_RMEM: u16 = 15;
pub const OP_WMEM: u16 = 16;
pub const OP_CALL: u16 = 17;
pub const OP_RET: u16 = 18;
pub const OP_OUT: u16 = 19;
pub const OP_IN: u16 = 20;
pub const OP_NOOP: u16 = 21;

/// What one instruction hands back to whoever runs the machine.
#[derive(Debug, Clone, Copy, PartialEq, Eq, Structural)]
pub enum Event {
    /// The instruction completed; execution may go on.
    Continue,
    /// `out` emitted this byte.
    Output(u8),
    /// `in` wants one byte of input stored into this register.
    Input(u16),
    /// `halt` was reached: the program finished successfully.
    Halted,
}

/// The outcome of one instruction.
pub type StepResult = Result<Event, VirtualMachineError>;

/// The abstract state of a machine.
pub struct MachineState {
    pub memory: Seq<u16>,
    pub registers: Seq<u16>,
    pub stack: Seq<u16>,
    pub ip: u16,
}

/// `(b + c) mod 32768`.
pub open spec fn add_value(b: u16, c: u16) -> u16 {
    ((b + c) % (MODULO as int)) as u16
}

/// `(b * c) mod 32768`.
pub open spec fn mult_value(b: u16, c: u16) -> u16 {
    ((b * c) % (MODULO as int)) as u16
}

/// The 15-bit complement of `b`; bit 15 is left as it is.
pub open spec fn not_value(b: u16) -> u16 {
    b ^ 0x7fff
}

/// 1 when the condition holds, else 0.
pub open spec fn flag_value(c: bool) -> u16 {
    if c { 1 } else { 0 }
}

impl MachineState {
    pub open spec fn wf(self) -> bool {
        &&& self.memory.len() == MEMORY_SIZE
        &&& self.registers.len() == NBR_REGISTERS
    }

    /// The word `k` cells past the instruction pointer, decoded.
    pub open spec fn fetch(self, k: int) -> Result<Operand, VirtualMachineError> {
        if self.ip + k < MEMORY_SIZE {
            decode_spec(self.memory[self.ip + k])
        } else {
            Err(VirtualMachineError::InvalidAddress)
        }
    }

    /// The number an operand stands for.
    pub open spec fn resolve(self, op: Operand) -> u16 {
        match op {
            Operand::Literal(v) => v,
            Operand::Register(i) => self.registers[i as int],
        }
    }

    /// The operand `k` cells past the instruction pointer, resolved.
    pub open spec fn fetch_value(self, k: int) -> Result<u16, VirtualMachineError> {
        match self.fetch(k) {
            Ok(op) => Ok(self.resolve(op)),
            Err(e) => Err(e),
        }
    }

    /// The register named by the destination operand `k` cells past the
    /// instruction pointer.
    pub open spec fn fetch_register(self, k: int) -> Result<u16, VirtualMachineError> {
        match self.fetch(k) {
            Ok(op) => register_index_spec(op),
            Err(e) => Err(e),
        }
    }

    /// The two resolved operands at offsets 1 and 2.
    pub open spec fn two_values(self) -> Result<(u16, u16), VirtualMachineError> {
        match self.fetch_value(1) {
            Err(e) => Err(e),
            Ok(a) => match self.fetch_value(2) {
                Err(e) => Err(e),
                Ok(b) => Ok((a, b)),
            },
        }
    }

    /// A destination register at offset 1 and a resolved operand at offset 2.
    pub open spec fn register_and_value(self) -> Result<(u16, u16), VirtualMachineError> {
        match self.fetch_register(1) {
            Err(e) => Err(e),
            Ok(a) => match self.fetch_value(2) {
                Err(e) => Err(e),
                Ok(b) => Ok((a, b)),
            },
        }
    }

    /// A destination register at offset 1 and resolved operands at offsets 2, 3.
    pub open spec fn register_and_two_values(self) -> Result<(u16, u16, u16), VirtualMachineError> {
        match self.register_and_value() {
            Err(e) => Err(e),
            Ok((a, b)) => match self.fetch_value(3) {
                Err(e) => Err(e),
                Ok(c) => Ok((a, b, c)),
            },
        }
    }

    pub open spec fn with_register(self, i: u16, v: u16) -> MachineState {
        MachineState { registers: self.registers.update(i as int, v), ..self }
    }

    pub open spec fn with_ip(self, ip: int) -> MachineState {
        MachineState { ip: ip as u16, ..self }
    }

    /// Register `a` := `v`, then move past an instruction of `len` words.
    pub open spec fn store(self, a: u16, v: u16, len: int) -> (MachineState, StepResult) {
        (self.with_register(a, v).with_ip(self.ip + len), Ok(Event::Continue))
    }

    pub open spec fn halt_spec(self) -> (MachineState, StepResult) {
        (self.with_ip(self.ip + 1), Ok(Event::Halted))
    }

    pub open spec fn set_spec(self) -> (MachineState, StepResult) {
        match self.register_and_value() {
            Err(e) => (self, Err(e)),
            Ok((a, b)) => self.store(a, b, 3),
        }
    }

    pub open spec fn push_spec(self) -> (MachineState, StepResult) {
        match self.fetch_value(1) {
            Err(e) => (self, Err(e)),
            Ok(a) => (
                MachineState { stack: self.stack.push(a), ..self }.with_ip(self.ip + 2),
                Ok(Event::Continue),
            ),
        }
    }

    pub open spec fn pop_spec(self) -> (MachineState, StepResult) {
        match self.fetch_register(1) {
            Err(e) => (self, Err(e)),
            Ok(a) => if self.stack.len() == 0 {
                (self, Err(VirtualMachineError::StackUnderflow))
            } else {
                MachineState { stack: self.stack.drop_last(), ..self }.store(a, self.stack.last(), 2)
            },
        }
    }

    pub open spec fn eq_spec(self) -> (MachineState, StepResult) {
        match self.register_and_two_values() {
            Err(e) => (self, Err(e)),
            Ok((a, b, c)) => self.store(a, flag_value(b == c), 4),
        }
    }

    pub open spec fn gt_spec(self) -> (MachineState, StepResult) {
        match self.register_and_two_values() {
            Err(e) => (self, Err(e)),
            Ok((a, b, c)) => self.store(a, flag_value(b > c), 4),
        }
    }

    pub open spec fn jmp_spec(self) -> (MachineState, StepResult) {
        match self.fetch_value(1) {
            Err(e) => (self, Err(e)),
            Ok(a) => (self.with_ip(a as int), Ok(Event::Continue)),
        }
    }

    pub open spec fn jt_spec(self) -> (MachineState, StepResult) {
        match self.two_values() {
            Err(e) => (self, Err(e)),
            Ok((a, b)) => (
                self.with_ip(if a != 0 { b as int } else { self.ip + 3 }),
                Ok(Event::Continue),
            ),
        }
    }

    pub open spec fn jf_spec(self) -> (MachineState, StepResult) {
        match self.two_values() {
            Err(e) => (self, Err(e)),
            Ok((a, b)) => (
                self.with_ip(if a == 0 { b as int } else { self.ip + 3 }),
                Ok(Event::Continue),
            ),
        }
    }

    pub open spec fn add_spec(self) -> (MachineState, StepResult) {
        match self.register_and_two_values() {
            Err(e) => (self, Err(e)),
            Ok((a, b, c)) => self.store(a, add_value(b, c), 4),
        }
    }

    pub open spec fn mult_spec(self) -> (MachineState, StepResult) {
        match self.register_and_two_values() {
            Err(e) => (self, Err(e)),
            Ok((a, b, c)) => self.store(a, mult_value(b, c), 4),
        }
    }

    pub open spec fn rem_spec(self) -> (MachineState, StepResult) {
        match self.register_and_two_values() {
            Err(e) => (self, Err(e)),
            Ok((a, b, c)) => if c == 0 {
                (self, Err(VirtualMachineError::DivisionByZero))
            } else {
                self.store(a, b % c, 4)
            },
        }
    }

    pub open spec fn and_spec(self) -> (MachineState, StepResult) {
        match self.register_and_two_values() {
            Err(e) => (self, Err(e)),
            Ok((a, b, c)) => self.store(a, b & c, 4),
        }
    }

    pub open spec fn or_spec(self) -> (MachineState, StepResult) {
        match self.register_and_two_values() {
            Err(e) => (self, Err(e)),
            Ok((a, b, c)) => self.store(a, b | c, 4),
        }
    }

    pub open spec fn not_spec(self) -> (MachineState, StepResult) {
        match self.register_and_value() {
            Err(e) => (self, Err(e)),
            Ok((a, b)) => self.store(a, not_value(b), 3),
        }
    }

    pub open spec fn rmem_spec(self) -> (MachineState, StepResult) {
        match self.register_and_value() {
            Err(e) => (self, Err(e)),
            Ok((a, b)) => if b < MEMORY_SIZE {
                self.store(a, self.memory[b as int], 3)
            } else {
                (self, Err(VirtualMachineError::InvalidAddress))
            },
        }
    }

    pub open spec fn wmem_spec(self) -> (MachineState, StepResult) {
        match self.two_values() {
            Err(e) => (self, Err(e)),
            Ok((a, b)) => if a < MEMORY_SIZE {
                (
                    MachineState { memory: self.memory.update(a as int, b), ..self }.with_ip(self.ip + 3),
                    Ok(Event::Continue),
                )
            } else {
                (self, Err(VirtualMachineError::InvalidAddress))
            },
        }
    }

    pub open spec fn call_spec(self) -> (MachineState, StepResult) {
        match self.fetch_value(1) {
            Err(e) => (self, Err(e)),
            Ok(a) => (
                MachineState { stack: self.stack.push((self.ip + 2) as u16), ..self }.with_ip(a as int),
                Ok(Event::Continue),
            ),
        }
    }

    pub open spec fn ret_spec(self) -> (MachineState, StepResult) {
        if self.stack.len() == 0 {
            (self, Err(VirtualMachineError::StackUnderflow))
        } else {
            (
                MachineState { stack: self.stack.drop_last(), ..self }.with_ip(self.stack.last() as int),
                Ok(Event::Continue),
            )
        }
    }

    pub open spec fn out_spec(self) -> (MachineState, StepResult) {
        match self.fetch_value(1) {
            Err(e) => (self, Err(e)),
            Ok(a) => (self.with_ip(self.ip + 2), Ok(Event::Output((a % 256) as u8))),
        }
    }

    pub open spec fn in_spec(self) -> (MachineState, StepResult) {
        match self.fetch_register(1) {
            Err(e) => (self, Err(e)),
            Ok(a) => (self.with_ip(self.ip + 2), Ok(Event::Input(a))),
        }
    }

    pub open spec fn noop_spec(self) -> (MachineState, StepResult) {
        (self.with_ip(self.ip + 1), Ok(Event::Continue))
    }

    /// One instruction: fetch the opcode word, then run the instruction it
    /// names. A failing instruction leaves the state as it was.
    pub open spec fn step_spec(self) -> (MachineState, StepResult) {
        match self.fetch(0) {
            Err(e) => (self, Err(e)),
            Ok(_) => {
                let opcode = self.memory[self.ip as int];
                if opcode == OP_HALT { self.halt_spec() }
                else if opcode == OP_SET { self.set_spec() }
                else if opcode == OP_PUSH { self.push_spec() }
                else if opcode == OP_POP { self.pop_spec() }
                else if opcode == OP_EQ { self.eq_spec() }
                else if opcode == OP_GT { self.gt_spec() }
                else if opcode == OP_JMP { self.jmp_spec() }
                else if opcode == OP_JT { self.jt_spec() }
                else if opcode == OP_JF { self.jf_spec() }
                else if opcode == OP_ADD { self.add_spec() }
                else if opcode == OP_MULT { self.mult_spec() }
                else if opcode == OP_MOD { self.rem_spec() }
                else if opcode == OP_AND { self.and_spec() }
                else if opcode == OP_OR { self.or_spec() }
                else if opcode == OP_NOT { self.not_spec() }
                else if opcode == OP_RMEM { self.rmem_spec() }
                else if opcode == OP_WMEM { self.wmem_spec() }
                else if opcode == OP_CALL { self.call_spec() }
                else if opcode == OP_RET { self.ret_spec() }
                else if opcode == OP_OUT { self.out_spec() }
                else if opcode == OP_IN { self.in_spec() }
                else if opcode == OP_NOOP { self.noop_spec() }
                else { (self, Err(VirtualMachineError::InvalidOpCode)) }
            },
        }
    }

    /// Runs instructions until one does not merely continue, or until
    /// `fuel` instructions have run.
    pub open spec fn run_spec(self, fuel: nat) -> (MachineState, StepResult)
        decreases fuel,
    {
        if fuel == 0 {
            (self, Ok(Event::Continue))
        } else {
            let (next, r) = self.step_spec();
            if r == Ok::<Event, VirtualMachineError>(Event::Continue) {
                next.run_spec((fuel - 1) as nat)
            } else {
                (next, r)
            }
        }
    }
}

} // verus!
