use vstd::prelude::*;

use crate::error::VirtualMachineError;
use crate::operand::{Operand, MODULO, NBR_REGISTERS};
use crate::state::{
    Event, MachineState, StepResult, MEMORY_SIZE,
    OP_ADD, OP_AND, OP_CALL, OP_EQ, OP_GT, OP_HALT, OP_IN, OP_JF, OP_JMP, OP_JT, OP_MOD, OP_MULT,
    OP_NOOP, OP_NOT, OP_OR, OP_OUT, OP_POP, OP_PUSH, OP_RET, OP_RMEM, OP_SET, OP_WMEM,
};

verus! {

/// The machine: memory, registers, stack and instruction pointer.
pub struct VirtualMachine {
    memory: Vec<u16>,
    registers: Vec<u16>,
    stack: Vec<u16>,
    instruction_pointer: u16,
}

impl View for VirtualMachine {
    type V = MachineState;

    closed spec fn view(&self) -> MachineState {
        MachineState {
            memory: self.memory@,
            registers: self.registers@,
            stack: self.stack@,
            ip: self.instruction_pointer,
        }
    }
}

impl VirtualMachine {
    pub open spec fn wf(&self) -> bool {
        self@.wf()
    }

    /// A machine with zeroed memory and registers, an empty stack and the
    /// instruction pointer at 0.
    pub fn new() -> (r: VirtualMachine)
        ensures
            r.wf(),
            r@.memory == Seq::new(MEMORY_SIZE as nat, |i: int| 0u16),
            r@.registers == Seq::new(NBR_REGISTERS as nat, |i: int| 0u16),
            r@.stack == Seq::<u16>::empty(),
            r@.ip == 0,
    {
        let r = VirtualMachine {
            memory: vec![0u16; MEMORY_SIZE],
            registers: vec![0u16; NBR_REGISTERS as usize],
            stack: Vec::new(),
            instruction_pointer: 0,
        };
        assert(r@.memory =~= Seq::new(MEMORY_SIZE as nat, |i: int| 0u16));
        assert(r@.registers =~= Seq::new(NBR_REGISTERS as nat, |i: int| 0u16));
        r
    }

    /// The word `k` cells past the instruction pointer, decoded.
    fn read_instruction(&self, k: u16) -> (r: Result<Operand, VirtualMachineError>)
        requires
            self.wf(),
        ensures
            r == self@.fetch(k as int),
            r is Ok ==> r->Ok_0.valid() && self@.ip + k < MEMORY_SIZE,
    {
        let addr: usize = self.instruction_pointer as usize + k as usize;
        if addr < MEMORY_SIZE {
            Operand::decode(self.memory[addr])
        } else {
            Err(VirtualMachineError::InvalidAddress)
        }
    }

    /// The number an operand stands for.
    fn get_value(&self, op: Operand) -> (r: u16)
        requires
            self.wf(),
            op.valid(),
        ensures
            r == self@.resolve(op),
    {
        match op {
            Operand::Register(i) => self.registers[i as usize],
            Operand::Literal(v) => v,
        }
    }

    fn fetch_value(&self, k: u16) -> (r: Result<u16, VirtualMachineError>)
        requires
            self.wf(),
        ensures
            r == self@.fetch_value(k as int),
            r is Ok ==> self@.ip + k < MEMORY_SIZE,
    {
        let op = self.read_instruction(k)?;
        Ok(self.get_value(op))
    }

    fn fetch_register(&self, k: u16) -> (r: Result<u16, VirtualMachineError>)
        requires
            self.wf(),
        ensures
            r == self@.fetch_register(k as int),
            r is Ok ==> self@.ip + k < MEMORY_SIZE && r->Ok_0 < NBR_REGISTERS,
    {
        let op = self.read_instruction(k)?;
        op.register_index()
    }

    fn two_values(&self) -> (r: Result<(u16, u16), VirtualMachineError>)
        requires
            self.wf(),
        ensures
            r == self@.two_values(),
            r is Ok ==> self@.ip + 2 < MEMORY_SIZE,
    {
        let a = self.fetch_value(1)?;
        let b = self.fetch_value(2)?;
        Ok((a, b))
    }

    fn register_and_value(&self) -> (r: Result<(u16, u16), VirtualMachineError>)
        requires
            self.wf(),
        ensures
            r == self@.register_and_value(),
            r is Ok ==> self@.ip + 2 < MEMORY_SIZE && r->Ok_0.0 < NBR_REGISTERS,
    {
        let a = self.fetch_register(1)?;
        let b = self.fetch_value(2)?;
        Ok((a, b))
    }

    fn register_and_two_values(&self) -> (r: Result<(u16, u16, u16), VirtualMachineError>)
        requires
            self.wf(),
        ensures
            r == self@.register_and_two_values(),
            r is Ok ==> self@.ip + 3 < MEMORY_SIZE && r->Ok_0.0 < NBR_REGISTERS,
    {
        let (a, b) = self.register_and_value()?;
        let c = self.fetch_value(3)?;
        Ok((a, b, c))
    }

    /// Register `a` := `v`, then move past an instruction of `len` words.
    fn store(&mut self, a: u16, v: u16, len: u16) -> (r: StepResult)
        requires
            old(self).wf(),
            a < NBR_REGISTERS,
            old(self)@.ip + len <= MEMORY_SIZE,
        ensures
            final(self).wf(),
            (final(self)@, r) == old(self)@.store(a, v, len as int),
    {
        self.registers[a as usize] = v;
        self.instruction_pointer = self.instruction_pointer + len;
        Ok(Event::Continue)
    }

    // Halt execution.
    fn halt(&mut self) -> (r: StepResult)
        requires
            old(self).wf(),
            old(self)@.ip < MEMORY_SIZE,
        ensures
            final(self).wf(),
            (final(self)@, r) == old(self)@.halt_spec(),
    {
        self.instruction_pointer = self.instruction_pointer + 1;
        Ok(Event::Halted)
    }

    // Set register 'a' to the value 'b' (or value in register 'b').
    fn set(&mut self) -> (r: StepResult)
        requires
            old(self).wf(),
        ensures
            final(self).wf(),
            (final(self)@, r) == old(self)@.set_spec(),
    {
        let (a, b) = self.register_and_value()?;
        self.store(a, b, 3)
    }

    // Assign into register 'a' the sum of 'b' and 'c' (modulo 32768).
    fn add(&mut self) -> (r: StepResult)
        requires
            old(self).wf(),
        ensures
            final(self).wf(),
            (final(self)@, r) == old(self)@.add_spec(),
    {
        let (a, b, c) = self.register_and_two_values()?;
        let v = ((b as u32 + c as u32) % (MODULO as u32)) as u16;
        self.store(a, v, 4)
    }

    // Push value of 'a' onto the stack.
    fn push(&mut self) -> (r: StepResult)
        requires
            old(self).wf(),
        ensures
            final(self).wf(),
            (final(self)@, r) == old(self)@.push_spec(),
    {
        let a = self.fetch_value(1)?;
        self.stack.push(a);
        self.instruction_pointer = self.instruction_pointer + 2;
        Ok(Event::Continue)
    }

    // Pop the stack into register 'a'; the stack must not be empty.
    fn pop(&mut self) -> (r: StepResult)
        requires
            old(self).wf(),
        ensures
            final(self).wf(),
            (final(self)@, r) == old(self)@.pop_spec(),
    {
        let a = self.fetch_register(1)?;
        match self.stack.pop() {
            Some(b) => self.store(a, b, 2),
            None => Err(VirtualMachineError::StackUnderflow),
        }
    }

    // Set register 'a' to 1 if 'b' == 'c', to 0 otherwise.
    fn eq(&mut self) -> (r: StepResult)
        requires
            old(self).wf(),
        ensures
            final(self).wf(),
            (final(self)@, r) == old(self)@.eq_spec(),
    {
        let (a, b, c) = self.register_and_two_values()?;
        self.store(a, if b == c { 1 } else { 0 }, 4)
    }

    // Set register 'a' to 1 if 'b' > 'c', to 0 otherwise.
    fn gt(&mut self) -> (r: StepResult)
        requires
            old(self).wf(),
        ensures
            final(self).wf(),
            (final(self)@, r) == old(self)@.gt_spec(),
    {
        let (a, b, c) = self.register_and_two_values()?;
        self.store(a, if b > c { 1 } else { 0 }, 4)
    }

    // Jump to 'a'.
    fn jmp(&mut self) -> (r: StepResult)
        requires
            old(self).wf(),
        ensures
            final(self).wf(),
            (final(self)@, r) == old(self)@.jmp_spec(),
    {
        let a = self.fetch_value(1)?;
        self.instruction_pointer = a;
        Ok(Event::Continue)
    }

    // If 'a' is nonzero, jump to 'b'.
    fn jt(&mut self) -> (r: StepResult)
        requires
            old(self).wf(),
        ensures
            final(self).wf(),
            (final(self)@, r) == old(self)@.jt_spec(),
    {
        let (a, b) = self.two_values()?;
        self.instruction_pointer = if a != 0 { b } else { self.instruction_pointer + 3 };
        Ok(Event::Continue)
    }

    // If 'a' is zero, jump to 'b'.
    fn jf(&mut self) -> (r: StepResult)
        requires
            old(self).wf(),
        ensures
            final(self).wf(),
            (final(self)@, r) == old(self)@.jf_spec(),
    {
        let (a, b) = self.two_values()?;
        self.instruction_pointer = if a == 0 { b } else { self.instruction_pointer + 3 };
        Ok(Event::Continue)
    }

    // Assign into register 'a' the product of 'b' and 'c' (modulo 32768).
    fn mult(&mut self) -> (r: StepResult)
        requires
            old(self).wf(),
        ensures
            final(self).wf(),
            (final(self)@, r) == old(self)@.mult_spec(),
    {
        let (a, b, c) = self.register_and_two_values()?;
        let (b32, c32) = (b as u32, c as u32);
        assert(b32 * c32 <= 0xffff * 0xffff) by (nonlinear_arith)
            requires
                b32 <= 0xffff,
                c32 <= 0xffff,
        ;
        let v = ((b32 * c32) % (MODULO as u32)) as u16;
        self.store(a, v, 4)
    }

    // Assign into register 'a' the remainder of 'b' divided by 'c'.
    fn rem(&mut self) -> (r: StepResult)
        requires
            old(self).wf(),
        ensures
            final(self).wf(),
            (final(self)@, r) == old(self)@.rem_spec(),
    {
        let (a, b, c) = self.register_and_two_values()?;
        if c == 0 {
            return Err(VirtualMachineError::DivisionByZero);
        }
        self.store(a, b % c, 4)
    }

    // Assign into register 'a' the bitwise and of 'b' and 'c'.
    fn and(&mut self) -> (r: StepResult)
        requires
            old(self).wf(),
        ensures
            final(self).wf(),
            (final(self)@, r) == old(self)@.and_spec(),
    {
        let (a, b, c) = self.register_and_two_values()?;
        self.store(a, b & c, 4)
    }

    // Assign into register 'a' the bitwise or of 'b' and 'c'.
    fn or(&mut self) -> (r: StepResult)
        requires
            old(self).wf(),
        ensures
            final(self).wf(),
            (final(self)@, r) == old(self)@.or_spec(),
    {
        let (a, b, c) = self.register_and_two_values()?;
        self.store(a, b | c, 4)
    }

    // Assign into register 'a' the 15-bit inverse of 'b'.
    fn not(&mut self) -> (r: StepResult)
        requires
            old(self).wf(),
        ensures
            final(self).wf(),
            (final(self)@, r) == old(self)@.not_spec(),
    {
        let (a, b) = self.register_and_value()?;
        self.store(a, b ^ 0x7fff, 3)
    }

    // Read memory at address 'b' into register 'a'.
    fn rmem(&mut self) -> (r: StepResult)
        requires
            old(self).wf(),
        ensures
            final(self).wf(),
            (final(self)@, r) == old(self)@.rmem_spec(),
    {
        let (a, b) = self.register_and_value()?;
        if b as usize >= MEMORY_SIZE {
            return Err(VirtualMachineError::InvalidAddress);
        }
        let v = self.memory[b as usize];
        self.store(a, v, 3)
    }

    // Write the value 'b' to memory at address 'a'.
    fn wmem(&mut self) -> (r: StepResult)
        requires
            old(self).wf(),
        ensures
            final(self).wf(),
            (final(self)@, r) == old(self)@.wmem_spec(),
    {
        let (a, b) = self.two_values()?;
        if a as usize >= MEMORY_SIZE {
            return Err(VirtualMachineError::InvalidAddress);
        }
        self.memory[a as usize] = b;
        self.instruction_pointer = self.instruction_pointer + 3;
        Ok(Event::Continue)
    }

    // Push the address of the next instruction and jump to 'a'.
    fn call(&mut self) -> (r: StepResult)
        requires
            old(self).wf(),
        ensures
            final(self).wf(),
            (final(self)@, r) == old(self)@.call_spec(),
    {
        let a = self.fetch_value(1)?;
        self.stack.push(self.instruction_pointer + 2);
        self.instruction_pointer = a;
        Ok(Event::Continue)
    }

    // Pop the stack and jump there; the stack must not be empty.
    fn ret(&mut self) -> (r: StepResult)
        requires
            old(self).wf(),
        ensures
            final(self).wf(),
            (final(self)@, r) == old(self)@.ret_spec(),
    {
        match self.stack.pop() {
            Some(a) => {
                self.instruction_pointer = a;
                Ok(Event::Continue)
            },
            None => Err(VirtualMachineError::StackUnderflow),
        }
    }

    // Emit the low byte of 'a'.
    fn write(&mut self) -> (r: StepResult)
        requires
            old(self).wf(),
        ensures
            final(self).wf(),
            (final(self)@, r) == old(self)@.out_spec(),
    {
        let a = self.fetch_value(1)?;
        self.instruction_pointer = self.instruction_pointer + 2;
        Ok(Event::Output((a % 256) as u8))
    }

    // Ask for one byte of input, to be stored into register 'a'.
    fn read(&mut self) -> (r: StepResult)
        requires
            old(self).wf(),
        ensures
            final(self).wf(),
            (final(self)@, r) == old(self)@.in_spec(),
    {
        let a = self.fetch_register(1)?;
        self.instruction_pointer = self.instruction_pointer + 2;
        Ok(Event::Input(a))
    }

    // No effect.
    fn noop(&mut self) -> (r: StepResult)
        requires
            old(self).wf(),
            old(self)@.ip < MEMORY_SIZE,
        ensures
            final(self).wf(),
            (final(self)@, r) == old(self)@.noop_spec(),
    {
        self.instruction_pointer = self.instruction_pointer + 1;
        Ok(Event::Continue)
    }

    /// Runs the instruction at the instruction pointer. On failure the
    /// machine is left as it was.
    pub fn step(&mut self) -> (r: StepResult)
        requires
            old(self).wf(),
        ensures
            final(self).wf(),
            (final(self)@, r) == old(self)@.step_spec(),
    {
        self.read_instruction(0)?;
        let opcode = self.memory[self.instruction_pointer as usize];
        if opcode == OP_HALT { self.halt() }
        else if opcode == OP_SET { self.set() }
        else if opcode == OP_PUSH { self.push() }
        else if opcode == OP_POP { self.pop() }
        else if opcode == OP_EQ { self.eq() }
        else if opcode == OP_GT { self.gt() }
        else if opcode == OP_JMP { self.jmp() }
        else if opcode == OP_JT { self.jt() }
        else if opcode == OP_JF { self.jf() }
        else if opcode == OP_ADD { self.add() }
        else if opcode == OP_MULT { self.mult() }
        else if opcode == OP_MOD { self.rem() }
        else if opcode == OP_AND { self.and() }
        else if opcode == OP_OR { self.or() }
        else if opcode == OP_NOT { self.not() }
        else if opcode == OP_RMEM { self.rmem() }
        else if opcode == OP_WMEM { self.wmem() }
        else if opcode == OP_CALL { self.call() }
        else if opcode == OP_RET { self.ret() }
        else if opcode == OP_OUT { self.write() }
        else if opcode == OP_IN { self.read() }
        else if opcode == OP_NOOP { self.noop() }
        else { Err(VirtualMachineError::InvalidOpCode) }
    }

    /// Runs instructions until one of them halts, fails, emits output or asks
    /// for input, and returns that outcome; returns `Ok(Event::Continue)` if
    /// `max_steps` instructions all just continued.
    pub fn execute_program(&mut self, max_steps: u64) -> (r: StepResult)
        requires
            old(self).wf(),
        ensures
            final(self).wf(),
            (final(self)@, r) == old(self)@.run_spec(max_steps as nat),
    {
        let mut done: u64 = 0;
        loop
            invariant
                self.wf(),
                done <= max_steps,
                old(self)@.run_spec(max_steps as nat) == self@.run_spec((max_steps - done) as nat),
            decreases max_steps - done,
        {
            if done == max_steps {
                return Ok(Event::Continue);
            }
            let r = self.step();
            done = done + 1;
            match r {
                Ok(Event::Continue) => {},
                _ => {
                    return r;
                },
            }
        }
    }

    /// Completes an `in` instruction: stores the byte read into the register
    /// that `Event::Input` named.
    pub fn receive_input(&mut self, register: u16, byte: u8)
        requires
            old(self).wf(),
            register < NBR_REGISTERS,
        ensures
            final(self).wf(),
            final(self)@ == old(self)@.with_register(register, byte as u16),
    {
        self.registers[register as usize] = byte as u16;
    }

    /// Writes `program` into memory from address 0 on. The words are not
    /// checked: an invalid one fails only when it is fetched.
    pub fn load_program(&mut self, program: &[u16])
        requires
            old(self).wf(),
            program@.len() <= MEMORY_SIZE,
        ensures
            final(self).wf(),
            final(self)@ == (MachineState {
                memory: program@ + old(self)@.memory.subrange(program@.len() as int, MEMORY_SIZE as int),
                ..old(self)@
            }),
    {
        let mut i: usize = 0;
        while i < program.len()
            invariant
                self.wf(),
                i <= program@.len() <= MEMORY_SIZE,
                self@.registers == old(self)@.registers,
                self@.stack == old(self)@.stack,
                self@.ip == old(self)@.ip,
                forall|j: int| 0 <= j < i ==> self@.memory[j] == program@[j],
                forall|j: int| i <= j < MEMORY_SIZE ==> self@.memory[j] == old(self)@.memory[j],
            decreases program@.len() - i,
        {
            self.memory[i] = program[i];
            i = i + 1;
        }
        assert(self@.memory =~= program@ + old(self)@.memory.subrange(program@.len() as int, MEMORY_SIZE as int));
    }

    /// The content of register `i`.
    pub fn register(&self, i: u16) -> (r: u16)
        requires
            self.wf(),
            i < NBR_REGISTERS,
        ensures
            r == self@.registers[i as int],
    {
        self.registers[i as usize]
    }

    /// The word at address `addr`.
    pub fn memory_at(&self, addr: u16) -> (r: u16)
        requires
            self.wf(),
            addr < MEMORY_SIZE,
        ensures
            r == self@.memory[addr as int],
    {
        self.memory[addr as usize]
    }

    /// The stack, bottom first.
    pub fn stack(&self) -> (r: &[u16])
        ensures
            r@ == self@.stack,
    {
        self.stack.as_slice()
    }

    /// The address of the next word to fetch.
    pub fn instruction_pointer(&self) -> (r: u16)
        ensures
            r == self@.ip,
    {
        self.instruction_pointer
    }
}

/// The program image format: each word stored as two bytes, low byte first.
pub open spec fn le_word(lo: u8, hi: u8) -> u16 {
    (lo + 256 * hi) as u16
}

/// Decodes an image of little-endian words.
pub fn words_from_le_bytes(bytes: &[u8]) -> (r: Vec<u16>)
    requires
        bytes@.len() % 2 == 0,
    ensures
        r@.len() == bytes@.len() / 2,
        forall|i: int|
            0 <= i < r@.len() ==> r@[i] == le_word(bytes@[2 * i], #[trigger] bytes@[2 * i + 1]),
{
    let mut r: Vec<u16> = Vec::new();
    let len: usize = bytes.len();
    let n: usize = len / 2;
    let mut i: usize = 0;
    while i < n
        invariant
            len == bytes@.len(),
            n == len / 2,
            i <= n,
            r@.len() == i,
            forall|j: int| 0 <= j < i ==> r@[j] == le_word(bytes@[2 * j], #[trigger] bytes@[2 * j + 1]),
        decreases n - i,
    {
        assert(2 * i + 1 < len);
        let lo = bytes[2 * i];
        let hi = bytes[2 * i + 1];
        r.push(lo as u16 + 256 * (hi as u16));
        i = i + 1;
    }
    r
}

} // verus!
