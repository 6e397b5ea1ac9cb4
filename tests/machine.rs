use synacor::{
    words_from_le_bytes, Event, Operand, VirtualMachine, VirtualMachineError, MEMORY_SIZE,
};

/// Loads `words`, runs until halt or failure, feeding `input`; returns the
/// machine, the outcome and the bytes written.
fn run(words: &[u16], input: &[u8]) -> (VirtualMachine, Result<(), VirtualMachineError>, Vec<u8>) {
    let mut vm = VirtualMachine::new();
    vm.load_program(words);
    let mut output = Vec::new();
    let mut pending = input.iter();
    loop {
        match vm.execute_program(10_000) {
            Ok(Event::Continue) => panic!("program did not stop"),
            Ok(Event::Output(b)) => output.push(b),
            Ok(Event::Input(r)) => match pending.next() {
                Some(b) => vm.receive_input(r, *b),
                None => return (vm, Err(VirtualMachineError::InputReadFailure), output),
            },
            Ok(Event::Halted) => return (vm, Ok(()), output),
            Err(e) => return (vm, Err(e), output),
        }
    }
}

#[test]
fn decode_literals_registers_and_invalid_words() {
    assert_eq!(Operand::decode(0), Ok(Operand::Literal(0)));
    assert_eq!(Operand::decode(32767), Ok(Operand::Literal(32767)));
    assert_eq!(Operand::decode(32768), Ok(Operand::Register(0)));
    assert_eq!(Operand::decode(32775), Ok(Operand::Register(7)));
    assert_eq!(Operand::decode(32776), Err(VirtualMachineError::InvalidInstructionValue));
    assert_eq!(Operand::decode(65535), Err(VirtualMachineError::InvalidInstructionValue));
}

#[test]
fn decode_every_word() {
    for w in 0..=u16::MAX {
        let expected = if w < 32768 {
            Ok(Operand::Literal(w))
        } else if w < 32776 {
            Ok(Operand::Register(w - 32768))
        } else {
            Err(VirtualMachineError::InvalidInstructionValue)
        };
        assert_eq!(Operand::decode(w), expected);
    }
}

#[test]
fn register_index_of_literal_fails() {
    assert_eq!(Operand::Register(3).register_index(), Ok(3));
    assert_eq!(
        Operand::Literal(3).register_index(),
        Err(VirtualMachineError::ExpectedRegisterOperand)
    );
}

#[test]
fn new_machine_is_zeroed() {
    let vm = VirtualMachine::new();
    assert_eq!(vm.instruction_pointer(), 0);
    assert!(vm.stack().is_empty());
    for i in 0..8 {
        assert_eq!(vm.register(i), 0);
    }
    assert_eq!(vm.memory_at(0), 0);
    assert_eq!(vm.memory_at(32767), 0);
}

#[test]
fn add_wraps_modulo() {
    let (vm, r, _) = run(&[9, 32768, 32767, 5, 0], &[]);
    assert_eq!(r, Ok(()));
    assert_eq!(vm.register(0), 4);
}

#[test]
fn add_and_mult_commute() {
    for (b, c) in [(32767u16, 5u16), (123, 32000), (0, 7), (32767, 32767)] {
        for op in [9u16, 10] {
            let (vm1, _, _) = run(&[op, 32768, b, c, 0], &[]);
            let (vm2, _, _) = run(&[op, 32768, c, b, 0], &[]);
            assert_eq!(vm1.register(0), vm2.register(0));
            assert!(vm1.register(0) < 32768);
        }
    }
}

#[test]
fn add_of_large_register_values_stays_in_range() {
    // rmem loads 65535 into r1 and r2, add r0 = r1 + r2.
    let (vm, r, _) = run(&[15, 32769, 20, 15, 32770, 20, 9, 32768, 32769, 32770, 0, 0, 0, 0, 0, 0, 0, 0, 0, 0, 65535], &[]);
    assert_eq!(r, Ok(()));
    assert_eq!(vm.register(0), (65535u32 * 2 % 32768) as u16);
    assert_eq!(vm.register(0), 32766);
}

#[test]
fn mult_wraps_modulo() {
    let (vm, r, _) = run(&[10, 32768, 200, 300, 0], &[]);
    assert_eq!(r, Ok(()));
    assert_eq!(vm.register(0), (200 * 300 % 32768) as u16);
    assert_eq!(vm.register(0), 27232);
}

#[test]
fn not_is_fifteen_bit_complement() {
    let (vm, r, _) = run(&[14, 32768, 0, 14, 32769, 32767, 0], &[]);
    assert_eq!(r, Ok(()));
    assert_eq!(vm.register(0), 32767);
    assert_eq!(vm.register(1), 0);
}

#[test]
fn not_twice_gives_back_value() {
    for v in [0u16, 1, 12345, 32767] {
        let (vm, r, _) = run(&[14, 32768, v, 14, 32769, 32768, 0], &[]);
        assert_eq!(r, Ok(()));
        assert_eq!(vm.register(1), v);
    }
}

#[test]
fn pop_on_empty_stack_underflows_without_change() {
    let mut vm = VirtualMachine::new();
    vm.load_program(&[3, 32770]);
    assert_eq!(vm.step(), Err(VirtualMachineError::StackUnderflow));
    assert_eq!(vm.instruction_pointer(), 0);
    for i in 0..8 {
        assert_eq!(vm.register(i), 0);
    }
}

#[test]
fn ret_on_empty_stack_underflows_without_change() {
    let mut vm = VirtualMachine::new();
    vm.load_program(&[1, 32768, 42, 18]);
    assert_eq!(vm.step(), Ok(Event::Continue));
    assert_eq!(vm.instruction_pointer(), 3);
    assert_eq!(vm.step(), Err(VirtualMachineError::StackUnderflow));
    assert_eq!(vm.instruction_pointer(), 3);
    assert_eq!(vm.register(0), 42);
}

#[test]
fn literal_destination_is_rejected() {
    for op in [1u16, 3, 4, 5, 9, 10, 11, 12, 13, 14, 15, 20] {
        let mut vm = VirtualMachine::new();
        vm.load_program(&[2, 7, op, 5, 1, 1]);
        assert_eq!(vm.step(), Ok(Event::Continue));
        assert_eq!(vm.step(), Err(VirtualMachineError::ExpectedRegisterOperand));
        assert_eq!(vm.instruction_pointer(), 2);
        assert_eq!(vm.stack(), &[7]);
        for i in 0..8 {
            assert_eq!(vm.register(i), 0);
        }
    }
}

#[test]
fn scenario_add_then_noop() {
    let (vm, r, out) = run(&[9, 32768, 4, 5, 21], &[]);
    assert_eq!(r, Ok(()));
    assert_eq!(vm.register(0), 9);
    assert!(out.is_empty());
}

#[test]
fn scenario_out_then_halt() {
    let (_, r, out) = run(&[19, 65, 0], &[]);
    assert_eq!(r, Ok(()));
    assert_eq!(out, vec![65u8]);
}

#[test]
fn scenario_push_pop_round_trip() {
    let mut vm = VirtualMachine::new();
    vm.load_program(&[2, 32768, 3, 32768, 0]);
    assert_eq!(vm.step(), Ok(Event::Continue));
    assert_eq!(vm.stack(), &[0]);
    assert_eq!(vm.step(), Ok(Event::Continue));
    assert_eq!(vm.register(0), 0);
    assert!(vm.stack().is_empty());
    assert_eq!(vm.step(), Ok(Event::Halted));
}

#[test]
fn push_pop_moves_value_between_registers() {
    let (vm, r, _) = run(&[1, 32768, 77, 2, 32768, 3, 32769, 0], &[]);
    assert_eq!(r, Ok(()));
    assert_eq!(vm.register(1), 77);
    assert!(vm.stack().is_empty());
}

#[test]
fn wmem_then_rmem_reads_last_write() {
    // wmem 500 <- 11; wmem 500 <- 22; noop; rmem r3 <- [500]; halt
    let (vm, r, _) = run(&[16, 500, 11, 16, 500, 22, 21, 15, 32771, 500, 0], &[]);
    assert_eq!(r, Ok(()));
    assert_eq!(vm.register(3), 22);
    assert_eq!(vm.memory_at(500), 22);
}

#[test]
fn wmem_through_registers() {
    // set r0 600; set r1 9; wmem [r0] <- r1; rmem r2 <- [600]; halt
    let (vm, r, _) = run(&[1, 32768, 600, 1, 32769, 9, 16, 32768, 32769, 15, 32770, 600, 0], &[]);
    assert_eq!(r, Ok(()));
    assert_eq!(vm.register(2), 9);
}

#[test]
fn eq_and_gt_set_flags() {
    let (vm, r, _) = run(
        &[4, 32768, 3, 3, 4, 32769, 3, 4, 5, 32770, 4, 3, 5, 32771, 3, 4, 0],
        &[],
    );
    assert_eq!(r, Ok(()));
    assert_eq!(vm.register(0), 1);
    assert_eq!(vm.register(1), 0);
    assert_eq!(vm.register(2), 1);
    assert_eq!(vm.register(3), 0);
}

#[test]
fn and_or_mod() {
    let (vm, r, _) = run(&[12, 32768, 12, 10, 13, 32769, 12, 10, 11, 32770, 17, 5, 0], &[]);
    assert_eq!(r, Ok(()));
    assert_eq!(vm.register(0), 8);
    assert_eq!(vm.register(1), 14);
    assert_eq!(vm.register(2), 2);
}

#[test]
fn mod_by_zero_fails() {
    let (vm, r, _) = run(&[11, 32768, 17, 0, 0], &[]);
    assert_eq!(r, Err(VirtualMachineError::DivisionByZero));
    assert_eq!(vm.instruction_pointer(), 0);
}

#[test]
fn jumps() {
    // jmp 3; (halt); jt 1 -> 7; (halt); jf 0 -> 11; (halt); jt 0 -> 0; out 'x'; halt
    let (_, r, out) = run(&[6, 3, 0, 7, 1, 7, 0, 8, 0, 11, 0, 7, 0, 0, 19, 120, 0], &[]);
    assert_eq!(r, Ok(()));
    assert_eq!(out, vec![120u8]);
}

#[test]
fn call_and_ret() {
    // call 5; out 'b'; halt; (pad); out 'a'; ret
    let (_, r, out) = run(&[17, 5, 19, 98, 0, 19, 97, 18], &[]);
    assert_eq!(r, Ok(()));
    assert_eq!(out, b"ab".to_vec());
}

#[test]
fn call_pushes_return_address() {
    let mut vm = VirtualMachine::new();
    vm.load_program(&[21, 17, 40]);
    assert_eq!(vm.step(), Ok(Event::Continue));
    assert_eq!(vm.step(), Ok(Event::Continue));
    assert_eq!(vm.stack(), &[3]);
    assert_eq!(vm.instruction_pointer(), 40);
}

#[test]
fn out_emits_low_byte() {
    let (_, r, out) = run(&[1, 32768, 32767, 19, 32768, 0], &[]);
    assert_eq!(r, Ok(()));
    assert_eq!(out, vec![255u8]);
}

#[test]
fn in_stores_input_byte() {
    let (vm, r, out) = run(&[20, 32769, 20, 32770, 19, 32770, 0], b"hi");
    assert_eq!(r, Ok(()));
    assert_eq!(vm.register(1), 104);
    assert_eq!(vm.register(2), 105);
    assert_eq!(out, vec![105u8]);
}

#[test]
fn in_without_input_reports_read_failure() {
    let (_, r, _) = run(&[20, 32768, 0], &[]);
    assert_eq!(r, Err(VirtualMachineError::InputReadFailure));
}

#[test]
fn invalid_opcode_fails() {
    let (vm, r, _) = run(&[22], &[]);
    assert_eq!(r, Err(VirtualMachineError::InvalidOpCode));
    assert_eq!(vm.instruction_pointer(), 0);
    let (_, r, _) = run(&[32768], &[]);
    assert_eq!(r, Err(VirtualMachineError::InvalidOpCode));
}

#[test]
fn invalid_word_fails() {
    let (_, r, _) = run(&[40000], &[]);
    assert_eq!(r, Err(VirtualMachineError::InvalidInstructionValue));
    let (_, r, _) = run(&[1, 32768, 32776, 0], &[]);
    assert_eq!(r, Err(VirtualMachineError::InvalidInstructionValue));
}

#[test]
fn addresses_outside_memory_fail() {
    // rmem from 40000 (taken from memory through r1)
    let (_, r, _) = run(&[15, 32769, 6, 15, 32768, 32769, 40000], &[]);
    assert_eq!(r, Err(VirtualMachineError::InvalidAddress));
    let (_, r, _) = run(&[16, 32768, 1, 0], &[]);
    assert_eq!(r, Ok(()));
    // jump to 32767 whose operand would lie past the end of memory
    let mut vm = VirtualMachine::new();
    vm.load_program(&[6, 32767]);
    assert_eq!(vm.step(), Ok(Event::Continue));
    assert_eq!(vm.instruction_pointer(), 32767);
    assert_eq!(vm.step(), Ok(Event::Halted));
    assert_eq!(vm.instruction_pointer(), 32768);
    assert_eq!(vm.step(), Err(VirtualMachineError::InvalidAddress));
}

#[test]
fn execute_program_stops_after_budget() {
    let mut vm = VirtualMachine::new();
    vm.load_program(&[6, 0]);
    assert_eq!(vm.execute_program(1000), Ok(Event::Continue));
    assert_eq!(vm.instruction_pointer(), 0);
    assert_eq!(vm.execute_program(0), Ok(Event::Continue));
}

#[test]
fn load_program_keeps_rest_of_memory() {
    let mut vm = VirtualMachine::new();
    vm.load_program(&[1, 2, 3, 4]);
    vm.load_program(&[9, 8]);
    assert_eq!(vm.memory_at(0), 9);
    assert_eq!(vm.memory_at(1), 8);
    assert_eq!(vm.memory_at(2), 3);
    assert_eq!(vm.memory_at(3), 4);
    assert_eq!(vm.memory_at(4), 0);
    let full = vec![7u16; MEMORY_SIZE];
    vm.load_program(&full);
    assert_eq!(vm.memory_at(32767), 7);
}

#[test]
fn image_bytes_are_little_endian() {
    let words = words_from_le_bytes(&[9, 0, 0, 128, 1, 128, 4, 0, 21, 0, 0x34, 0x12]);
    assert_eq!(words, vec![9, 32768, 32769, 4, 21, 0x1234]);
    assert!(words_from_le_bytes(&[]).is_empty());
}
