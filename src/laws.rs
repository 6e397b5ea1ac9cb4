use vstd::prelude::*;

use crate::error::VirtualMachineError;
use crate::operand::{MODULO, NBR_REGISTERS};
use crate::state::{
    add_value, mult_value, not_value, Event, MachineState, MEMORY_SIZE, OP_ADD, OP_AND, OP_EQ, OP_GT,
    OP_IN, OP_MOD, OP_MULT, OP_NOT, OP_OR, OP_POP, OP_RET, OP_RMEM, OP_SET, OP_WMEM,
};

verus! {

/// `add` and `mult` on plain values are commutative, and their results are
/// always below 32768, whatever the operands.
pub proof fn lemma_add_mult_commutative_and_closed(b: u16, c: u16)
    ensures
        add_value(b, c) == add_value(c, b),
        mult_value(b, c) == mult_value(c, b),
        add_value(b, c) < MODULO,
        mult_value(b, c) < MODULO,
{
    assert(b * c == c * b) by (nonlinear_arith);
}

/// Swapping the two source operands of an `add` or `mult` instruction changes
/// neither its outcome nor the registers and instruction pointer it leaves.
pub proof fn lemma_add_mult_operands_commute(s: MachineState, t: MachineState)
    requires
        s.wf(),
        s.ip + 3 < MEMORY_SIZE,
        s.memory[s.ip as int] == OP_ADD || s.memory[s.ip as int] == OP_MULT,
        t == (MachineState {
            memory: s.memory.update(s.ip + 2, s.memory[s.ip + 3]).update(
                s.ip + 3,
                s.memory[s.ip + 2],
            ),
            ..s
        }),
    ensures
        s.step_spec().1 == t.step_spec().1,
        s.step_spec().0.registers == t.step_spec().0.registers,
        s.step_spec().0.ip == t.step_spec().0.ip,
        s.step_spec().0.stack == t.step_spec().0.stack,
{
    assert(t.fetch(0) == s.fetch(0));
    assert(t.fetch(1) == s.fetch(1));
    assert(t.fetch(2) == s.fetch(3));
    assert(t.fetch(3) == s.fetch(2));
    lemma_add_mult_commutative_and_closed(
        s.fetch_value(2)->Ok_0,
        s.fetch_value(3)->Ok_0,
    );
}

/// The 15-bit complement undoes itself on every value; it maps 0 to 32767
/// and 32767 to 0, and keeps register values below 32768.
pub proof fn lemma_not_involution(v: u16)
    ensures
        not_value(not_value(v)) == v,
        v < MODULO ==> not_value(v) < MODULO,
        not_value(0) == 32767,
        not_value(32767) == 0,
{
    assert((v ^ 0x7fffu16) ^ 0x7fffu16 == v) by (bit_vector);
    assert(v < 32768u16 ==> (v ^ 0x7fffu16) < 32768u16) by (bit_vector);
    assert(0u16 ^ 0x7fffu16 == 32767u16) by (bit_vector);
    assert(32767u16 ^ 0x7fffu16 == 0u16) by (bit_vector);
}

/// `ret`, and `pop` into a register, on an empty stack fail with
/// `StackUnderflow` and leave the machine as it was.
pub proof fn lemma_empty_stack_underflow(s: MachineState)
    requires
        s.wf(),
        s.stack.len() == 0,
        s.ip < MEMORY_SIZE,
        s.memory[s.ip as int] == OP_RET || (s.memory[s.ip as int] == OP_POP && s.fetch(1) is Ok
            && s.fetch(1)->Ok_0 is Register),
    ensures
        s.step_spec() == (s, Err::<Event, VirtualMachineError>(
            VirtualMachineError::StackUnderflow,
        )),
{
}

/// Every instruction that writes a register fails with
/// `ExpectedRegisterOperand` when its destination word is a literal, and
/// leaves the machine as it was.
pub proof fn lemma_literal_destination_rejected(s: MachineState)
    requires
        s.wf(),
        s.ip + 1 < MEMORY_SIZE,
        s.fetch(1) is Ok && s.fetch(1)->Ok_0 is Literal,
        ({
            let op = s.memory[s.ip as int];
            op == OP_SET || op == OP_POP || op == OP_EQ || op == OP_GT || op == OP_ADD || op
                == OP_MULT || op == OP_MOD || op == OP_AND || op == OP_OR || op == OP_NOT || op
                == OP_RMEM || op == OP_IN
        }),
    ensures
        s.step_spec() == (s, Err::<Event, VirtualMachineError>(
            VirtualMachineError::ExpectedRegisterOperand,
        )),
{
}

/// The state after `n` instructions from `s`.
pub open spec fn state_after(s: MachineState, n: nat) -> MachineState
    decreases n,
{
    if n == 0 {
        s
    } else {
        state_after(s.step_spec().0, (n - 1) as nat)
    }
}

/// The next instruction of `s` is a `wmem` to address `a`.
pub open spec fn writes_to(s: MachineState, a: u16) -> bool {
    &&& s.fetch(0) is Ok
    &&& s.memory[s.ip as int] == OP_WMEM
    &&& s.fetch_value(1) == Ok::<u16, VirtualMachineError>(a)
}

/// The next instruction of `s` is an `rmem` from address `a` into register `r`.
pub open spec fn reads_from(s: MachineState, r: u16, a: u16) -> bool {
    &&& s.fetch(0) is Ok
    &&& s.memory[s.ip as int] == OP_RMEM
    &&& s.register_and_value() == Ok::<(u16, u16), VirtualMachineError>((r, a))
}

/// One instruction keeps the shape of the machine.
pub proof fn lemma_step_keeps_wf(s: MachineState)
    requires
        s.wf(),
    ensures
        s.step_spec().0.wf(),
{
}

/// An instruction that is not a `wmem` to `a` leaves memory at `a` as it was.
proof fn lemma_step_keeps_cell(s: MachineState, a: u16)
    requires
        s.wf(),
        a < MEMORY_SIZE,
        !writes_to(s, a),
    ensures
        s.step_spec().0.memory[a as int] == s.memory[a as int],
{
}

/// `n` instructions none of which is a `wmem` to `a` leave memory at `a`
/// as it was.
proof fn lemma_steps_keep_cell(s: MachineState, n: nat, a: u16)
    requires
        s.wf(),
        a < MEMORY_SIZE,
        forall|k: nat| k < n ==> !writes_to(#[trigger] state_after(s, k), a),
    ensures
        state_after(s, n).wf(),
        state_after(s, n).memory[a as int] == s.memory[a as int],
    decreases n,
{
    if n > 0 {
        let t = s.step_spec().0;
        assert(state_after(s, 0) == s);
        lemma_step_keeps_wf(s);
        lemma_step_keeps_cell(s, a);
        assert forall|k: nat| k < (n - 1) as nat implies !writes_to(#[trigger] state_after(t, k), a) by {
            assert(state_after(s, k + 1) == state_after(t, k));
        }
        lemma_steps_keep_cell(t, (n - 1) as nat, a);
        assert(state_after(s, n) == state_after(t, (n - 1) as nat));
    }
}

/// A `wmem` of `v` to address `a`, then any instructions none of which
/// writes `a` again, then an `rmem` from `a` into register `r`: the read
/// gives exactly `v`.
pub proof fn lemma_wmem_rmem_round_trip(s: MachineState, n: nat, a: u16, v: u16, r: u16)
    requires
        s.wf(),
        s.fetch(0) is Ok,
        s.memory[s.ip as int] == OP_WMEM,
        s.two_values() == Ok::<(u16, u16), VirtualMachineError>((a, v)),
        a < MEMORY_SIZE,
        forall|k: nat| 1 <= k <= n ==> !writes_to(#[trigger] state_after(s, k), a),
        reads_from(state_after(s, n + 1), r, a),
    ensures
        state_after(s, n + 1).step_spec().1 == Ok::<Event, VirtualMachineError>(
            Event::Continue,
        ),
        r < NBR_REGISTERS,
        state_after(s, n + 2).registers[r as int] == v,
{
    let t = s.step_spec().0;
    assert(t.memory[a as int] == v);
    lemma_step_keeps_wf(s);
    assert forall|k: nat| k < n implies !writes_to(#[trigger] state_after(t, k), a) by {
        assert(state_after(s, k + 1) == state_after(t, k));
    }
    lemma_steps_keep_cell(t, n, a);
    let u = state_after(s, n + 1);
    assert(u == state_after(t, n));
    assert(state_after(s, n + 2) == state_after(u, 1)) by {
        lemma_state_after_split(s, n + 1, 1);
    }
    assert(state_after(u.step_spec().0, 0) == u.step_spec().0);
    assert(state_after(u, 1) == u.step_spec().0);
    assert(u.wf());
    assert(u.memory[a as int] == v);
    assert(u.step_spec() == u.rmem_spec());
}

/// Running `m + k` instructions is running `m`, then `k`.
proof fn lemma_state_after_split(s: MachineState, m: nat, k: nat)
    ensures
        state_after(s, m + k) == state_after(state_after(s, m), k),
    decreases m,
{
    if m > 0 {
        lemma_state_after_split(s.step_spec().0, (m - 1) as nat, k);
        assert((m + k - 1) as nat == ((m - 1) as nat + k) as nat);
    }
}

} // verus!
