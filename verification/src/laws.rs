//! Properties of the stepping engine, proved once over its model: a
//! forward step that moves the program counter is reversible, each wired
//! opcode does exactly what it says, an unknown opcode is a pure advance,
//! and the unwired members of the PUSH family are dispatched as unknown.

use vstd::prelude::*;

use crate::evm::EvmModel;
use crate::evm::known_opcode;
use crate::evm::model_wf;
use crate::evm::op_is;
use crate::evm::opcode_at;
use crate::evm::opcode_effect;
use crate::evm::payload_width;
use crate::evm::step_left;
use crate::evm::step_right;
use crate::stack::LogEntry;

verus! {

/// Does executing `op` on a stack holding `values` record a journal entry?
/// Pushes always do; a pop does unless the stack is empty (the failure is
/// swallowed and nothing is journalled).
pub open spec fn opcode_mutates_stack(op: Seq<char>, values: Seq<Seq<char>>) -> bool {
    ||| op_is(op, '5', 'f')
    ||| op_is(op, '6', '3')
    ||| op_is(op, '7', '3')
    ||| (op_is(op, '5', '0') && values.len() > 0)
}

/// Round-trip: whenever a forward step changes the program counter, the
/// following backward step restores the counter and the history exactly;
/// and when the executed opcode mutated the operand stack, that mutation
/// is also reversed, so the whole state returns to what it was.
pub proof fn lemma_round_trip(m: EvmModel)
    requires
        model_wf(m),
        step_right(m).pc != m.pc,
    ensures
        step_left(step_right(m)).pc == m.pc,
        step_left(step_right(m)).trail == m.trail,
        step_left(step_right(m)).code == m.code,
        opcode_mutates_stack(opcode_at(m), m.stack_values) ==> step_left(step_right(m)) == m,
{
    let r = step_right(m);
    let b = step_left(r);
    assert(r.trail == m.trail.push(m.pc));
    assert(b.pc == m.pc);
    assert(b.trail =~= m.trail);
    if opcode_mutates_stack(opcode_at(m), m.stack_values) {
        assert(b.stack_values =~= m.stack_values);
        assert(b.stack_log =~= m.stack_log);
        assert(b =~= m);
    }
}

/// PUSH0 (`5f`), away from the clamp boundary: the counter advances by 2,
/// the literal `"0"` is pushed, and the step is recorded in the history.
pub proof fn lemma_push0_step(m: EvmModel)
    requires
        model_wf(m),
        op_is(opcode_at(m), '5', 'f'),
        m.pc + 4 <= m.code.len(),
    ensures
        step_right(m).pc == m.pc + 2,
        step_right(m).stack_values == m.stack_values.push(seq!['0']),
        step_right(m).stack_log == m.stack_log.push(LogEntry::Pushed),
        step_right(m).trail == m.trail.push(m.pc),
{
}

/// PUSH20 (`73`), away from the clamp boundary: the 40 hex characters
/// after the opcode are consumed verbatim as the pushed value and the
/// counter advances by 42.
pub proof fn lemma_push20_step(m: EvmModel)
    requires
        model_wf(m),
        op_is(opcode_at(m), '7', '3'),
        m.pc + 44 <= m.code.len(),
    ensures
        step_right(m).pc == m.pc + 42,
        step_right(m).stack_values == m.stack_values.push(
            m.code.subrange(m.pc as int + 2, m.pc as int + 42),
        ),
        step_right(m).stack_log == m.stack_log.push(LogEntry::Pushed),
        step_right(m).trail == m.trail.push(m.pc),
{
}

/// POP (`50`) on a non-empty stack, away from the clamp boundary: the top
/// value is removed and the counter advances by 2.
pub proof fn lemma_pop_step(m: EvmModel)
    requires
        model_wf(m),
        op_is(opcode_at(m), '5', '0'),
        m.stack_values.len() > 0,
        m.pc + 4 <= m.code.len(),
    ensures
        step_right(m).pc == m.pc + 2,
        step_right(m).stack_values == m.stack_values.drop_last(),
        step_right(m).stack_log == m.stack_log.push(LogEntry::Popped(m.stack_values.last())),
        step_right(m).trail == m.trail.push(m.pc),
{
}

/// An unknown opcode, away from the clamp boundary, is a pure advance by
/// 2: no stack mutation and no journal entry.
pub proof fn lemma_unknown_opcode_step(m: EvmModel)
    requires
        model_wf(m),
        !known_opcode(opcode_at(m)),
        m.pc + 4 <= m.code.len(),
    ensures
        step_right(m).pc == m.pc + 2,
        step_right(m).stack_values == m.stack_values,
        step_right(m).stack_log == m.stack_log,
        step_right(m).trail == m.trail.push(m.pc),
{
}

/// A backward step with an empty history is a no-op: counter, history and
/// stack are all unchanged.
pub proof fn lemma_backward_no_history(m: EvmModel)
    requires
        m.trail.len() == 0,
    ensures
        step_left(m) == m,
{
}

/// Pinned at the clamp boundary: a forward step on a zero-payload opcode
/// at the last instruction re-executes the opcode's side effect on every
/// call, yet leaves the counter where it is and does not grow the history.
pub proof fn lemma_clamp_pinned(m: EvmModel)
    requires
        model_wf(m),
        m.pc + 2 == m.code.len(),
        payload_width(opcode_at(m)) == 0,
    ensures
        step_right(m).pc == m.pc,
        step_right(m).trail == m.trail,
        (step_right(m).stack_values, step_right(m).stack_log) == opcode_effect(
            opcode_at(m),
            Seq::<char>::empty(),
            m.stack_values,
            m.stack_log,
        ),
{
    assert(m.code.subrange(m.pc as int + 2, m.pc as int + 2) =~= Seq::<char>::empty());
}

/// Over a bytecode of whole bytes, the program counter and every history
/// entry always select a whole instruction: they stay multiples of the
/// two-character instruction width.
pub open spec fn aligned(m: EvmModel) -> bool {
    &&& m.code.len() % 2 == 0
    &&& m.pc % 2 == 0
    &&& (forall|i: int| 0 <= i < m.trail.len() ==> #[trigger] m.trail[i] % 2 == 0)
}

/// Stepping in either direction keeps the counter and the history aligned
/// to instruction boundaries.
pub proof fn lemma_step_keeps_alignment(m: EvmModel)
    requires
        model_wf(m),
        aligned(m),
    ensures
        aligned(step_right(m)),
        aligned(step_left(m)),
{
    let r = step_right(m);
    assert(payload_width(opcode_at(m)) % 2 == 0);
    assert(r.pc % 2 == 0);
    assert forall|i: int| 0 <= i < r.trail.len() implies #[trigger] r.trail[i] % 2 == 0 by {
        if i < m.trail.len() {
            assert(r.trail[i] == m.trail[i]);
        }
    }
    let b = step_left(m);
    assert forall|i: int| 0 <= i < b.trail.len() implies #[trigger] b.trail[i] % 2 == 0 by {
        assert(b.trail[i] == m.trail[i]);
    }
}

/// Is `c` a lowercase hexadecimal digit?
pub open spec fn hex_digit(c: char) -> bool {
    ('0' <= c && c <= '9') || ('a' <= c && c <= 'f')
}

/// Dispatch completeness: every opcode byte of the PUSH family (`60`
/// through `7f`) other than PUSH4 (`63`) and PUSH20 (`73`) is treated by
/// the dispatcher as unknown — zero payload and no effect on the stack —
/// even though a named handler for it exists in the capability set.
pub proof fn lemma_push_family_unwired(
    a: char,
    b: char,
    payload: Seq<char>,
    values: Seq<Seq<char>>,
    log: Seq<LogEntry>,
)
    requires
        a == '6' || a == '7',
        hex_digit(b),
        !(a == '6' && b == '3'),
        !(a == '7' && b == '3'),
    ensures
        payload_width(seq![a, b]) == 0,
        !known_opcode(seq![a, b]),
        opcode_effect(seq![a, b], payload, values, log) == (values, log),
{
}

} // verus!
