//! The execution engine: an EVM that owns an immutable hex bytecode string,
//! a program counter, a history of prior counters, and the four collaborator
//! containers, and exposes a single bidirectional `step` operation
//! (`update_program_counter`).
//!
//! Each instruction is one opcode byte (two hex characters), possibly
//! followed by an immediate operand taken verbatim from the bytecode. A
//! forward step executes the opcode's side effect, then advances the
//! counter, clamped so that it always points at a whole instruction; a
//! backward step restores the previous counter and undoes the operand
//! stack's most recent mutation.

use vstd::prelude::*;

use crate::calldata::Calldata;
use crate::memory::Memory;
use crate::stack::LogEntry;
use crate::stack::Stack;
use crate::stack::stack_pop_effect;
use crate::stack::stack_push_effect;
use crate::stack::stack_undo_effect;
use crate::stack::undo_need;
use crate::storage::Storage;

verus! {

/// Which way a step goes: `Left` rewinds, `Right` executes forward.
pub enum ExecutionTrail {
    Left,
    Right,
}

/// Faults surfaced while decoding an instruction.
#[derive(Clone, Copy, Debug, PartialEq, Eq, Structural)]
pub enum EvmError {
    /// An opcode's declared operand extends past the end of the bytecode.
    TruncatedOperand,
}

/// The engine's state as contracts see it: the bytecode's characters, the
/// program counter, the visited-counter history (oldest first), and the
/// operand stack's values and undo journal.
#[verifier::ext_equal]
pub struct EvmModel {
    pub code: Seq<char>,
    pub pc: nat,
    pub trail: Seq<nat>,
    pub stack_values: Seq<Seq<char>>,
    pub stack_log: Seq<LogEntry>,
}

/// Is `op` exactly the two characters `a`, `b`?
pub open spec fn op_is(op: Seq<char>, a: char, b: char) -> bool {
    op.len() == 2 && op[0] == a && op[1] == b
}

/// The opcodes the dispatcher matches on; every other opcode byte is a
/// silent zero-payload no-op.
pub open spec fn known_opcode(op: Seq<char>) -> bool {
    ||| op_is(op, '3', '5')  // CALLDATALOAD
    ||| op_is(op, '5', '0')  // POP
    ||| op_is(op, '5', 'f')  // PUSH0
    ||| op_is(op, '6', '3')  // PUSH4
    ||| op_is(op, '7', '3')  // PUSH20
}

/// How many hex characters of immediate operand follow the opcode. Only
/// PUSH4 and PUSH20 are wired into the dispatch table; everything else,
/// including the rest of the PUSH family, consumes no operand.
pub open spec fn payload_width(op: Seq<char>) -> nat {
    if op_is(op, '6', '3') {
        8
    } else if op_is(op, '7', '3') {
        40
    } else {
        0
    }
}

/// What executing `op` with immediate operand `payload` does to the operand
/// stack's values and journal.
pub open spec fn opcode_effect(
    op: Seq<char>,
    payload: Seq<char>,
    values: Seq<Seq<char>>,
    log: Seq<LogEntry>,
) -> (Seq<Seq<char>>, Seq<LogEntry>) {
    if op_is(op, '5', '0') {
        stack_pop_effect(values, log)
    } else if op_is(op, '5', 'f') {
        stack_push_effect(values, log, seq!['0'])
    } else if op_is(op, '6', '3') || op_is(op, '7', '3') {
        stack_push_effect(values, log, payload)
    } else {
        (values, log)
    }
}

/// The two-character opcode selected by the model's program counter.
pub open spec fn opcode_at(m: EvmModel) -> Seq<char> {
    m.code.subrange(m.pc as int, m.pc as int + 2)
}

/// The engine's invariant: the bytecode holds at least one instruction, the
/// program counter and every history entry select a whole instruction, and
/// the stack's journal can be undone.
pub open spec fn model_wf(m: EvmModel) -> bool {
    &&& m.code.len() >= 2
    &&& m.pc + 2 <= m.code.len()
    &&& (forall|i: int| 0 <= i < m.trail.len() ==> #[trigger] m.trail[i] + 2 <= m.code.len())
    &&& undo_need(m.stack_log) <= m.stack_values.len()
}

/// One forward step. The opcode's side effect runs first; the candidate
/// next counter is then clamped to the last instruction, and the counter
/// and history move only if the candidate differs from the current counter.
/// An operand that would extend past the end of the bytecode is a decoding
/// fault: the whole step is then a no-op.
pub open spec fn step_right(m: EvmModel) -> EvmModel {
    let op = opcode_at(m);
    let w = payload_width(op);
    if m.pc + 2 + w > m.code.len() {
        m
    } else {
        let effect = opcode_effect(
            op,
            m.code.subrange(m.pc as int + 2, m.pc as int + 2 + w),
            m.stack_values,
            m.stack_log,
        );
        let limit = m.code.len() - 2;
        let cand = if m.pc + 2 + w > limit {
            limit as nat
        } else {
            (m.pc + 2 + w) as nat
        };
        EvmModel {
            code: m.code,
            pc: cand,
            trail: if cand == m.pc {
                m.trail
            } else {
                m.trail.push(m.pc)
            },
            stack_values: effect.0,
            stack_log: effect.1,
        }
    }
}

/// One backward step: with a non-empty history, undo the stack's most
/// recent mutation and return to the last recorded counter; with an empty
/// history, change nothing.
pub open spec fn step_left(m: EvmModel) -> EvmModel {
    if m.trail.len() == 0 {
        m
    } else {
        let effect = stack_undo_effect(m.stack_values, m.stack_log);
        EvmModel {
            code: m.code,
            pc: m.trail.last(),
            trail: m.trail.drop_last(),
            stack_values: effect.0,
            stack_log: effect.1,
        }
    }
}

/// Everything an opcode handler leaves alone: only the operand stack may
/// differ between `pre` and `post`.
pub open spec fn only_stack_differs(pre: EVM, post: EVM) -> bool {
    &&& post.bytecode@ == pre.bytecode@
    &&& post.program_counter == pre.program_counter
    &&& post.command_length == pre.command_length
    &&& post.pc_history@ == pre.pc_history@
    &&& post.memory@ == pre.memory@
    &&& post.calldata@ == pre.calldata@
    &&& post.storage@ == pre.storage@
}

/// The stepping engine.
#[derive(Debug)]
pub struct EVM {
    pub bytecode: String,
    pub program_counter: usize,
    pub command_length: usize,
    pub pc_history: Vec<usize>,
    pub stack: Stack,
    pub memory: Memory,
    pub calldata: Calldata,
    pub storage: Storage,
}

impl View for EVM {
    type V = EvmModel;

    open spec fn view(&self) -> EvmModel {
        EvmModel {
            code: self.bytecode@,
            pc: self.program_counter as nat,
            trail: self.pc_history@.map_values(|x: usize| x as nat),
            stack_values: self.stack.values(),
            stack_log: self.stack.log(),
        }
    }
}

impl EVM {
    /// The engine's invariant; every stepping operation preserves it.
    pub open spec fn wf(&self) -> bool {
        model_wf(self@) && self.command_length == 2
    }

    /// An engine over `bytecode` with every collaborator defaulted.
    pub fn default(bytecode: String) -> (r: EVM)
        ensures
            r@.code == bytecode@,
            r@.pc == 0,
            r@.trail == Seq::<nat>::empty(),
            r@.stack_values == Seq::<Seq<char>>::empty(),
            r@.stack_log == Seq::<LogEntry>::empty(),
            r.memory@ == Seq::<u8>::empty(),
            r.calldata@ == Seq::<u8>::empty(),
            r.storage@ == Seq::<(Seq<char>, Seq<char>)>::empty(),
            bytecode@.len() >= 2 ==> r.wf(),
    {
        let r = EVM {
            bytecode,
            command_length: 2,
            program_counter: 0,
            pc_history: Vec::new(),
            stack: Stack::new(),
            memory: Memory::new(),
            calldata: Calldata::default(),
            storage: Storage::default(),
        };
        proof {
            assert(r@.trail =~= Seq::<nat>::empty());
        }
        r
    }

    /// An engine over `bytecode` with the given call data and, where
    /// supplied, the given collaborators; the rest are defaulted.
    pub fn new(
        bytecode: String,
        calldata: Calldata,
        memory: Option<Memory>,
        storage: Option<Storage>,
        stack: Option<Stack>,
    ) -> (r: EVM)
        ensures
            r@.code == bytecode@,
            r@.pc == 0,
            r@.trail == Seq::<nat>::empty(),
            r.calldata@ == calldata@,
            (match memory {
                Some(m) => r.memory@ == m@,
                None => r.memory@ == Seq::<u8>::empty(),
            }),
            (match storage {
                Some(s) => r.storage@ == s@,
                None => r.storage@ == Seq::<(Seq<char>, Seq<char>)>::empty(),
            }),
            (match stack {
                Some(s) => r@.stack_values == s.values() && r@.stack_log == s.log(),
                None => r@.stack_values == Seq::<Seq<char>>::empty() && r@.stack_log
                    == Seq::<LogEntry>::empty(),
            }),
            bytecode@.len() >= 2 && (stack matches Some(s) ==> s.wf()) ==> r.wf(),
    {
        let defined_memory: Memory;
        let defined_storage: Storage;
        let defined_stack: Stack;

        match memory {
            Some(value) => {
                defined_memory = value;
            },
            None => {
                defined_memory = Memory::new();
            },
        }

        match storage {
            Some(value) => {
                defined_storage = value;
            },
            None => {
                defined_storage = Storage::default();
            },
        }

        match stack {
            Some(value) => {
                defined_stack = value;
            },
            None => {
                defined_stack = Stack::new();
            },
        }

        let r = EVM {
            bytecode,
            calldata,
            command_length: 2,
            program_counter: 0,
            pc_history: Vec::new(),
            memory: defined_memory,
            storage: defined_storage,
            stack: defined_stack,
        };
        proof {
            assert(r@.trail =~= Seq::<nat>::empty());
        }
        r
    }

    pub fn get_bytecode(&self) -> (r: &String)
        ensures
            r@ == self@.code,
    {
        &self.bytecode
    }

    pub fn get_program_counter(&self) -> (r: usize)
        ensures
            r as nat == self@.pc,
    {
        self.program_counter
    }

    pub fn get_command_length(&self) -> (r: usize)
        ensures
            self.wf() ==> r == 2,
    {
        self.command_length
    }

    /// One step of the engine: `Right` decodes and executes the
    /// instruction at the current program counter and advances it, `Left`
    /// rewinds to the previously visited counter and undoes the operand
    /// stack's most recent mutation. The whole behavior, including the
    /// clamp at the last instruction and the swallowed collaborator
    /// failures, is `step_right` / `step_left` on the engine's model.
    pub fn update_program_counter(&mut self, command: ExecutionTrail)
        requires
            old(self).wf(),
        ensures
            final(self).wf(),
            final(self).memory@ == old(self).memory@,
            final(self).calldata@ == old(self).calldata@,
            final(self).storage@ == old(self).storage@,
            command is Left ==> final(self)@ == step_left(old(self)@),
            command is Right ==> final(self)@ == step_right(old(self)@),
    {
        let n = self.bytecode.as_str().unicode_len();
        let pc = self.program_counter;
        let current_opcode = self.bytecode.as_str().substring_char(
            pc,
            pc + self.command_length,
        ).to_owned();

        match command {
            ExecutionTrail::Left => {
                if self.pc_history.len() > 0 {
                    let _ = self.stack.undo();
                    if let Some(value) = self.pc_history.pop() {
                        self.program_counter = value;
                    }
                    proof {
                        assert(self@.trail =~= old(self)@.trail.drop_last());
                        assert(self@.pc == old(self)@.trail.last());
                        assert(self@ =~= step_left(old(self)@));
                        assert forall|k: int| 0 <= k < self@.trail.len() implies #[trigger] self@
                            .trail[k] + 2 <= self@.code.len() by {
                            assert(self@.trail[k] == old(self)@.trail[k]);
                        }
                    }
                } else {
                    proof {
                        assert(self@.trail =~= Seq::<nat>::empty());
                        assert(self@ =~= step_left(old(self)@));
                    }
                }
            },
            ExecutionTrail::Right => {
                let res = self.execute_opcode(current_opcode.as_str());
                match res {
                    Ok(payload_size) => {
                        proof {
                            assert(current_opcode@ == opcode_at(old(self)@));
                        }
                        let mut pc_cache = self.program_counter + self.command_length
                            + payload_size;
                        let limit = n - self.command_length;
                        if pc_cache > limit {
                            pc_cache = limit;
                        }
                        if self.program_counter != pc_cache {
                            self.pc_history.push(self.program_counter);
                            self.program_counter = pc_cache;
                            proof {
                                assert(self@.trail =~= old(self)@.trail.push(old(self)@.pc));
                                assert(self@ =~= step_right(old(self)@));
                                assert forall|k: int| 0 <= k < self@.trail.len() implies #[trigger]
                                    self@.trail[k] + 2 <= self@.code.len() by {
                                    if k < old(self)@.trail.len() {
                                        assert(self@.trail[k] == old(self)@.trail[k]);
                                    } else {
                                        assert(self@.trail[k] == old(self)@.pc);
                                    }
                                }
                            }
                        } else {
                            proof {
                                assert(self@ =~= step_right(old(self)@));
                                assert forall|k: int| 0 <= k < self@.trail.len() implies #[trigger]
                                    self@.trail[k] + 2 <= self@.code.len() by {
                                    assert(self@.trail[k] == old(self)@.trail[k]);
                                }
                            }
                        }
                    },
                    Err(_) => {
                        proof {
                            assert(current_opcode@ == opcode_at(old(self)@));
                            assert(self@ =~= step_right(old(self)@));
                            assert forall|k: int| 0 <= k < self@.trail.len() implies #[trigger]
                                self@.trail[k] + 2 <= self@.code.len() by {
                                assert(self@.trail[k] == old(self)@.trail[k]);
                            }
                        }
                    },
                }
            },
        }
    }
}


impl EVM {
    /// CALLDATALOAD: declared as a no-op stub; it reads nothing and pushes
    /// nothing, and must stay that way unless the capability set is
    /// extended.
    #[allow(non_snake_case)]
    pub fn CALLDATALOAD(&mut self)
        ensures
            *final(self) == *old(self),
    {
    }

    /// POP: remove the top stack value; on an empty stack the failure is
    /// swallowed and nothing changes.
    #[allow(non_snake_case)]
    pub fn POP(&mut self)
        requires
            old(self).stack.wf(),
        ensures
            final(self).stack.wf(),
            only_stack_differs(*old(self), *final(self)),
            (final(self).stack.values(), final(self).stack.log()) == stack_pop_effect(
                old(self).stack.values(),
                old(self).stack.log(),
            ),
    {
        let _ = self.stack.pop();
    }

    /// PUSH0: push the literal `"0"`.
    #[allow(non_snake_case)]
    pub fn PUSH0(&mut self)
        requires
            old(self).stack.wf(),
        ensures
            final(self).stack.wf(),
            only_stack_differs(*old(self), *final(self)),
            (final(self).stack.values(), final(self).stack.log()) == stack_push_effect(
                old(self).stack.values(),
                old(self).stack.log(),
                seq!['0'],
            ),
    {
        proof {
            reveal_strlit("0");
            assert(("0")@ =~= seq!['0']);
        }
        let _ = self.stack.push("0");
    }

    /// PUSH1: push a 1-byte literal taken verbatim from the bytecode
    /// (a named handler, not reachable from the dispatcher).
    #[allow(non_snake_case)]
    pub fn PUSH1(&mut self, value: &str)
        requires
            old(self).stack.wf(),
        ensures
            final(self).stack.wf(),
            only_stack_differs(*old(self), *final(self)),
            (final(self).stack.values(), final(self).stack.log()) == stack_push_effect(
                old(self).stack.values(),
                old(self).stack.log(),
                value@,
            ),
    {
        let _ = self.stack.push(value);
    }

    /// PUSH2: push a 2-byte literal taken verbatim from the bytecode
    /// (a named handler, not reachable from the dispatcher).
    #[allow(non_snake_case)]
    pub fn PUSH2(&mut self, value: &str)
        requires
            old(self).stack.wf(),
        ensures
            final(self).stack.wf(),
            only_stack_differs(*old(self), *final(self)),
            (final(self).stack.values(), final(self).stack.log()) == stack_push_effect(
                old(self).stack.values(),
                old(self).stack.log(),
                value@,
            ),
    {
        let _ = self.stack.push(value);
    }

    /// PUSH3: push a 3-byte literal taken verbatim from the bytecode
    /// (a named handler, not reachable from the dispatcher).
    #[allow(non_snake_case)]
    pub fn PUSH3(&mut self, value: &str)
        requires
            old(self).stack.wf(),
        ensures
            final(self).stack.wf(),
            only_stack_differs(*old(self), *final(self)),
            (final(self).stack.values(), final(self).stack.log()) == stack_push_effect(
                old(self).stack.values(),
                old(self).stack.log(),
                value@,
            ),
    {
        let _ = self.stack.push(value);
    }

    /// PUSH4: push a 4-byte literal taken verbatim from the bytecode
    /// (wired to opcode `63` in the dispatcher).
    #[allow(non_snake_case)]
    pub fn PUSH4(&mut self, value: &str)
        requires
            old(self).stack.wf(),
        ensures
            final(self).stack.wf(),
            only_stack_differs(*old(self), *final(self)),
            (final(self).stack.values(), final(self).stack.log()) == stack_push_effect(
                old(self).stack.values(),
                old(self).stack.log(),
                value@,
            ),
    {
        let _ = self.stack.push(value);
    }

    /// PUSH5: push a 5-byte literal taken verbatim from the bytecode
    /// (a named handler, not reachable from the dispatcher).
    #[allow(non_snake_case)]
    pub fn PUSH5(&mut self, value: &str)
        requires
            old(self).stack.wf(),
        ensures
            final(self).stack.wf(),
            only_stack_differs(*old(self), *final(self)),
            (final(self).stack.values(), final(self).stack.log()) == stack_push_effect(
                old(self).stack.values(),
                old(self).stack.log(),
                value@,
            ),
    {
        let _ = self.stack.push(value);
    }

    /// PUSH6: push a 6-byte literal taken verbatim from the bytecode
    /// (a named handler, not reachable from the dispatcher).
    #[allow(non_snake_case)]
    pub fn PUSH6(&mut self, value: &str)
        requires
            old(self).stack.wf(),
        ensures
            final(self).stack.wf(),
            only_stack_differs(*old(self), *final(self)),
            (final(self).stack.values(), final(self).stack.log()) == stack_push_effect(
                old(self).stack.values(),
                old(self).stack.log(),
                value@,
            ),
    {
        let _ = self.stack.push(value);
    }

    /// PUSH7: push a 7-byte literal taken verbatim from the bytecode
    /// (a named handler, not reachable from the dispatcher).
    #[allow(non_snake_case)]
    pub fn PUSH7(&mut self, value: &str)
        requires
            old(self).stack.wf(),
        ensures
            final(self).stack.wf(),
            only_stack_differs(*old(self), *final(self)),
            (final(self).stack.values(), final(self).stack.log()) == stack_push_effect(
                old(self).stack.values(),
                old(self).stack.log(),
                value@,
            ),
    {
        let _ = self.stack.push(value);
    }

    /// PUSH8: push a 8-byte literal taken verbatim from the bytecode
    /// (a named handler, not reachable from the dispatcher).
    #[allow(non_snake_case)]
    pub fn PUSH8(&mut self, value: &str)
        requires
            old(self).stack.wf(),
        ensures
            final(self).stack.wf(),
            only_stack_differs(*old(self), *final(self)),
            (final(self).stack.values(), final(self).stack.log()) == stack_push_effect(
                old(self).stack.values(),
                old(self).stack.log(),
                value@,
            ),
    {
        let _ = self.stack.push(value);
    }

    /// PUSH9: push a 9-byte literal taken verbatim from the bytecode
    /// (a named handler, not reachable from the dispatcher).
    #[allow(non_snake_case)]
    pub fn PUSH9(&mut self, value: &str)
        requires
            old(self).stack.wf(),
        ensures
            final(self).stack.wf(),
            only_stack_differs(*old(self), *final(self)),
            (final(self).stack.values(), final(self).stack.log()) == stack_push_effect(
                old(self).stack.values(),
                old(self).stack.log(),
                value@,
            ),
    {
        let _ = self.stack.push(value);
    }

    /// PUSH10: push a 10-byte literal taken verbatim from the bytecode
    /// (a named handler, not reachable from the dispatcher).
    #[allow(non_snake_case)]
    pub fn PUSH10(&mut self, value: &str)
        requires
            old(self).stack.wf(),
        ensures
            final(self).stack.wf(),
            only_stack_differs(*old(self), *final(self)),
            (final(self).stack.values(), final(self).stack.log()) == stack_push_effect(
                old(self).stack.values(),
                old(self).stack.log(),
                value@,
            ),
    {
        let _ = self.stack.push(value);
    }

    /// PUSH11: push a 11-byte literal taken verbatim from the bytecode
    /// (a named handler, not reachable from the dispatcher).
    #[allow(non_snake_case)]
    pub fn PUSH11(&mut self, value: &str)
        requires
            old(self).stack.wf(),
        ensures
            final(self).stack.wf(),
            only_stack_differs(*old(self), *final(self)),
            (final(self).stack.values(), final(self).stack.log()) == stack_push_effect(
                old(self).stack.values(),
                old(self).stack.log(),
                value@,
            ),
    {
        let _ = self.stack.push(value);
    }

    /// PUSH12: push a 12-byte literal taken verbatim from the bytecode
    /// (a named handler, not reachable from the dispatcher).
    #[allow(non_snake_case)]
    pub fn PUSH12(&mut self, value: &str)
        requires
            old(self).stack.wf(),
        ensures
            final(self).stack.wf(),
            only_stack_differs(*old(self), *final(self)),
            (final(self).stack.values(), final(self).stack.log()) == stack_push_effect(
                old(self).stack.values(),
                old(self).stack.log(),
                value@,
            ),
    {
        let _ = self.stack.push(value);
    }

    /// PUSH13: push a 13-byte literal taken verbatim from the bytecode
    /// (a named handler, not reachable from the dispatcher).
    #[allow(non_snake_case)]
    pub fn PUSH13(&mut self, value: &str)
        requires
            old(self).stack.wf(),
        ensures
            final(self).stack.wf(),
            only_stack_differs(*old(self), *final(self)),
            (final(self).stack.values(), final(self).stack.log()) == stack_push_effect(
                old(self).stack.values(),
                old(self).stack.log(),
                value@,
            ),
    {
        let _ = self.stack.push(value);
    }

    /// PUSH14: push a 14-byte literal taken verbatim from the bytecode
    /// (a named handler, not reachable from the dispatcher).
    #[allow(non_snake_case)]
    pub fn PUSH14(&mut self, value: &str)
        requires
            old(self).stack.wf(),
        ensures
            final(self).stack.wf(),
            only_stack_differs(*old(self), *final(self)),
            (final(self).stack.values(), final(self).stack.log()) == stack_push_effect(
                old(self).stack.values(),
                old(self).stack.log(),
                value@,
            ),
    {
        let _ = self.stack.push(value);
    }

    /// PUSH15: push a 15-byte literal taken verbatim from the bytecode
    /// (a named handler, not reachable from the dispatcher).
    #[allow(non_snake_case)]
    pub fn PUSH15(&mut self, value: &str)
        requires
            old(self).stack.wf(),
        ensures
            final(self).stack.wf(),
            only_stack_differs(*old(self), *final(self)),
            (final(self).stack.values(), final(self).stack.log()) == stack_push_effect(
                old(self).stack.values(),
                old(self).stack.log(),
                value@,
            ),
    {
        let _ = self.stack.push(value);
    }

    /// PUSH16: push a 16-byte literal taken verbatim from the bytecode
    /// (a named handler, not reachable from the dispatcher).
    #[allow(non_snake_case)]
    pub fn PUSH16(&mut self, value: &str)
        requires
            old(self).stack.wf(),
        ensures
            final(self).stack.wf(),
            only_stack_differs(*old(self), *final(self)),
            (final(self).stack.values(), final(self).stack.log()) == stack_push_effect(
                old(self).stack.values(),
                old(self).stack.log(),
                value@,
            ),
    {
        let _ = self.stack.push(value);
    }

    /// PUSH17: push a 17-byte literal taken verbatim from the bytecode
    /// (a named handler, not reachable from the dispatcher).
    #[allow(non_snake_case)]
    pub fn PUSH17(&mut self, value: &str)
        requires
            old(self).stack.wf(),
        ensures
            final(self).stack.wf(),
            only_stack_differs(*old(self), *final(self)),
            (final(self).stack.values(), final(self).stack.log()) == stack_push_effect(
                old(self).stack.values(),
                old(self).stack.log(),
                value@,
            ),
    {
        let _ = self.stack.push(value);
    }

    /// PUSH18: push a 18-byte literal taken verbatim from the bytecode
    /// (a named handler, not reachable from the dispatcher).
    #[allow(non_snake_case)]
    pub fn PUSH18(&mut self, value: &str)
        requires
            old(self).stack.wf(),
        ensures
            final(self).stack.wf(),
            only_stack_differs(*old(self), *final(self)),
            (final(self).stack.values(), final(self).stack.log()) == stack_push_effect(
                old(self).stack.values(),
                old(self).stack.log(),
                value@,
            ),
    {
        let _ = self.stack.push(value);
    }

    /// PUSH19: push a 19-byte literal taken verbatim from the bytecode
    /// (a named handler, not reachable from the dispatcher).
    #[allow(non_snake_case)]
    pub fn PUSH19(&mut self, value: &str)
        requires
            old(self).stack.wf(),
        ensures
            final(self).stack.wf(),
            only_stack_differs(*old(self), *final(self)),
            (final(self).stack.values(), final(self).stack.log()) == stack_push_effect(
                old(self).stack.values(),
                old(self).stack.log(),
                value@,
            ),
    {
        let _ = self.stack.push(value);
    }

    /// PUSH20: push a 20-byte literal taken verbatim from the bytecode
    /// (wired to opcode `73` in the dispatcher).
    #[allow(non_snake_case)]
    pub fn PUSH20(&mut self, value: &str)
        requires
            old(self).stack.wf(),
        ensures
            final(self).stack.wf(),
            only_stack_differs(*old(self), *final(self)),
            (final(self).stack.values(), final(self).stack.log()) == stack_push_effect(
                old(self).stack.values(),
                old(self).stack.log(),
                value@,
            ),
    {
        let _ = self.stack.push(value);
    }

    /// PUSH21: push a 21-byte literal taken verbatim from the bytecode
    /// (a named handler, not reachable from the dispatcher).
    #[allow(non_snake_case)]
    pub fn PUSH21(&mut self, value: &str)
        requires
            old(self).stack.wf(),
        ensures
            final(self).stack.wf(),
            only_stack_differs(*old(self), *final(self)),
            (final(self).stack.values(), final(self).stack.log()) == stack_push_effect(
                old(self).stack.values(),
                old(self).stack.log(),
                value@,
            ),
    {
        let _ = self.stack.push(value);
    }

    /// PUSH22: push a 22-byte literal taken verbatim from the bytecode
    /// (a named handler, not reachable from the dispatcher).
    #[allow(non_snake_case)]
    pub fn PUSH22(&mut self, value: &str)
        requires
            old(self).stack.wf(),
        ensures
            final(self).stack.wf(),
            only_stack_differs(*old(self), *final(self)),
            (final(self).stack.values(), final(self).stack.log()) == stack_push_effect(
                old(self).stack.values(),
                old(self).stack.log(),
                value@,
            ),
    {
        let _ = self.stack.push(value);
    }

    /// PUSH23: push a 23-byte literal taken verbatim from the bytecode
    /// (a named handler, not reachable from the dispatcher).
    #[allow(non_snake_case)]
    pub fn PUSH23(&mut self, value: &str)
        requires
            old(self).stack.wf(),
        ensures
            final(self).stack.wf(),
            only_stack_differs(*old(self), *final(self)),
            (final(self).stack.values(), final(self).stack.log()) == stack_push_effect(
                old(self).stack.values(),
                old(self).stack.log(),
                value@,
            ),
    {
        let _ = self.stack.push(value);
    }

    /// PUSH24: push a 24-byte literal taken verbatim from the bytecode
    /// (a named handler, not reachable from the dispatcher).
    #[allow(non_snake_case)]
    pub fn PUSH24(&mut self, value: &str)
        requires
            old(self).stack.wf(),
        ensures
            final(self).stack.wf(),
            only_stack_differs(*old(self), *final(self)),
            (final(self).stack.values(), final(self).stack.log()) == stack_push_effect(
                old(self).stack.values(),
                old(self).stack.log(),
                value@,
            ),
    {
        let _ = self.stack.push(value);
    }

    /// PUSH25: push a 25-byte literal taken verbatim from the bytecode
    /// (a named handler, not reachable from the dispatcher).
    #[allow(non_snake_case)]
    pub fn PUSH25(&mut self, value: &str)
        requires
            old(self).stack.wf(),
        ensures
            final(self).stack.wf(),
            only_stack_differs(*old(self), *final(self)),
            (final(self).stack.values(), final(self).stack.log()) == stack_push_effect(
                old(self).stack.values(),
                old(self).stack.log(),
                value@,
            ),
    {
        let _ = self.stack.push(value);
    }

    /// PUSH26: push a 26-byte literal taken verbatim from the bytecode
    /// (a named handler, not reachable from the dispatcher).
    #[allow(non_snake_case)]
    pub fn PUSH26(&mut self, value: &str)
        requires
            old(self).stack.wf(),
        ensures
            final(self).stack.wf(),
            only_stack_differs(*old(self), *final(self)),
            (final(self).stack.values(), final(self).stack.log()) == stack_push_effect(
                old(self).stack.values(),
                old(self).stack.log(),
                value@,
            ),
    {
        let _ = self.stack.push(value);
    }

    /// PUSH27: push a 27-byte literal taken verbatim from the bytecode
    /// (a named handler, not reachable from the dispatcher).
    #[allow(non_snake_case)]
    pub fn PUSH27(&mut self, value: &str)
        requires
            old(self).stack.wf(),
        ensures
            final(self).stack.wf(),
            only_stack_differs(*old(self), *final(self)),
            (final(self).stack.values(), final(self).stack.log()) == stack_push_effect(
                old(self).stack.values(),
                old(self).stack.log(),
                value@,
            ),
    {
        let _ = self.stack.push(value);
    }

    /// PUSH28: push a 28-byte literal taken verbatim from the bytecode
    /// (a named handler, not reachable from the dispatcher).
    #[allow(non_snake_case)]
    pub fn PUSH28(&mut self, value: &str)
        requires
            old(self).stack.wf(),
        ensures
            final(self).stack.wf(),
            only_stack_differs(*old(self), *final(self)),
            (final(self).stack.values(), final(self).stack.log()) == stack_push_effect(
                old(self).stack.values(),
                old(self).stack.log(),
                value@,
            ),
    {
        let _ = self.stack.push(value);
    }

    /// PUSH29: push a 29-byte literal taken verbatim from the bytecode
    /// (a named handler, not reachable from the dispatcher).
    #[allow(non_snake_case)]
    pub fn PUSH29(&mut self, value: &str)
        requires
            old(self).stack.wf(),
        ensures
            final(self).stack.wf(),
            only_stack_differs(*old(self), *final(self)),
            (final(self).stack.values(), final(self).stack.log()) == stack_push_effect(
                old(self).stack.values(),
                old(self).stack.log(),
                value@,
            ),
    {
        let _ = self.stack.push(value);
    }

    /// PUSH30: push a 30-byte literal taken verbatim from the bytecode
    /// (a named handler, not reachable from the dispatcher).
    #[allow(non_snake_case)]
    pub fn PUSH30(&mut self, value: &str)
        requires
            old(self).stack.wf(),
        ensures
            final(self).stack.wf(),
            only_stack_differs(*old(self), *final(self)),
            (final(self).stack.values(), final(self).stack.log()) == stack_push_effect(
                old(self).stack.values(),
                old(self).stack.log(),
                value@,
            ),
    {
        let _ = self.stack.push(value);
    }

    /// PUSH31: push a 31-byte literal taken verbatim from the bytecode
    /// (a named handler, not reachable from the dispatcher).
    #[allow(non_snake_case)]
    pub fn PUSH31(&mut self, value: &str)
        requires
            old(self).stack.wf(),
        ensures
            final(self).stack.wf(),
            only_stack_differs(*old(self), *final(self)),
            (final(self).stack.values(), final(self).stack.log()) == stack_push_effect(
                old(self).stack.values(),
                old(self).stack.log(),
                value@,
            ),
    {
        let _ = self.stack.push(value);
    }

    /// PUSH32: push a 32-byte literal taken verbatim from the bytecode
    /// (a named handler, not reachable from the dispatcher).
    #[allow(non_snake_case)]
    pub fn PUSH32(&mut self, value: &str)
        requires
            old(self).stack.wf(),
        ensures
            final(self).stack.wf(),
            only_stack_differs(*old(self), *final(self)),
            (final(self).stack.values(), final(self).stack.log()) == stack_push_effect(
                old(self).stack.values(),
                old(self).stack.log(),
                value@,
            ),
    {
        let _ = self.stack.push(value);
    }
}

impl EVM {
    /// Decode a two-character opcode, execute its side effect at once, and
    /// return how many hex characters of immediate operand it consumed.
    /// The operand, where there is one, is read from the bytecode just
    /// after the current program counter; if it would extend past the end
    /// of the bytecode, the step is refused with `TruncatedOperand` and
    /// nothing changes. Any string that is not a known opcode is a silent
    /// zero-payload no-op.
    pub fn execute_opcode(&mut self, opcode: &str) -> (r: Result<usize, EvmError>)
        requires
            old(self).wf(),
        ensures
            final(self).wf(),
            final(self)@.code == old(self)@.code,
            final(self)@.pc == old(self)@.pc,
            final(self)@.trail == old(self)@.trail,
            final(self).memory@ == old(self).memory@,
            final(self).calldata@ == old(self).calldata@,
            final(self).storage@ == old(self).storage@,
            r is Err <==> payload_width(opcode@) > 0 && old(self)@.pc + 2 + payload_width(
                opcode@,
            ) > old(self)@.code.len(),
            r is Err ==> r == Result::<usize, EvmError>::Err(EvmError::TruncatedOperand)
                && final(self)@.stack_values == old(self)@.stack_values
                && final(self)@.stack_log == old(self)@.stack_log,
            r matches Ok(w) ==> w == payload_width(opcode@) && (
                final(self)@.stack_values,
                final(self)@.stack_log,
            ) == opcode_effect(
                opcode@,
                old(self)@.code.subrange(
                    old(self)@.pc as int + 2,
                    old(self)@.pc as int + 2 + payload_width(opcode@),
                ),
                old(self)@.stack_values,
                old(self)@.stack_log,
            ),
    {
        let n = self.bytecode.as_str().unicode_len();
        if opcode.unicode_len() != 2 {
            return Ok(0);
        }
        let c0 = opcode.get_char(0);
        let c1 = opcode.get_char(1);
        let i = self.program_counter + self.command_length;
        let r: Result<usize, EvmError> = match (c0, c1) {
            ('3', '5') => {
                self.CALLDATALOAD();
                Ok(0)
            },
            ('5', '0') => {
                self.POP();
                Ok(0)
            },
            ('5', 'f') => {
                self.PUSH0();
                Ok(0)
            },
            ('6', '3') => {
                if n - i < 8 {
                    return Err(EvmError::TruncatedOperand);
                }
                let value = self.bytecode.as_str().substring_char(i, i + 8).to_owned();
                self.PUSH4(value.as_str());
                Ok(8)
            },
            ('7', '3') => {
                if n - i < 40 {
                    return Err(EvmError::TruncatedOperand);
                }
                let value = self.bytecode.as_str().substring_char(i, i + 40).to_owned();
                self.PUSH20(value.as_str());
                Ok(40)
            },
            _ => Ok(0),
        };
        proof {
            assert forall|k: int| 0 <= k < self@.trail.len() implies #[trigger] self@.trail[k] + 2
                <= self@.code.len() by {
                assert(self@.trail == old(self)@.trail);
                assert(self@.trail[k] == old(self)@.trail[k]);
            }
        }
        r
    }
}

} // verus!
