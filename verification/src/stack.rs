//! The operand stack: a LIFO sequence of literal values (hex/decimal
//! strings) with `push`, `pop`, and `undo`. Every successful push or pop is
//! journalled so that `undo` can reverse exactly the most recent mutation.

use vstd::prelude::*;

verus! {

/// Why a stack operation was refused.
#[derive(Clone, Copy, Debug, PartialEq, Eq, Structural)]
pub enum StackError {
    /// `pop` was called on an empty stack.
    Underflow,
    /// `undo` was called with no prior push or pop to reverse.
    NothingToUndo,
}

/// One journalled mutation, as contracts see it: either a value was pushed,
/// or the recorded value was popped off the top.
pub enum LogEntry {
    Pushed,
    Popped(Seq<char>),
}

/// The journal's executable form; `Popped` keeps the removed value so that
/// `undo` can put it back.
#[derive(Debug)]
enum UndoEntry {
    Pushed,
    Popped(String),
}

spec fn entry_view(e: UndoEntry) -> LogEntry {
    match e {
        UndoEntry::Pushed => LogEntry::Pushed,
        UndoEntry::Popped(s) => LogEntry::Popped(s@),
    }
}

/// How many values the stack must hold for the whole journal to be undone
/// in reverse order without ever removing from an empty stack.
pub open spec fn undo_need(log: Seq<LogEntry>) -> nat
    decreases log.len(),
{
    if log.len() == 0 {
        0
    } else {
        let rest = undo_need(log.drop_last());
        match log.last() {
            LogEntry::Pushed => rest + 1,
            LogEntry::Popped(v) => if rest == 0 {
                0
            } else {
                (rest - 1) as nat
            },
        }
    }
}

/// What a push does to the stack's values and journal.
pub open spec fn stack_push_effect(
    values: Seq<Seq<char>>,
    log: Seq<LogEntry>,
    v: Seq<char>,
) -> (Seq<Seq<char>>, Seq<LogEntry>) {
    (values.push(v), log.push(LogEntry::Pushed))
}

/// What a pop does: on an empty stack it is refused and changes nothing.
pub open spec fn stack_pop_effect(
    values: Seq<Seq<char>>,
    log: Seq<LogEntry>,
) -> (Seq<Seq<char>>, Seq<LogEntry>) {
    if values.len() == 0 {
        (values, log)
    } else {
        (values.drop_last(), log.push(LogEntry::Popped(values.last())))
    }
}

/// What an undo does: reverse the journal's last entry; with an empty
/// journal it is refused and changes nothing.
pub open spec fn stack_undo_effect(
    values: Seq<Seq<char>>,
    log: Seq<LogEntry>,
) -> (Seq<Seq<char>>, Seq<LogEntry>) {
    if log.len() == 0 {
        (values, log)
    } else {
        match log.last() {
            LogEntry::Pushed => (values.drop_last(), log.drop_last()),
            LogEntry::Popped(v) => (values.push(v), log.drop_last()),
        }
    }
}

/// The operand stack, bottom first, together with its undo journal.
#[derive(Debug)]
pub struct Stack {
    entries: Vec<String>,
    journal: Vec<UndoEntry>,
}

impl Stack {
    /// The values held, bottom first, as character sequences.
    pub closed spec fn values(&self) -> Seq<Seq<char>> {
        self.entries@.map_values(|s: String| s@)
    }

    /// The journal of past mutations, oldest first.
    pub closed spec fn log(&self) -> Seq<LogEntry> {
        self.journal@.map_values(|e: UndoEntry| entry_view(e))
    }

    /// The journal never asks to remove more values than the stack holds.
    pub open spec fn wf(&self) -> bool {
        undo_need(self.log()) <= self.values().len()
    }

    pub fn new() -> (r: Stack)
        ensures
            r.values() == Seq::<Seq<char>>::empty(),
            r.log() == Seq::<LogEntry>::empty(),
            r.wf(),
    {
        let r = Stack { entries: Vec::new(), journal: Vec::new() };
        proof {
            assert(r.values() =~= Seq::<Seq<char>>::empty());
            assert(r.log() =~= Seq::<LogEntry>::empty());
        }
        r
    }

    /// How many values the stack currently holds.
    pub fn len(&self) -> (n: usize)
        ensures
            n == self.values().len(),
    {
        self.entries.len()
    }

    /// A copy of the top value, if any.
    pub fn top(&self) -> (r: Option<String>)
        ensures
            self.values().len() == 0 ==> r is None,
            self.values().len() > 0 ==> (r matches Some(v) && v@ == self.values().last()),
    {
        if self.entries.len() > 0 {
            Some(self.entries[self.entries.len() - 1].clone())
        } else {
            None
        }
    }

    pub fn push(&mut self, value: &str) -> (r: Result<(), StackError>)
        requires
            old(self).wf(),
        ensures
            final(self).wf(),
            r is Ok,
            (final(self).values(), final(self).log()) == stack_push_effect(
                old(self).values(),
                old(self).log(),
                value@,
            ),
    {
        self.entries.push(value.to_owned());
        self.journal.push(UndoEntry::Pushed);
        proof {
            assert(self.values() =~= old(self).values().push(value@));
            assert(self.log() =~= old(self).log().push(LogEntry::Pushed));
            lemma_undo_need_after_push(old(self).log());
        }
        Ok(())
    }

    pub fn pop(&mut self) -> (r: Result<String, StackError>)
        requires
            old(self).wf(),
        ensures
            final(self).wf(),
            (final(self).values(), final(self).log()) == stack_pop_effect(
                old(self).values(),
                old(self).log(),
            ),
            old(self).values().len() == 0 ==> (r matches Err(e) && e is Underflow),
            old(self).values().len() > 0 ==> (r matches Ok(v) && v@ == old(self).values().last()),
    {
        match self.entries.pop() {
            None => Err(StackError::Underflow),
            Some(top_value) => {
                self.journal.push(UndoEntry::Popped(top_value.clone()));
                proof {
                    assert(self.values() =~= old(self).values().drop_last());
                    assert(self.log() =~= old(self).log().push(
                        LogEntry::Popped(old(self).values().last()),
                    ));
                    lemma_undo_need_after_pop(old(self).log(), old(self).values().last());
                }
                Ok(top_value)
            },
        }
    }

    /// Reverse the most recent push or pop.
    pub fn undo(&mut self) -> (r: Result<(), StackError>)
        requires
            old(self).wf(),
        ensures
            final(self).wf(),
            (final(self).values(), final(self).log()) == stack_undo_effect(
                old(self).values(),
                old(self).log(),
            ),
            old(self).log().len() == 0 ==> (r matches Err(e) && e is NothingToUndo),
            old(self).log().len() > 0 ==> r is Ok,
    {
        match self.journal.pop() {
            None => {
                proof {
                    assert(old(self).log() =~= Seq::<LogEntry>::empty());
                }
                Err(StackError::NothingToUndo)
            },
            Some(UndoEntry::Pushed) => {
                proof {
                    assert(old(self).log().last() == LogEntry::Pushed);
                    assert(undo_need(old(self).log()) >= 1);
                    assert(old(self).values().len() >= 1);
                }
                let _ = self.entries.pop();
                proof {
                    assert(self.values() =~= old(self).values().drop_last());
                    assert(self.log() =~= old(self).log().drop_last());
                }
                Ok(())
            },
            Some(UndoEntry::Popped(v)) => {
                self.entries.push(v);
                proof {
                    assert(old(self).log().last() matches LogEntry::Popped(w)
                        && self.values() =~= old(self).values().push(w));
                    assert(self.log() =~= old(self).log().drop_last());
                }
                Ok(())
            },
        }
    }
}

/// Pushing grows the undo requirement by exactly one.
proof fn lemma_undo_need_after_push(log: Seq<LogEntry>)
    ensures
        undo_need(log.push(LogEntry::Pushed)) == undo_need(log) + 1,
{
    assert(log.push(LogEntry::Pushed).drop_last() =~= log);
}

/// Recording a pop shrinks the undo requirement, or leaves it at zero.
proof fn lemma_undo_need_after_pop(log: Seq<LogEntry>, v: Seq<char>)
    ensures
        undo_need(log.push(LogEntry::Popped(v))) == if undo_need(log) == 0 {
            0nat
        } else {
            (undo_need(log) - 1) as nat
        },
{
    assert(log.push(LogEntry::Popped(v)).drop_last() =~= log);
}

} // verus!
