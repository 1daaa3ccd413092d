//! The operand stack's push, pop and undo behavior.

use evm_stepper::stack::Stack;
use evm_stepper::stack::StackError;

#[test]
fn push_then_pop_is_lifo() {
    let mut s = Stack::new();
    s.push("a").unwrap();
    s.push("b").unwrap();
    assert_eq!(s.len(), 2);
    assert_eq!(s.pop(), Ok(String::from("b")));
    assert_eq!(s.len(), 1);
    assert_eq!(s.top(), Some(String::from("a")));
}

#[test]
fn pop_on_empty_stack_underflows() {
    let mut s = Stack::new();
    assert_eq!(s.pop(), Err(StackError::Underflow));
    assert_eq!(s.len(), 0);
}

#[test]
fn undo_reverses_a_push() {
    let mut s = Stack::new();
    s.push("a").unwrap();
    assert_eq!(s.undo(), Ok(()));
    assert_eq!(s.len(), 0);
}

#[test]
fn undo_reverses_a_pop() {
    let mut s = Stack::new();
    s.push("a").unwrap();
    let _ = s.pop();
    assert_eq!(s.len(), 0);
    assert_eq!(s.undo(), Ok(()));
    assert_eq!(s.len(), 1);
    assert_eq!(s.top(), Some(String::from("a")));
}

#[test]
fn undo_with_no_history_is_refused() {
    let mut s = Stack::new();
    assert_eq!(s.undo(), Err(StackError::NothingToUndo));
}

#[test]
fn undo_walks_the_whole_journal_backwards() {
    let mut s = Stack::new();
    s.push("a").unwrap();
    s.push("b").unwrap();
    let _ = s.pop();
    assert_eq!(s.len(), 1);
    assert_eq!(s.undo(), Ok(()));  // put "b" back
    assert_eq!(s.len(), 2);
    assert_eq!(s.top(), Some(String::from("b")));
    assert_eq!(s.undo(), Ok(()));  // take the push of "b" back
    assert_eq!(s.len(), 1);
    assert_eq!(s.undo(), Ok(()));  // take the push of "a" back
    assert_eq!(s.len(), 0);
    assert_eq!(s.undo(), Err(StackError::NothingToUndo));
}
