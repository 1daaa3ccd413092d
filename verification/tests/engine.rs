//! Stepping-engine behavior on concrete bytecode.

use evm_stepper::calldata::Calldata;
use evm_stepper::evm::EvmError;
use evm_stepper::evm::ExecutionTrail;
use evm_stepper::evm::EVM;
use evm_stepper::memory::Memory;
use evm_stepper::stack::Stack;
use evm_stepper::storage::Storage;

#[test]
fn push4_decodes_payload() {
    let mut e = EVM::default(String::from("630000000a50"));
    e.update_program_counter(ExecutionTrail::Right);
    assert_eq!(e.get_program_counter(), 10);
    assert_eq!(e.stack.len(), 1);
    assert_eq!(e.stack.top(), Some(String::from("0000000a")));
    assert_eq!(e.pc_history.len(), 1);
    assert_eq!(e.pc_history[0], 0);
}

#[test]
fn push0_advances_two_and_pushes_zero() {
    let mut e = EVM::default(String::from("5f00"));
    e.update_program_counter(ExecutionTrail::Right);
    assert_eq!(e.get_program_counter(), 2);
    assert_eq!(e.stack.len(), 1);
    assert_eq!(e.stack.top(), Some(String::from("0")));
}

#[test]
fn push20_consumes_forty_chars() {
    let payload = "00112233445566778899aabbccddeeff00112233";
    assert_eq!(payload.len(), 40);
    let bytecode = format!("73{}00", payload);
    let mut e = EVM::default(bytecode);
    e.update_program_counter(ExecutionTrail::Right);
    assert_eq!(e.get_program_counter(), 42);
    assert_eq!(e.stack.len(), 1);
    assert_eq!(e.stack.top(), Some(String::from(payload)));
}

#[test]
fn pop_removes_top_and_advances_two() {
    let mut stack = Stack::new();
    stack.push("7").unwrap();
    let mut e = EVM::new(
        String::from("5000"),
        Calldata::default(),
        None,
        None,
        Some(stack),
    );
    e.update_program_counter(ExecutionTrail::Right);
    assert_eq!(e.get_program_counter(), 2);
    assert_eq!(e.stack.len(), 0);
}

#[test]
fn unknown_opcode_is_pure_advance() {
    let mut e = EVM::default(String::from("0100"));
    e.update_program_counter(ExecutionTrail::Right);
    assert_eq!(e.get_program_counter(), 2);
    assert_eq!(e.stack.len(), 0);
    assert_eq!(e.pc_history.len(), 1);
}

#[test]
fn calldataload_is_a_noop() {
    let mut e = EVM::default(String::from("3500"));
    e.update_program_counter(ExecutionTrail::Right);
    assert_eq!(e.get_program_counter(), 2);
    assert_eq!(e.stack.len(), 0);
}

#[test]
fn clamp_pinned_step_reexecutes_side_effect() {
    let mut stack = Stack::new();
    stack.push("aa").unwrap();
    stack.push("bb").unwrap();
    let mut e = EVM::new(
        String::from("630000000a50"),
        Calldata::default(),
        None,
        None,
        Some(stack),
    );

    e.update_program_counter(ExecutionTrail::Right);
    assert_eq!(e.get_program_counter(), 10);
    assert_eq!(e.stack.len(), 3);
    assert_eq!(e.pc_history.len(), 1);

    // The POP at the last instruction: its candidate counter clamps back
    // to 10, so the counter and history stay put, but the pop happens.
    e.update_program_counter(ExecutionTrail::Right);
    assert_eq!(e.get_program_counter(), 10);
    assert_eq!(e.stack.len(), 2);
    assert_eq!(e.pc_history.len(), 1);

    // Stepping again while pinned pops once more.
    e.update_program_counter(ExecutionTrail::Right);
    assert_eq!(e.get_program_counter(), 10);
    assert_eq!(e.stack.len(), 1);
    assert_eq!(e.pc_history.len(), 1);
    assert_eq!(e.stack.top(), Some(String::from("aa")));
}

#[test]
fn backward_with_empty_history_is_noop() {
    let mut stack = Stack::new();
    stack.push("5").unwrap();
    let mut e = EVM::new(
        String::from("0100"),
        Calldata::default(),
        None,
        None,
        Some(stack),
    );
    e.update_program_counter(ExecutionTrail::Left);
    assert_eq!(e.get_program_counter(), 0);
    assert_eq!(e.stack.len(), 1);
    assert_eq!(e.stack.top(), Some(String::from("5")));
    assert_eq!(e.pc_history.len(), 0);
}

#[test]
fn round_trip_reverses_push() {
    let mut e = EVM::default(String::from("5f00"));
    e.update_program_counter(ExecutionTrail::Right);
    assert_eq!(e.get_program_counter(), 2);
    assert_eq!(e.stack.len(), 1);
    e.update_program_counter(ExecutionTrail::Left);
    assert_eq!(e.get_program_counter(), 0);
    assert_eq!(e.stack.len(), 0);
    assert_eq!(e.pc_history.len(), 0);
}

#[test]
fn round_trip_reverses_pop() {
    let mut stack = Stack::new();
    stack.push("9").unwrap();
    let mut e = EVM::new(
        String::from("5000"),
        Calldata::default(),
        None,
        None,
        Some(stack),
    );
    e.update_program_counter(ExecutionTrail::Right);
    assert_eq!(e.stack.len(), 0);
    e.update_program_counter(ExecutionTrail::Left);
    assert_eq!(e.get_program_counter(), 0);
    assert_eq!(e.stack.len(), 1);
    assert_eq!(e.stack.top(), Some(String::from("9")));
}

#[test]
fn truncated_operand_leaves_state_unchanged() {
    let mut e = EVM::default(String::from("6300"));
    e.update_program_counter(ExecutionTrail::Right);
    assert_eq!(e.get_program_counter(), 0);
    assert_eq!(e.stack.len(), 0);
    assert_eq!(e.pc_history.len(), 0);
}

#[test]
fn truncated_operand_is_reported_by_execute_opcode() {
    let mut e = EVM::default(String::from("6300"));
    assert_eq!(e.execute_opcode("63"), Err(EvmError::TruncatedOperand));
    let mut f = EVM::default(String::from("7300"));
    assert_eq!(f.execute_opcode("73"), Err(EvmError::TruncatedOperand));
}

#[test]
fn execute_opcode_returns_payload_size() {
    let mut e = EVM::default(String::from("630000000a50"));
    assert_eq!(e.execute_opcode("63"), Ok(8));
    let mut f = EVM::default(String::from("0100"));
    assert_eq!(f.execute_opcode("01"), Ok(0));
    assert_eq!(f.execute_opcode("50"), Ok(0));
    assert_eq!(f.execute_opcode("5f"), Ok(0));
    assert_eq!(f.execute_opcode("35"), Ok(0));
}

#[test]
fn unwired_push_family_opcodes_are_unknown() {
    let unwired = [
        "60", "61", "62", "64", "65", "66", "67", "68", "69", "6a", "6b", "6c", "6d", "6e", "6f",
        "70", "71", "72", "74", "75", "76", "77", "78", "79", "7a", "7b", "7c", "7d", "7e", "7f",
    ];
    for op in unwired.iter() {
        let mut e = EVM::default(format!("{}00", op));
        e.update_program_counter(ExecutionTrail::Right);
        assert_eq!(e.get_program_counter(), 2, "opcode {}", op);
        assert_eq!(e.stack.len(), 0, "opcode {}", op);
    }
}

#[test]
fn named_push_handlers_exist_for_whole_family() {
    let mut e = EVM::default(String::from("0000"));
    e.PUSH1("ff");
    e.PUSH2("ffff");
    e.PUSH3("ffffff");
    e.PUSH32("00112233445566778899aabbccddeeff00112233445566778899aabbccddeeff");
    assert_eq!(e.stack.len(), 4);
    // They mutate only the stack; the counter never moves.
    assert_eq!(e.get_program_counter(), 0);
    assert_eq!(e.pc_history.len(), 0);
}

#[test]
fn getters_report_construction_state() {
    let e = EVM::default(String::from("5f00"));
    assert_eq!(e.get_bytecode().as_str(), "5f00");
    assert_eq!(e.get_program_counter(), 0);
    assert_eq!(e.get_command_length(), 2);
}

#[test]
fn new_keeps_supplied_collaborators() {
    let calldata = Calldata::new(vec![1, 2, 3]);
    let e = EVM::new(
        String::from("5f00"),
        calldata,
        Some(Memory::new()),
        Some(Storage::default()),
        None,
    );
    assert_eq!(e.calldata.data(), &vec![1, 2, 3]);
    assert_eq!(e.memory.data().len(), 0);
    assert_eq!(e.storage.len(), 0);
    assert_eq!(e.stack.len(), 0);
}
