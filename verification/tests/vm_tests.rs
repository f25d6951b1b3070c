use rlox::{Chunk, InterpretResult, OpCode, VM, Value};

fn number(x: f64) -> Value {
    Value::from_bits(x.to_bits())
}

fn as_f64(v: Value) -> f64 {
    f64::from_bits(v.to_bits())
}

#[test]
fn return_on_fresh_vm_is_ok_and_prints_nothing() {
    let mut chunk = Chunk::new();
    chunk.write_code(OpCode::Return, 1);
    let mut vm = VM::new(&chunk);
    let result = vm.run();
    assert_eq!(result, InterpretResult::Okay);
    assert!(vm.output.is_none());
    assert!(vm.trace.is_empty());
}

#[test]
fn add_on_empty_stack_is_runtime_error_not_a_crash() {
    let mut chunk = Chunk::new();
    chunk.write_code(OpCode::Add, 1);
    let mut vm = VM::new(&chunk);
    assert_eq!(vm.run(), InterpretResult::RuntimeError);
}

#[test]
fn negate_on_empty_stack_is_runtime_error() {
    let mut chunk = Chunk::new();
    chunk.write_code(OpCode::Negate, 1);
    let mut vm = VM::new(&chunk);
    assert_eq!(vm.run(), InterpretResult::RuntimeError);
}

#[test]
fn binary_op_with_one_operand_is_runtime_error() {
    let mut chunk = Chunk::new();
    let index = chunk.add_constant(number(1.0));
    chunk.write_code(OpCode::Constant(index), 1);
    chunk.write_code(OpCode::Subtract, 1);
    let mut vm = VM::new(&chunk);
    assert_eq!(vm.run(), InterpretResult::RuntimeError);
}

#[test]
fn running_past_the_end_is_runtime_error() {
    let chunk = Chunk::new();
    let mut vm = VM::new(&chunk);
    assert_eq!(vm.run(), InterpretResult::RuntimeError);
}

#[test]
fn addition_returns_sum() {
    let mut chunk = Chunk::new();
    let a = chunk.add_constant(number(1.0));
    let b = chunk.add_constant(number(2.0));
    chunk.write_code(OpCode::Constant(a), 1);
    chunk.write_code(OpCode::Constant(b), 1);
    chunk.write_code(OpCode::Add, 1);
    chunk.write_code(OpCode::Return, 1);
    let mut vm = VM::new(&chunk);
    assert_eq!(vm.run(), InterpretResult::Okay);
    assert_eq!(as_f64(vm.output.unwrap()), 3.0);
}

#[test]
fn subtraction_order_is_beneath_minus_top() {
    let mut chunk = Chunk::new();
    let a = chunk.add_constant(number(5.0));
    let b = chunk.add_constant(number(3.0));
    chunk.write_code(OpCode::Constant(a), 1);
    chunk.write_code(OpCode::Constant(b), 1);
    chunk.write_code(OpCode::Subtract, 1);
    chunk.write_code(OpCode::Return, 1);
    let mut vm = VM::new(&chunk);
    assert_eq!(vm.run(), InterpretResult::Okay);
    assert_eq!(as_f64(vm.output.unwrap()), 2.0);
}

#[test]
fn multiplication_returns_product() {
    let mut chunk = Chunk::new();
    let a = chunk.add_constant(number(4.0));
    let b = chunk.add_constant(number(2.5));
    chunk.write_code(OpCode::Constant(a), 1);
    chunk.write_code(OpCode::Constant(b), 1);
    chunk.write_code(OpCode::Multiply, 1);
    chunk.write_code(OpCode::Return, 1);
    let mut vm = VM::new(&chunk);
    assert_eq!(vm.run(), InterpretResult::Okay);
    assert_eq!(as_f64(vm.output.unwrap()), 10.0);
}

#[test]
fn division_order_is_beneath_over_top() {
    let mut chunk = Chunk::new();
    let a = chunk.add_constant(number(1.0));
    let b = chunk.add_constant(number(8.0));
    chunk.write_code(OpCode::Constant(a), 1);
    chunk.write_code(OpCode::Constant(b), 1);
    chunk.write_code(OpCode::Divide, 1);
    chunk.write_code(OpCode::Return, 1);
    let mut vm = VM::new(&chunk);
    assert_eq!(vm.run(), InterpretResult::Okay);
    assert_eq!(as_f64(vm.output.unwrap()), 0.125);
}

#[test]
fn negate_flips_sign() {
    let mut chunk = Chunk::new();
    let a = chunk.add_constant(number(7.5));
    chunk.write_code(OpCode::Constant(a), 1);
    chunk.write_code(OpCode::Negate, 1);
    chunk.write_code(OpCode::Return, 1);
    let mut vm = VM::new(&chunk);
    assert_eq!(vm.run(), InterpretResult::Okay);
    assert_eq!(as_f64(vm.output.unwrap()), -7.5);
}

#[test]
fn arithmetic_round_trip_matches_host_result() {
    let mut chunk = Chunk::new();
    let c0 = chunk.add_constant(number(1.2));
    let c1 = chunk.add_constant(number(3.4));
    let c2 = chunk.add_constant(number(5.6));
    chunk.write_code(OpCode::Constant(c0), 1);
    chunk.write_code(OpCode::Constant(c1), 1);
    chunk.write_code(OpCode::Add, 1);
    chunk.write_code(OpCode::Constant(c2), 1);
    chunk.write_code(OpCode::Divide, 1);
    chunk.write_code(OpCode::Negate, 1);
    chunk.write_code(OpCode::Return, 1);
    let mut vm = VM::new(&chunk);
    assert_eq!(vm.run(), InterpretResult::Okay);
    let got = as_f64(vm.output.unwrap());
    let expected = -0.8214285714285714f64;
    assert!((got - expected).abs() < 1e-12, "got {got}");
}

#[test]
fn debug_mode_gathers_a_trace_before_each_instruction() {
    let mut chunk = Chunk::new();
    let a = chunk.add_constant(number(0.0));
    chunk.write_code(OpCode::Constant(a), 1);
    chunk.write_code(OpCode::Return, 1);
    let mut vm = VM::new(&chunk);
    vm.debug = true;
    assert_eq!(vm.run(), InterpretResult::Okay);
    // Two lines per executed instruction: the stack, then the disassembly.
    assert_eq!(vm.trace.len(), 4);
    assert_eq!(vm.trace[0], "          \n");
    assert!(vm.trace[1].starts_with("0000 0001 CONSTANT"));
    assert_eq!(vm.trace[2], "          [ 0 ]\n");
    assert_eq!(vm.trace[3], "0001    | RETURN\n");
}

#[test]
fn interpret_reports_okay_and_dumps_tokens() {
    let chunk = Chunk::new();
    let mut vm = VM::new(&chunk);
    let result = vm.interpret("1 + 2".to_string());
    assert_eq!(result, InterpretResult::Okay);
    let dump: Vec<String> = vm.trace.clone();
    assert_eq!(
        dump,
        vec![
            "   1 Number '1'\n".to_string(),
            "   | Plus '+'\n".to_string(),
            "   | Number '2'\n".to_string(),
            "   | Eof ''\n".to_string(),
        ]
    );
}
