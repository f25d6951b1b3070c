use rlox::{Chunk, OpCode, Value, compile, render_value};

#[test]
fn add_constant_returns_stable_indices() {
    let mut chunk = Chunk::new();
    let i0 = chunk.add_constant(Value::from_bits(1));
    let i1 = chunk.add_constant(Value::from_bits(2));
    let i2 = chunk.add_constant(Value::from_bits(3));
    assert_eq!((i0, i1, i2), (0, 1, 2));
    assert_eq!(chunk.get_constant(0).to_bits(), 1);
    assert_eq!(chunk.get_constant(1).to_bits(), 2);
    assert_eq!(chunk.get_constant(2).to_bits(), 3);
}

#[test]
fn write_code_appends_in_order() {
    let mut chunk = Chunk::new();
    chunk.write_code(OpCode::Add, 7);
    chunk.write_code(OpCode::Return, 8);
    assert_eq!(chunk.code_count(), 2);
    assert!(matches!(chunk.get_instruction(0), OpCode::Add));
    assert!(matches!(chunk.get_instruction(1), OpCode::Return));
}

#[test]
fn disassemble_simple_instruction_format() {
    let mut chunk = Chunk::new();
    chunk.write_code(OpCode::Return, 1);
    let text = chunk.disassemble("test");
    assert_eq!(text, "== test ==\n0000 0001 RETURN\n");
}

#[test]
fn disassemble_shared_line_uses_continuation_marker() {
    let mut chunk = Chunk::new();
    chunk.write_code(OpCode::Add, 3);
    chunk.write_code(OpCode::Return, 3);
    let text = chunk.disassemble("main");
    assert_eq!(text, "== main ==\n0000 0003 ADD\n0001    | RETURN\n");
}

#[test]
fn disassemble_new_line_prints_number_again() {
    let mut chunk = Chunk::new();
    chunk.write_code(OpCode::Negate, 1);
    chunk.write_code(OpCode::Return, 2);
    let text = chunk.disassemble("main");
    assert_eq!(text, "== main ==\n0000 0001 NEGATE\n0001 0002 RETURN\n");
}

#[test]
fn disassemble_constant_shows_index_and_value() {
    let mut chunk = Chunk::new();
    let index = chunk.add_constant(Value::from_bits(0));
    chunk.write_code(OpCode::Constant(index), 12);
    let text = chunk.disassemble("pool");
    assert_eq!(text, "== pool ==\n0000 0012 CONSTANT            0 '0'\n");
}

#[test]
fn render_of_zero_bits_is_zero_text() {
    assert_eq!(render_value(&Value::from_bits(0)), "0");
}

#[test]
fn compile_dumps_tokens_with_line_markers() {
    let lines = compile("var x\nx".to_string());
    assert_eq!(
        lines,
        vec![
            "   1 Var 'var'\n".to_string(),
            "   | Identifier 'x'\n".to_string(),
            "   2 Identifier 'x'\n".to_string(),
            "   | Eof ''\n".to_string(),
        ]
    );
}

#[test]
fn compile_of_blank_source_is_single_eof_line() {
    let lines = compile("   // nothing here\n".to_string());
    assert_eq!(lines, vec!["   2 Eof ''\n".to_string()]);
}
