use bytecode::chunk::Chunk;
use bytecode::disassembler::DisassembleError;
use bytecode::disassembler::Disassembler;
use bytecode::opcode::OpCode;
use bytecode::opcode::UnknownOpcode;
use bytecode::value::Value;

#[test]
fn test_disassemble_return() {
    let mut chunk = Chunk::new();
    chunk.write_opcode(OpCode::Return, 123);

    let disassembler = Disassembler::new(&chunk, "test");
    let mut output = String::new();
    disassembler.write(&mut output).unwrap();

    assert!(output.contains("123"));
    assert!(output.contains("OP_RETURN"));
    assert!(output.contains("=="));
}

#[test]
fn test_disassemble_constant() {
    let mut chunk = Chunk::new();
    let idx = chunk
        .write_constant(Value::Number(format!("{}", 42.0_f64)))
        .unwrap();
    chunk.write_opcode(OpCode::Constant, 100);
    chunk.write_byte(idx, 100);

    let disassembler = Disassembler::new(&chunk, "constant test");
    let mut output = String::new();
    disassembler.write(&mut output).unwrap();

    assert!(output.contains("OP_CONSTANT"));
    assert!(output.contains("42"));
}

#[test]
fn test_disassemble_multiple_instructions() {
    let mut chunk = Chunk::new();

    // Line 1: Constant 1.2
    let constant_idx = chunk
        .write_constant(Value::Number(format!("{}", 1.2_f64)))
        .unwrap();
    chunk.write_opcode(OpCode::Constant, 1);
    chunk.write_byte(constant_idx, 1);

    // Line 1: Return (should show |)
    chunk.write_opcode(OpCode::Return, 1);

    // Line 2: Return (should show 2)
    chunk.write_opcode(OpCode::Return, 2);

    let disassembler = Disassembler::new(&chunk, "test chunk");
    let mut output = String::new();
    disassembler.write(&mut output).unwrap();

    let lines: Vec<&str> = output.trim().lines().collect();

    assert_eq!(lines[0], "== test chunk ==");

    // 0000    1 OP_CONSTANT         0 '1.2'
    assert!(lines[1].contains("0000"));
    assert!(lines[1].contains("1 OP_CONSTANT"));
    assert!(lines[1].contains("1.2"));

    // 0002    | OP_RETURN
    assert!(lines[2].contains("0002"));
    assert!(lines[2].contains("| OP_RETURN"));

    // 0003    2 OP_RETURN
    assert!(lines[3].contains("0003"));
    assert!(lines[3].contains("2 OP_RETURN"));
}

#[test]
fn test_disassemble_exact_output() {
    let mut chunk = Chunk::new();
    let constant_idx = chunk
        .write_constant(Value::Number(format!("{}", 1.2_f64)))
        .unwrap();
    chunk.write_opcode(OpCode::Constant, 1);
    chunk.write_byte(constant_idx, 1);
    chunk.write_opcode(OpCode::Return, 1);
    chunk.write_opcode(OpCode::Return, 2);

    let disassembler = Disassembler::new(&chunk, "test chunk");
    let mut output = String::new();
    disassembler.write(&mut output).unwrap();

    assert_eq!(
        output,
        "== test chunk ==\n\
         0000    1 OP_CONSTANT         0 '1.2'\n\
         0002    | OP_RETURN\n\
         0003    2 OP_RETURN\n"
    );
}

#[test]
fn test_disassemble_return_exact_output() {
    let mut chunk = Chunk::new();
    chunk.write_opcode(OpCode::Return, 123);

    let disassembler = Disassembler::new(&chunk, "test chunk");
    let mut output = String::new();
    disassembler.write(&mut output).unwrap();

    assert_eq!(output, "== test chunk ==\n0000  123 OP_RETURN\n");
}

#[test]
fn test_unknown_opcode_stops_rendering() {
    let mut chunk = Chunk::new();
    chunk.write_opcode(OpCode::Return, 1);
    chunk.write_byte(7, 2);
    chunk.write_opcode(OpCode::Return, 3);

    let disassembler = Disassembler::new(&chunk, "bad");
    let mut output = String::new();
    let err = disassembler.write(&mut output).unwrap_err();

    assert!(matches!(err, DisassembleError::UnknownOpcode(UnknownOpcode(7))));
    assert_eq!(err.message(), "Unknown opcode: 7");
    // Output already rendered stays; the bad instruction and everything
    // after it is absent.
    assert_eq!(output, "== bad ==\n0000    1 OP_RETURN\n");
}

#[test]
fn test_missing_operand_error() {
    let mut chunk = Chunk::new();
    chunk.write_opcode(OpCode::Constant, 1);

    let disassembler = Disassembler::new(&chunk, "bad");
    let mut output = String::new();
    let err = disassembler.write(&mut output).unwrap_err();

    assert!(matches!(err, DisassembleError::MissingOperand { offset: 0 }));
    assert_eq!(err.message(), "Missing operand at offset 0");
    assert_eq!(output, "== bad ==\n");
}

#[test]
fn test_invalid_constant_index_error() {
    let mut chunk = Chunk::new();
    chunk.write_opcode(OpCode::Constant, 1);
    chunk.write_byte(9, 1);

    let disassembler = Disassembler::new(&chunk, "bad");
    let mut output = String::new();
    let err = disassembler.write(&mut output).unwrap_err();

    assert!(matches!(err, DisassembleError::InvalidConstantIndex { index: 9 }));
    assert_eq!(err.message(), "Invalid constant index: 9");
    assert_eq!(output, "== bad ==\n");
}

#[test]
fn test_wide_line_numbers_and_offsets() {
    let mut chunk = Chunk::new();
    for _ in 0..12 {
        chunk.write_opcode(OpCode::Return, 43210);
    }

    let disassembler = Disassembler::new(&chunk, "wide");
    let mut output = String::new();
    disassembler.write(&mut output).unwrap();

    let lines: Vec<&str> = output.trim().lines().collect();
    // The first instruction shows the full five-digit line number; the rest
    // of the instructions continue the same line.
    assert_eq!(lines[1], "0000 43210 OP_RETURN");
    assert_eq!(lines[2], "0001    | OP_RETURN");
    assert_eq!(lines[11], "0010    | OP_RETURN");
}
