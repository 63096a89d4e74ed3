use bytecode::opcode::OpCode;
use bytecode::opcode::UnknownOpcode;

#[test]
fn test_display() {
    assert_eq!(OpCode::Return.name(), "OP_RETURN");
    assert_eq!(OpCode::Constant.name(), "OP_CONSTANT");
}

#[test]
fn test_from_u8_valid() {
    assert!(matches!(OpCode::try_from(0), Ok(OpCode::Return)));
    assert!(matches!(OpCode::try_from(1), Ok(OpCode::Constant)));
}

#[test]
fn test_from_u8_unknown() {
    for byte in 2..=255u8 {
        assert!(matches!(OpCode::try_from(byte), Err(UnknownOpcode(b)) if b == byte));
    }
}

#[test]
fn test_tags_round_trip() {
    assert_eq!(OpCode::Return.tag(), 0);
    assert_eq!(OpCode::Constant.tag(), 1);
    assert!(matches!(OpCode::try_from(OpCode::Return.tag()), Ok(OpCode::Return)));
    assert!(matches!(OpCode::try_from(OpCode::Constant.tag()), Ok(OpCode::Constant)));
}

#[test]
fn test_unknown_opcode_message() {
    assert_eq!(UnknownOpcode(7).message(), "Unknown opcode: 7");
    assert_eq!(UnknownOpcode(255).message(), "Unknown opcode: 255");
}
