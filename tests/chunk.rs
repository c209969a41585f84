use rlox::chunk::{Chunk, MAX_CONSTANTS};
use rlox::debug::{header, render_instruction, Decoded, Disassembled, LineMark};
use rlox::operation::Operation;
use rlox::scanner::{Token, TokenType};

#[test]
fn write_keeps_code_and_lines_in_step() {
    let mut c = Chunk::<f64>::new();
    c.write(Operation::Return.to_byte(), 7);
    c.write(Operation::Negate.to_byte(), 8);
    assert_eq!(c.code_count(), 2);
    assert_eq!(c.instruction(0), 0);
    assert_eq!(c.instruction(1), 2);
    assert_eq!(c.line(0), 7);
    assert_eq!(c.line(1), 8);
}

#[test]
fn add_constant_indices_increase_up_to_pool_limit() {
    let mut c = Chunk::<f64>::new();
    for i in 0..MAX_CONSTANTS {
        assert_eq!(c.add_constant(i as f64), i as u8);
        assert_eq!(c.constant_count(), i + 1);
    }
    assert_eq!(c.constant_count(), 256);
    assert_eq!(c.constant(255), 255.0);
}

#[test]
fn operation_bytes_round_trip() {
    let ops = [
        Operation::Return,
        Operation::Constant,
        Operation::Negate,
        Operation::Add,
        Operation::Subtract,
        Operation::Multiply,
        Operation::Divide,
    ];
    for (i, op) in ops.iter().enumerate() {
        assert_eq!(op.to_byte(), i as u8);
        assert_eq!(Operation::try_from_byte(i as u8), Ok(*op));
    }
    let b: u8 = Operation::Divide.into();
    assert_eq!(b, 6);
    assert_eq!(Operation::try_from_byte(7), Err(7));
    assert_eq!(Operation::try_from_byte(255), Err(255));
    assert_eq!(Operation::Constant.width(), 2);
    assert_eq!(Operation::Add.width(), 1);
}

fn constant_return_chunk() -> Chunk<f64> {
    let mut c = Chunk::new();
    let index = c.add_constant(1.2);
    c.write(Operation::Constant.to_byte(), 123);
    c.write(index, 123);
    c.write(Operation::Return.to_byte(), 123);
    c
}

#[test]
fn disassembles_constant_then_return() {
    let c = constant_return_chunk();
    let listing = c.disassemble();
    assert_eq!(listing.len(), 2);
    assert_eq!(
        listing[0],
        Disassembled { offset: 0, line: LineMark::Line(123), decoded: Decoded::Constant(0), next: 2 }
    );
    assert_eq!(
        listing[1],
        Disassembled {
            offset: 2,
            line: LineMark::Continued,
            decoded: Decoded::Simple(Operation::Return),
            next: 3
        }
    );
    let value = format!("{}", c.constant(0));
    assert_eq!(render_instruction(&listing[0], &value), "0000  123 OP_CONSTANT      0 '1.2'");
    assert_eq!(render_instruction(&listing[1], ""), "0002    | OP_RETURN");
    assert_eq!(header("test chunk"), "== test chunk ==");
}

#[test]
fn unknown_opcode_is_width_one() {
    let mut c = Chunk::<f64>::new();
    c.write(42, 1);
    c.write(Operation::Return.to_byte(), 2);
    let listing = c.disassemble();
    assert_eq!(listing.len(), 2);
    assert_eq!(listing[0].decoded, Decoded::Unknown(42));
    assert_eq!(listing[0].next, 1);
    assert_eq!(render_instruction(&listing[0], ""), "0000    1 Unknown opcode 42");
    assert_eq!(render_instruction(&listing[1], ""), "0001    2 OP_RETURN");
}

#[test]
fn truncated_constant_ends_listing() {
    let mut c = Chunk::<f64>::new();
    c.write(Operation::Negate.to_byte(), 3);
    c.write(Operation::Constant.to_byte(), 3);
    let listing = c.disassemble();
    assert_eq!(listing.len(), 2);
    assert_eq!(listing[1].decoded, Decoded::Truncated(Operation::Constant));
    assert_eq!(listing[1].next, 3);
    assert_eq!(render_instruction(&listing[1], ""), "0001    | OP_CONSTANT");
}

#[test]
fn constant_operand_without_pool_entry_is_flagged() {
    let mut c = Chunk::<f64>::new();
    c.add_constant(0.5);
    c.write(Operation::Constant.to_byte(), 9);
    c.write(1, 9);
    let listing = c.disassemble();
    assert_eq!(listing.len(), 1);
    assert_eq!(listing[0].decoded, Decoded::MissingConstant(1));
    assert_eq!(listing[0].next, 2);
    assert_eq!(render_instruction(&listing[0], ""), "0000    9 OP_CONSTANT      1 <missing>");
}

#[test]
fn empty_chunk_has_empty_listing() {
    let c = Chunk::<f64>::new();
    assert!(c.disassemble().is_empty());
}

#[test]
fn wide_offsets_and_lines_are_not_cut() {
    let d = Disassembled {
        offset: 12345,
        line: LineMark::Line(67890),
        decoded: Decoded::Simple(Operation::Multiply),
        next: 12346,
    };
    assert_eq!(render_instruction(&d, ""), "12345 67890 OP_MULTIPLY");
}

#[test]
fn new_token_has_kind_and_line() {
    let _ = Token::new(TokenType::Plus, 4);
    assert_ne!(TokenType::Plus, TokenType::Minus);
}
