use rlox::chunk::{ChunkBuilder, CodeUnit, LineInfo};
use rlox::heap::Heap;
use rlox::opcodes::{IndexesPerOpCode, OpCode};
use rlox::value::{Printed, Value};

fn render(pieces: &[Printed]) -> String {
    let mut text = String::new();
    for piece in pieces {
        match piece {
            Printed::Text(part) => text.push_str(part),
            Printed::Number(bits) => text.push_str(&f64::from_bits(*bits).to_string()),
        }
    }
    text
}

#[test]
fn disassemble_constant() {
    let mut chunk_builder = ChunkBuilder::new();
    chunk_builder.write_opcode(OpCode::Constant, 0);
    chunk_builder.write_index(0);
    chunk_builder.add_constant(Value::Double(2.0f64.to_bits()));

    let heap = Heap::new();
    let pieces = chunk_builder.build().disassemble("test chunk", &heap);
    let result = render(&pieces);
    assert_eq!(result, "== test chunk ==\n0000    0 Constant    0 '2'\n")
}

fn check_stack_only_op(op: OpCode) {
    let mut chunk_builder = ChunkBuilder::new();
    chunk_builder.write_opcode(op, 0);
    let heap = Heap::new();
    let pieces = chunk_builder.build().disassemble("test chunk", &heap);
    let result = render(&pieces);
    assert_eq!(result, format!("== test chunk ==\n0000    0 {}\n", op.name()));
}

#[test]
fn disassemble_stack_only_op() {
    check_stack_only_op(OpCode::Add);
    check_stack_only_op(OpCode::Subtract);
    check_stack_only_op(OpCode::Negate);
    check_stack_only_op(OpCode::Multiply);
    check_stack_only_op(OpCode::Divide);
    check_stack_only_op(OpCode::Return);
}

#[test]
fn patch() {
    let mut chunk_builder = ChunkBuilder::new();
    chunk_builder.write_opcode(OpCode::Jump, 0);
    let patch = chunk_builder.write_patch();
    chunk_builder.write_opcode(OpCode::Return, 1);
    patch.apply(&mut chunk_builder, 0u16);
    let _ = chunk_builder.build();
}

#[test]
fn a_patch_writes_its_address_high_byte_first() {
    let mut builder = ChunkBuilder::new();
    builder.write_opcode(OpCode::Jump, 3);
    let patch = builder.write_patch();
    assert_eq!(patch.get_own_index(), 1);
    assert_eq!(builder.patch_count, 1);
    builder.write_opcode(OpCode::Return, 3);
    patch.apply(&mut builder, 0x1234);
    assert_eq!(builder.patch_count, 0);
    let chunk = builder.build();
    assert_eq!(chunk.get_code_unit(1).get_index(), 0x12);
    assert_eq!(chunk.get_code_unit(2).get_index(), 0x34);
    assert_eq!(chunk.address_at(1), Some(0x1234));
    assert_eq!(chunk.address_at(3), None);
}

#[test]
fn addresses_are_written_high_byte_first() {
    let mut builder = ChunkBuilder::new();
    builder.write_opcode(OpCode::Loop, 1);
    builder.write_address(0xabcd);
    let chunk = builder.build();
    assert_eq!(chunk.len(), 3);
    assert_eq!(chunk.get_code_unit(0).get_opcode(), OpCode::Loop);
    assert_eq!(chunk.index_at(1), Some(0xab));
    assert_eq!(chunk.index_at(2), Some(0xcd));
    assert_eq!(chunk.index_at(3), None);
}

#[test]
fn constants_are_found_again() {
    let mut builder = ChunkBuilder::new();
    assert_eq!(builder.add_constant(Value::Double(1.5f64.to_bits())), 0);
    assert_eq!(builder.add_constant(Value::Bool(true)), 1);
    assert_eq!(builder.add_constant(Value::Nil), 2);
    assert_eq!(builder.add_constant(Value::Double(1.5f64.to_bits())), 0);
    assert_eq!(builder.add_constant(Value::Nil), 2);
    assert_eq!(builder.add_constant(Value::Bool(false)), 3);
    let chunk = builder.build();
    assert!(chunk.get_value_at_index(1).equals(&Value::Bool(true)));
    assert!(chunk.constant_at(4).is_none());
}

#[test]
fn zero_and_minus_zero_share_a_constant_and_nan_does_not() {
    let mut builder = ChunkBuilder::new();
    assert_eq!(builder.add_constant(Value::Double(0.0f64.to_bits())), 0);
    assert_eq!(builder.add_constant(Value::Double((-0.0f64).to_bits())), 0);
    assert_eq!(builder.add_constant(Value::Double(f64::NAN.to_bits())), 1);
    assert_eq!(builder.add_constant(Value::Double(f64::NAN.to_bits())), 2);
}

#[test]
fn lines_are_kept_in_runs() {
    let mut builder = ChunkBuilder::new();
    builder.write_opcode(OpCode::Constant, 1);
    builder.write_index(0);
    builder.write_opcode(OpCode::Print, 1);
    builder.write_opcode(OpCode::Nil, 4);
    builder.write_opcode(OpCode::Return, 4);
    assert_eq!(builder.len(), 5);
    assert_eq!(builder.line(), 4);
    let chunk = builder.build();
    assert_eq!(chunk.lines.len(), 2);
    assert_eq!(chunk.lines[0], LineInfo::new(1, 3));
    assert_eq!(chunk.lines[1], LineInfo::new(4, 2));
    assert_eq!(chunk.get_source_code_line(0), 1);
    assert_eq!(chunk.get_source_code_line(2), 1);
    assert_eq!(chunk.get_source_code_line(3), 4);
    assert_eq!(chunk.get_source_code_line(4), 4);
    assert_eq!(chunk.line_of(5), None);
}

#[test]
fn line_runs_count() {
    let mut info = LineInfo::new(3, 1);
    assert_eq!(info.line(), 3);
    assert_eq!(info.count(), 1);
    info.inc_count();
    assert_eq!(info.count(), 2);
    info.set_count(9);
    assert_eq!(info.count(), 9);
    assert_eq!(info.line(), 3);
}

#[test]
fn opcodes_are_bytes() {
    for byte in 0..=255u8 {
        match OpCode::from_byte(byte) {
            Some(op) => {
                assert!(byte < 37);
                assert_eq!(op.to_byte(), byte);
                assert_eq!(CodeUnit::from_opcode(op).get_opcode(), op);
            }
            None => assert!(byte >= 37),
        }
    }
    assert_eq!(OpCode::Constant.to_byte(), 0);
    assert_eq!(OpCode::SuperInvoke.to_byte(), 36);
    assert_eq!(CodeUnit::from_index(200).opcode(), None);
    assert_eq!(CodeUnit::from_index(13).opcode(), Some(OpCode::Return));
}

#[test]
fn opcodes_ask_for_their_operands() {
    let table = IndexesPerOpCode::new();
    assert_eq!(table.get(OpCode::Constant), 1);
    assert_eq!(table.get(OpCode::Nil), 0);
    assert_eq!(table.get(OpCode::Jump), 2);
    assert_eq!(table.get(OpCode::JumpIfFalse), 2);
    assert_eq!(table.get(OpCode::Loop), 2);
    assert_eq!(table.get(OpCode::Invoke), 2);
    assert_eq!(table.get(OpCode::SuperInvoke), 2);
    assert_eq!(table.get(OpCode::Closure), 255);
    assert_eq!(table.get(OpCode::Inherit), 0);
    assert_eq!(table.get(OpCode::GetSuper), 1);
}

#[test]
fn disassemble_jumps_and_bytes() {
    let mut builder = ChunkBuilder::new();
    builder.write_opcode(OpCode::JumpIfFalse, 1);
    builder.write_address(2);
    builder.write_opcode(OpCode::GetLocal, 1);
    builder.write_index(7);
    builder.write_opcode(OpCode::Loop, 2);
    builder.write_address(8);
    let heap = Heap::new();
    let text = render(&builder.build().disassemble("jumps", &heap));
    assert_eq!(
        text,
        "== jumps ==\n\
         0000    1 JumpIfFalse    0 -> 5\n\
         0003    | GetLocal    7\n\
         0005    2 Loop    5 -> 0\n"
    );
}

#[test]
fn disassembly_stops_at_a_missing_operand() {
    let mut builder = ChunkBuilder::new();
    builder.write_opcode(OpCode::Nil, 1);
    builder.write_opcode(OpCode::Constant, 1);
    builder.write_index(9);
    let heap = Heap::new();
    let chunk = builder.build();
    assert!(chunk.disassemble_instruction(1, &heap).is_none());
    assert_eq!(render(&chunk.disassemble("cut", &heap)), "== cut ==\n0000    1 Nil\n");
}
