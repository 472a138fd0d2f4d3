use rlox::chunk::ChunkBuilder;
use rlox::function::{Closure, FunctionBuilder, FunctionType, ObjUpvalue, UpvalueLocation};
use rlox::heap::Heap;
use rlox::intern_string::SymbolTable;
use rlox::opcodes::OpCode;
use rlox::value::{Printed, Value};
use rlox::vm::{CallFrame, InterpretResult, Request, VM};

fn machine(write: fn(&mut ChunkBuilder, &mut SymbolTable)) -> VM {
    let mut heap = Heap::new();
    let mut symbols = SymbolTable::new();
    let mut function = FunctionBuilder::new(None, 0, FunctionType::Script);
    write(&mut function.builder, &mut symbols);
    let script = function.build(&mut heap);
    VM::new(Closure::new(script), symbols, heap)
}

fn number(value: f64) -> Value {
    Value::Double(value.to_bits())
}

#[test]
fn the_machine_asks_its_host_for_sums() {
    let mut vm = machine(|code, _| {
        code.write_opcode(OpCode::Constant, 1);
        let a = code.add_constant(Value::Double(1.5f64.to_bits()));
        code.write_index(a as u8);
        code.write_opcode(OpCode::Constant, 1);
        let b = code.add_constant(Value::Double(2.5f64.to_bits()));
        code.write_index(b as u8);
        code.write_opcode(OpCode::Add, 1);
        code.write_opcode(OpCode::Print, 1);
        code.write_opcode(OpCode::Nil, 2);
        code.write_opcode(OpCode::Return, 2);
    });
    assert_eq!(vm.stack.len(), 1);
    assert_eq!(vm.frames, vec![CallFrame::new(rlox::function::ClosureRef { index: 0 }, 0, 0)]);
    assert!(matches!(vm.step(), Request::Continue));
    assert!(matches!(vm.step(), Request::Continue));
    assert_eq!(vm.stack.len(), 3);
    match vm.step() {
        Request::Arithmetic(OpCode::Add, a, b) => {
            assert_eq!(f64::from_bits(a), 1.5);
            assert_eq!(f64::from_bits(b), 2.5);
        }
        _ => panic!("expected a request for a sum"),
    }
    assert!(vm.awaiting);
    assert_eq!(vm.stack.len(), 1);
    assert!(matches!(vm.step(), Request::Corrupt));
    assert!(matches!(vm.resume(number(4.0), 0), Request::Continue));
    assert!(!vm.awaiting);
    assert!(matches!(vm.resume(number(4.0), 0), Request::Corrupt));
    match vm.step() {
        Request::Print(Printed::Number(bits)) => assert_eq!(f64::from_bits(bits), 4.0),
        _ => panic!("expected a request to print"),
    }
    assert!(matches!(vm.run(10), Request::Finished));
    assert!(vm.stack.is_empty());
    assert!(vm.frames.is_empty());
    assert!(matches!(vm.step(), Request::Corrupt));
}

#[test]
fn a_budget_bounds_a_run() {
    let mut vm = machine(|code, _| {
        code.write_opcode(OpCode::Nil, 1);
        code.write_opcode(OpCode::Pop, 1);
        code.write_opcode(OpCode::Loop, 1);
        code.write_address(5);
    });
    assert!(matches!(vm.run(0), Request::Continue));
    assert_eq!(vm.frames[0].get_ip(), 0);
    assert!(matches!(vm.run(3), Request::Continue));
    assert_eq!(vm.frames[0].get_ip(), 0);
    assert!(matches!(vm.run(1000), Request::Continue));
    assert_eq!(vm.frames[0].get_ip(), 1);
    assert!(matches!(vm.interpret(7), Request::Continue));
    assert_eq!(vm.frames[0].get_ip(), 2);
}

#[test]
fn broken_code_is_corrupt() {
    let mut missing_operand = machine(|code, _| {
        code.write_opcode(OpCode::Constant, 1);
    });
    assert!(matches!(missing_operand.step(), Request::Corrupt));

    let mut missing_constant = machine(|code, _| {
        code.write_opcode(OpCode::Constant, 1);
        code.write_index(9);
    });
    assert!(matches!(missing_constant.step(), Request::Corrupt));

    let mut empty_stack = machine(|code, _| {
        code.write_opcode(OpCode::Pop, 1);
        code.write_opcode(OpCode::Pop, 1);
    });
    assert!(matches!(empty_stack.step(), Request::Continue));
    assert!(matches!(empty_stack.step(), Request::Corrupt));

    let mut no_code = machine(|_, _| {});
    assert!(matches!(no_code.step(), Request::Corrupt));

    let mut name_is_no_string = machine(|code, _| {
        code.write_opcode(OpCode::GetGlobal, 1);
        let index = code.add_constant(Value::Nil);
        code.write_index(index as u8);
    });
    assert!(matches!(name_is_no_string.step(), Request::Corrupt));

    let mut far_local = machine(|code, _| {
        code.write_opcode(OpCode::GetLocal, 1);
        code.write_index(5);
    });
    assert!(matches!(far_local.step(), Request::Corrupt));

    let mut jump_back_too_far = machine(|code, _| {
        code.write_opcode(OpCode::Loop, 1);
        code.write_address(9);
    });
    assert!(matches!(jump_back_too_far.step(), Request::Corrupt));
}

#[test]
fn a_runtime_error_empties_the_stacks_and_leaves_a_report() {
    let mut vm = machine(|code, _| {
        code.write_opcode(OpCode::Nil, 3);
        code.write_opcode(OpCode::Negate, 4);
    });
    assert!(matches!(vm.step(), Request::Continue));
    assert!(matches!(vm.step(), Request::Failed(InterpretResult::RuntimeError)));
    assert!(vm.stack.is_empty());
    assert!(vm.frames.is_empty());
    let report = vm.report.as_ref().unwrap();
    assert_eq!(report.message, "Operand must be a number.");
    assert_eq!(report.trace.len(), 1);
    assert_eq!(report.trace[0].line, 4);
    assert!(report.trace[0].function.is_none());
    assert_eq!(report.render(), vec!["[line 4] in script: Operand must be a number."]);
}

#[test]
fn jumps_move_the_instruction_pointer() {
    let mut vm = machine(|code, _| {
        code.write_opcode(OpCode::False, 1);
        code.write_opcode(OpCode::JumpIfFalse, 1);
        code.write_address(1);
        code.write_opcode(OpCode::Nil, 1);
        code.write_opcode(OpCode::True, 1);
        code.write_opcode(OpCode::JumpIfFalse, 1);
        code.write_address(7);
        code.write_opcode(OpCode::Jump, 1);
        code.write_address(0x0102);
    });
    vm.step();
    assert!(matches!(vm.step(), Request::Continue));
    assert_eq!(vm.frames[0].get_ip(), 5);
    vm.step();
    assert!(matches!(vm.step(), Request::Continue));
    assert_eq!(vm.frames[0].get_ip(), 9);
    assert!(matches!(vm.step(), Request::Continue));
    assert_eq!(vm.frames[0].get_ip(), 12 + 0x0102);
    assert_eq!(vm.stack.len(), 3);
}

#[test]
fn globals_are_defined_read_and_written() {
    let mut vm = machine(|code, symbols| {
        let name = code.add_constant(Value::String(symbols.intern(String::from("g")))) as u8;
        code.write_opcode(OpCode::True, 1);
        code.write_opcode(OpCode::DefineGlobal, 1);
        code.write_index(name);
        code.write_opcode(OpCode::False, 1);
        code.write_opcode(OpCode::SetGlobal, 1);
        code.write_index(name);
        code.write_opcode(OpCode::GetGlobal, 1);
        code.write_index(name);
        code.write_opcode(OpCode::Equal, 1);
    });
    assert!(matches!(vm.run(2), Request::Continue));
    assert_eq!(vm.stack.len(), 1);
    assert_eq!(vm.globals.len(), 2);
    assert!(matches!(vm.run(2), Request::Continue));
    assert_eq!(vm.stack.len(), 2);
    assert!(matches!(vm.run(2), Request::Continue));
    assert_eq!(vm.stack.len(), 2);
    assert!(vm.stack[1].equals(&Value::Bool(true)));
}

#[test]
fn capturing_a_slot_twice_gives_one_cell() {
    let mut vm = machine(|code, _| {
        code.write_opcode(OpCode::Nil, 1);
    });
    vm.push(number(1.0));
    vm.push(number(2.0));
    let first = vm.capture_upvalue(1);
    let other = vm.capture_upvalue(2);
    let second = vm.capture_upvalue(1);
    assert_eq!(first, second);
    assert_ne!(first, other);
    assert_eq!(vm.open_upvalues, vec![first, other]);
    assert!(matches!(first.get_location(&vm.heap), UpvalueLocation::Stack(1)));
}

#[test]
fn closing_moves_the_value_into_the_cell() {
    let mut vm = machine(|code, _| {
        code.write_opcode(OpCode::Nil, 1);
    });
    vm.push(number(1.0));
    vm.push(number(2.0));
    let low = vm.capture_upvalue(1);
    let high = vm.capture_upvalue(2);
    assert!(vm.close_upvalues(2));
    assert_eq!(vm.open_upvalues, vec![low]);
    assert!(matches!(low.get_location(&vm.heap), UpvalueLocation::Stack(1)));
    match high.get_location(&vm.heap) {
        UpvalueLocation::Heap(value) => assert!(value.equals(&number(2.0))),
        _ => panic!("expected a closed cell"),
    }
    vm.drop_values(2);
    match high.get_location(&vm.heap) {
        UpvalueLocation::Heap(value) => assert!(value.equals(&number(2.0))),
        _ => panic!("expected a closed cell"),
    }
    let dangling = ObjUpvalue::new(&mut vm.heap, UpvalueLocation::Stack(9));
    vm.open_upvalues.push(dangling);
    assert!(!vm.close_upvalues(0));
    assert_eq!(vm.open_upvalues.len(), 2);
}

#[test]
fn frames_keep_their_place() {
    let mut frame = CallFrame::new(rlox::function::ClosureRef { index: 2 }, 5, 7);
    assert_eq!(frame.get_closure(), rlox::function::ClosureRef { index: 2 });
    assert_eq!(frame.get_ip(), 5);
    assert_eq!(frame.get_slots(), 7);
    frame.inc_ip(3);
    assert_eq!(frame.get_ip(), 8);
    frame.dec_ip(8);
    assert_eq!(frame.get_ip(), 0);
    frame.set_ip(4);
    assert_eq!(frame.get_ip(), 4);
}
