use rlox::classes::{BoundMethod, BoundMethodRef, Clazz, ClazzRef, Instance, InstanceRef};
use rlox::function::{
    Closure, ClosureRef, Function, FunctionBuilder, FunctionInner, FunctionType, NativeFunction,
    ObjUpvalue, UpvalueLocation,
};
use rlox::heap::Heap;
use rlox::intern_string::SymbolTable;
use rlox::table::Table;
use rlox::text::{decimal_chars, decimal_string, pad_left};
use rlox::value::{
    double_equal, double_is_nan, double_less, double_negate, Printed, Value,
};
use rlox::{Error, Output};

fn samples() -> Vec<f64> {
    vec![
        0.0,
        -0.0,
        1.0,
        -1.0,
        0.5,
        -0.5,
        2.0,
        1e300,
        -1e300,
        5e-324,
        -5e-324,
        f64::MAX,
        f64::MIN,
        f64::INFINITY,
        f64::NEG_INFINITY,
        f64::NAN,
        -f64::NAN,
    ]
}

#[test]
fn numbers_compare_as_ieee_says() {
    for a in samples() {
        for b in samples() {
            assert_eq!(double_less(a.to_bits(), b.to_bits()), a < b, "{} < {}", a, b);
            assert_eq!(double_equal(a.to_bits(), b.to_bits()), a == b, "{} == {}", a, b);
        }
    }
}

#[test]
fn negation_flips_the_sign() {
    for a in samples() {
        let negated = f64::from_bits(double_negate(a.to_bits()));
        assert_eq!(double_is_nan(a.to_bits()), a.is_nan());
        if a.is_nan() {
            assert!(negated.is_nan());
        } else {
            assert_eq!(negated.to_bits(), (-a).to_bits());
        }
    }
}

#[test]
fn only_nil_and_false_are_falsy() {
    let mut table = SymbolTable::new();
    assert!(Value::Nil.is_falsy());
    assert!(Value::Bool(false).is_falsy());
    assert!(!Value::Bool(true).is_falsy());
    assert!(!Value::Double(0.0f64.to_bits()).is_falsy());
    assert!(!Value::String(table.intern(String::new())).is_falsy());
    assert!(!Value::Class(ClazzRef { index: 0 }).is_falsy());
}

#[test]
fn values_are_equal_by_content_or_identity() {
    let mut table = SymbolTable::new();
    let a = Value::String(table.intern(String::from("a")));
    let also_a = Value::String(table.intern(String::from("a")));
    let b = Value::String(table.intern(String::from("b")));
    assert!(a.equals(&also_a));
    assert!(!a.equals(&b));
    assert!(Value::Nil.equals(&Value::Nil));
    assert!(!Value::Nil.equals(&Value::Bool(false)));
    assert!(Value::Bool(true).equals(&Value::Bool(true)));
    assert!(!Value::Bool(true).equals(&Value::Bool(false)));
    assert!(Value::Double(1.0f64.to_bits()).equals(&Value::Double(1.0f64.to_bits())));
    assert!(!Value::Double(1.0f64.to_bits()).equals(&Value::Double(2.0f64.to_bits())));
    assert!(!Value::Double(1.0f64.to_bits()).equals(&a));
    assert!(Value::Instance(InstanceRef { index: 3 }).equals(&Value::Instance(InstanceRef { index: 3 })));
    assert!(!Value::Instance(InstanceRef { index: 3 }).equals(&Value::Instance(InstanceRef { index: 4 })));
    assert!(!Value::Instance(InstanceRef { index: 3 }).equals(&Value::Class(ClazzRef { index: 3 })));
    assert!(Value::Closure(ClosureRef { index: 1 }).equals(&Value::Closure(ClosureRef { index: 1 })));
    assert!(Value::Function(Function { index: 1 }).equals(&Value::Function(Function { index: 1 })));
    assert!(!Value::Function(Function { index: 1 }).equals(&Value::Closure(ClosureRef { index: 1 })));
    assert!(Value::BoundMethod(BoundMethodRef { index: 0 }).equals(&Value::BoundMethod(BoundMethodRef { index: 0 })));
    assert!(Value::NativeFunction(NativeFunction::new(0, 0)).equals(&Value::NativeFunction(NativeFunction::new(0, 2))));
    assert!(!Value::NativeFunction(NativeFunction::new(0, 0)).equals(&Value::NativeFunction(NativeFunction::new(1, 0))));
    assert!(a.clone().equals(&a));
}

fn text(piece: Printed) -> String {
    match piece {
        Printed::Text(text) => text,
        Printed::Number(bits) => f64::from_bits(bits).to_string(),
    }
}

#[test]
fn values_show_by_their_kind() {
    let mut table = SymbolTable::new();
    let mut heap = Heap::new();
    let script = FunctionBuilder::new(None, 0, FunctionType::Script).build(&mut heap);
    let named = FunctionBuilder::new(Some(table.intern(String::from("f"))), 2, FunctionType::Function)
        .build(&mut heap);
    let closure = heap.new_closure(Closure::new(named));
    let class = ClazzRef::new(&mut heap, Clazz::new(table.intern(String::from("Point"))));
    let instance = InstanceRef::new(&mut heap, Instance::new(class));
    let bound = heap.new_bound_method(BoundMethod::new(Value::Instance(instance), closure));

    assert_eq!(text(heap.display(&Value::Nil)), "nil");
    assert_eq!(text(heap.display(&Value::Bool(true))), "true");
    assert_eq!(text(heap.display(&Value::Bool(false))), "false");
    assert_eq!(text(heap.display(&Value::Double(2.5f64.to_bits()))), "2.5");
    assert_eq!(text(heap.display(&Value::String(table.intern(String::from("s"))))), "s");
    assert_eq!(text(heap.display(&Value::Function(script))), "<fn <script>>");
    assert_eq!(text(heap.display(&Value::Function(named))), "<fn f>");
    assert_eq!(text(heap.display(&Value::NativeFunction(NativeFunction::new(0, 0)))), "<native fn>");
    assert_eq!(text(heap.display(&Value::Closure(closure))), "<fn f>");
    assert_eq!(text(heap.display(&Value::Class(class))), "Point");
    assert_eq!(text(heap.display(&Value::Instance(instance))), "Point instance");
    assert_eq!(text(heap.display(&Value::BoundMethod(bound))), "<fn f>");
    assert_eq!(text(heap.display(&Value::Class(ClazzRef { index: 99 }))), "");
}

#[test]
fn the_heap_hands_out_one_reference_after_the_other() {
    let mut table = SymbolTable::new();
    let mut heap = Heap::new();
    let first = FunctionBuilder::new(None, 0, FunctionType::Script).build(&mut heap);
    let second = FunctionBuilder::new(None, 3, FunctionType::Method).build(&mut heap);
    assert_eq!(first, Function { index: 0 });
    assert_eq!(second, Function { index: 1 });
    assert_eq!(second.get_arity(&heap), 3);
    assert_eq!(second.get_kind(&heap), FunctionType::Method);
    assert_eq!(second.get_upvalue_count(&heap), 0);
    assert!(second.get_name(&heap).is_none());
    assert_eq!(second.get_chunk(&heap).len(), 0);

    let mut closure = Closure::new(second);
    let cell = ObjUpvalue::new(&mut heap, UpvalueLocation::Stack(4));
    closure.push_upvalue(cell);
    assert_eq!(closure.get_function(), second);
    assert_eq!(closure.get_upvalue_at(0), cell);
    assert_eq!(closure.upvalue_count(&heap), 0);
    assert!(matches!(cell.get_location(&heap), UpvalueLocation::Stack(4)));
    cell.set_location(&mut heap, UpvalueLocation::Heap(Value::Bool(true)));
    assert!(matches!(cell.get_location(&heap), UpvalueLocation::Heap(Value::Bool(true))));
    cell.set_location_value(&mut heap, Value::Nil);
    assert!(matches!(cell.get_location(&heap), UpvalueLocation::Heap(Value::Nil)));

    let class = ClazzRef::new(&mut heap, Clazz::new(table.intern(String::from("C"))));
    assert_eq!(class.get_clazz(&heap).get_name().as_str(), "C");
    let instance = InstanceRef::new(&mut heap, Instance::new(class));
    assert_eq!(instance.get_instance(&heap).get_clazz_ref(), class);
    let bound = BoundMethod::new(Value::Instance(instance), ClosureRef { index: 0 });
    assert_eq!(bound.get_closure(), ClosureRef { index: 0 });
    assert!(bound.get_receiver().equals(&Value::Instance(instance)));
}

#[test]
fn function_builders_keep_their_header() {
    let mut table = SymbolTable::new();
    let mut builder = FunctionBuilder::new(None, 1, FunctionType::Function);
    assert!(builder.get_name().is_none());
    builder.set_name(table.intern(String::from("g")));
    builder.inc_arity(2);
    builder.set_kind(FunctionType::Initializer);
    builder.inc_upvalue_count();
    assert_eq!(builder.get_name().unwrap().as_str(), "g");
    assert_eq!(builder.get_arity(), 3);
    assert_eq!(builder.get_kind(), FunctionType::Initializer);
    assert_eq!(builder.get_upvalue_count(), 1);
    let mut heap = Heap::new();
    let function = builder.build(&mut heap);
    let inner: &FunctionInner = &heap.functions[function.index];
    assert_eq!(inner.get_arity(), 3);
    assert_eq!(inner.get_kind(), FunctionType::Initializer);
    assert_eq!(inner.get_upvalue_count(), 1);
    assert_eq!(inner.get_name().unwrap().as_str(), "g");
    assert_eq!(inner.get_chunk().len(), 0);
    assert_eq!(NativeFunction::new(7, 2).get_arity(), 2);
}

#[test]
fn a_table_holds_the_last_value_of_each_key() {
    let mut symbols = SymbolTable::new();
    let mut table: Table<u32> = Table::new();
    assert_eq!(table.len(), 0);
    assert!(table.get(&symbols.intern(String::from("a"))).is_none());
    table.insert(symbols.intern(String::from("a")), 1);
    table.insert(symbols.intern(String::from("b")), 2);
    table.insert(symbols.intern(String::from("a")), 3);
    assert_eq!(table.len(), 2);
    assert_eq!(table.get(&symbols.intern(String::from("a"))), Some(&3));
    assert_eq!(table.get(&symbols.intern(String::from("b"))), Some(&2));
    assert_eq!(table.find(&symbols.intern(String::from("b"))), Some(1));
    assert_eq!(table.find(&symbols.intern(String::from("c"))), None);
}

#[test]
fn classes_and_instances_keep_methods_and_fields() {
    let mut symbols = SymbolTable::new();
    let mut class = Clazz::new(symbols.intern(String::from("C")));
    let m = symbols.intern(String::from("m"));
    assert!(class.get_method(&m).is_none());
    class.set_method(m.clone(), ClosureRef { index: 1 });
    class.set_method(m.clone(), ClosureRef { index: 2 });
    assert_eq!(class.get_method(&m), Some(ClosureRef { index: 2 }));
    assert_eq!(class.get_methods().len(), 1);

    let mut instance = Instance::new(ClazzRef { index: 0 });
    assert!(instance.get_value(&m).is_none());
    instance.set_value(m.clone(), Value::Bool(true));
    assert!(instance.get_value(&m).unwrap().equals(&Value::Bool(true)));
}

#[test]
fn numbers_are_written_in_decimal() {
    assert_eq!(decimal_string(0), "0");
    assert_eq!(decimal_string(7), "7");
    assert_eq!(decimal_string(10), "10");
    assert_eq!(decimal_string(65535), "65535");
    assert_eq!(decimal_chars(120), vec!['1', '2', '0']);
    let padded: String = pad_left(&decimal_chars(42), 4, '0').iter().collect();
    assert_eq!(padded, "0042");
    let wide: String = pad_left(&decimal_chars(12345), 4, ' ').iter().collect();
    assert_eq!(wide, "12345");
    let blank: String = pad_left(&decimal_chars(3), 4, ' ').iter().collect();
    assert_eq!(blank, "   3");
}

#[test]
fn failures_have_their_exit_codes() {
    assert_eq!(Error::IO.get_error_code(), 74);
    assert_eq!(Error::Compile.get_error_code(), 65);
    assert_eq!(Error::Run.get_error_code(), 70);
}

#[test]
fn the_sinks_come_back_as_they_went_in() {
    let output = Output::new(vec![1u8], String::from("out"), 3u32);
    assert_eq!(output.decompose(), (vec![1u8], String::from("out"), 3u32));
}
