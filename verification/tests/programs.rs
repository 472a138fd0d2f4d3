use rlox::compile::parser::Parser;
use rlox::opcodes::OpCode;
use rlox::scanner::Scanner;
use rlox::tokens::TokenType;
use rlox::value::{Printed, Value};
use rlox::vm::{Request, VM};
use rlox::Error;

struct Outcome {
    result: Result<(), Error>,
    out: String,
    err: Vec<String>,
    diagnostics: Vec<String>,
}

fn show(piece: &Printed) -> String {
    match piece {
        Printed::Text(text) => text.clone(),
        Printed::Number(bits) => f64::from_bits(*bits).to_string(),
    }
}

fn run(source: &str) -> Outcome {
    let chars: Vec<char> = source.chars().collect();
    let tokens = Scanner::new(chars).parse();
    let numbers: Vec<u64> = tokens
        .iter()
        .map(|token| {
            if token.get_token_type() == TokenType::Number {
                token.get_lexeme_string().parse::<f64>().unwrap().to_bits()
            } else {
                0
            }
        })
        .collect();
    let mut outcome = Outcome {
        result: Ok(()),
        out: String::new(),
        err: Vec::new(),
        diagnostics: Vec::new(),
    };
    let (closure, symbols, heap) = match Parser::new(tokens, numbers).compile() {
        Ok(compiled) => compiled,
        Err(errors) => {
            outcome.result = Err(Error::Compile);
            outcome.diagnostics = errors.iter().map(|error| error.render()).collect();
            return outcome;
        }
    };
    let mut vm = VM::new(closure, symbols, heap);
    let budget = 100_000;
    let mut request = vm.interpret(budget);
    loop {
        request = match request {
            Request::Continue => vm.interpret(budget),
            Request::Finished => return outcome,
            Request::Print(piece) => {
                outcome.out.push_str(&show(&piece));
                outcome.out.push('\n');
                vm.interpret(budget)
            }
            Request::Arithmetic(opcode, left, right) => {
                let (a, b) = (f64::from_bits(left), f64::from_bits(right));
                let result = match opcode {
                    OpCode::Add => a + b,
                    OpCode::Subtract => a - b,
                    OpCode::Multiply => a * b,
                    OpCode::Divide => a / b,
                    _ => unreachable!(),
                };
                vm.resume(Value::Double(result.to_bits()), budget)
            }
            Request::Native(_, _) => vm.resume(Value::Double(1.0f64.to_bits()), budget),
            Request::Failed(_) => {
                outcome.result = Err(Error::Run);
                outcome.err = vm.report.as_ref().unwrap().render();
                return outcome;
            }
            Request::Corrupt => panic!("the compiler wrote code that the machine cannot run"),
        };
    }
}

fn prints(source: &str) -> String {
    let outcome = run(source);
    assert_eq!(outcome.result, Ok(()), "{:?} {:?}", outcome.diagnostics, outcome.err);
    outcome.out
}

fn diagnostics_of(source: &str) -> Vec<String> {
    let outcome = run(source);
    assert_eq!(outcome.result, Err(Error::Compile));
    outcome.diagnostics
}

fn runtime_error(source: &str) -> (String, Vec<String>) {
    let outcome = run(source);
    assert_eq!(outcome.result, Err(Error::Run));
    (outcome.out, outcome.err)
}

#[test]
fn arithmetic_follows_precedence() {
    assert_eq!(prints("print 1 + 2 * 3;"), "7\n");
    assert_eq!(prints("print (1 + 2) * 3;"), "9\n");
    assert_eq!(prints("print 8 / 2 - 1;"), "3\n");
    assert_eq!(prints("print -2 * -3;"), "6\n");
    assert_eq!(prints("print 1 - 2 - 3;"), "-4\n");
    assert_eq!(prints("print 0.5 + 0.25;"), "0.75\n");
}

#[test]
fn an_inner_variable_shadows_an_outer_one() {
    assert_eq!(prints("var a=1; { var a=2; print a; } print a;"), "2\n1\n");
}

#[test]
fn functions_call_themselves() {
    assert_eq!(
        prints("fun fib(n){ if (n<2) return n; return fib(n-1)+fib(n-2);} print fib(10);"),
        "55\n"
    );
}

#[test]
fn a_closure_keeps_its_variable() {
    assert_eq!(
        prints("fun outer(){ var x=\"outer\"; fun inner(){ print x; } return inner; } outer()();"),
        "outer\n"
    );
}

#[test]
fn methods_are_called_on_instances() {
    assert_eq!(
        prints("class Bagel{ eat(){ print \"Crunch!\"; } } Bagel().eat();"),
        "Crunch!\n"
    );
}

#[test]
fn super_calls_the_method_of_the_superclass() {
    assert_eq!(
        prints(
            "class A{ m(){ print \"A\"; } } class B < A { m(){ super.m(); print \"B\"; } } B().m();"
        ),
        "A\nB\n"
    );
}

#[test]
fn prints_come_out_in_order() {
    assert_eq!(
        prints("print 1; print \"two\"; print nil; print true; print false; print 3.5;"),
        "1\ntwo\nnil\ntrue\nfalse\n3.5\n"
    );
}

#[test]
fn values_show_as_the_language_says() {
    assert_eq!(prints("fun f(){} print f;"), "<fn f>\n");
    assert_eq!(prints("print clock;"), "<native fn>\n");
    assert_eq!(prints("class C{} print C; print C();"), "C\nC instance\n");
    assert_eq!(prints("class C{ m(){} } print C().m;"), "<fn m>\n");
    assert_eq!(prints("print \"\" + \"a\" + \"b\";"), "ab\n");
}

#[test]
fn captured_variables_are_shared() {
    let source = "
        var get; var set;
        fun make() {
            var v = 1;
            fun g() { return v; }
            fun s(x) { v = x; }
            get = g; set = s;
            print v;
            s(2);
            print v;
            print g();
        }
        make();
        set(3);
        print get();
    ";
    assert_eq!(prints(source), "1\n2\n2\n3\n");
}

#[test]
fn a_closed_variable_lives_on() {
    let source = "
        fun counter() {
            var n = 0;
            fun next() { n = n + 1; return n; }
            return next;
        }
        var a = counter();
        var b = counter();
        print a(); print a(); print b(); print a();
    ";
    assert_eq!(prints(source), "1\n2\n1\n3\n");
}

#[test]
fn each_iteration_closes_its_own_variable() {
    let source = "
        var first; var second;
        for (var i = 0; i < 2; i = i + 1) {
            var j = i * 10;
            fun show() { print j; }
            if (i == 0) first = show; else second = show;
        }
        first(); second();
    ";
    assert_eq!(prints(source), "0\n10\n");
}

#[test]
fn the_overriding_method_wins_and_super_is_fixed_at_compile_time() {
    let source = "
        class A { m() { print \"A.m\"; } n() { print \"A.n\"; } }
        class B < A { }
        class C < B { m() { print \"C.m\"; super.m(); } }
        var c = C();
        c.m();
        c.n();
        var m = c.m;
        m();
    ";
    assert_eq!(prints(source), "C.m\nA.m\nA.n\nC.m\nA.m\n");
}

#[test]
fn a_subclass_inherits_what_the_superclass_has_at_that_moment() {
    let source = "
        class T { a() { print \"T.a\"; } b() { print \"T.b\"; } }
        class S < T { b() { print \"S.b\"; } }
        S().a();
        S().b();
        T().b();
    ";
    assert_eq!(prints(source), "T.a\nS.b\nT.b\n");
}

#[test]
fn for_loops_test_before_and_step_after() {
    assert_eq!(
        prints("for (var i = 0; i < 3; i = i + 1) print i; print \"done\";"),
        "0\n1\n2\ndone\n"
    );
    assert_eq!(prints("for (var i = 5; i < 3; i = i + 1) print i; print \"none\";"), "none\n");
    assert_eq!(
        prints("var i = 0; for (; i < 2;) { print i; i = i + 1; } print i;"),
        "0\n1\n2\n"
    );
}

#[test]
fn while_loops_and_logic() {
    assert_eq!(
        prints("var n = 3; while (n > 0) { print n; n = n - 1; }"),
        "3\n2\n1\n"
    );
    assert_eq!(prints("print nil or \"b\"; print 1 and 2; print false and 1;"), "b\n2\nfalse\n");
    assert_eq!(prints("print 0 or 1; print \"\" and 2;"), "0\n2\n");
    assert_eq!(prints("if (nil) print 1; else print 2;"), "2\n");
}

#[test]
fn comparison_and_equality() {
    assert_eq!(
        prints("print 1 < 2; print 2 <= 2; print 3 > 4; print 4 >= 4; print 1 == 1; print 1 != 1;"),
        "true\ntrue\nfalse\ntrue\ntrue\nfalse\n"
    );
    assert_eq!(
        prints("print \"a\" == \"a\"; print \"a\" == \"b\"; print nil == nil; print nil == false;"),
        "true\nfalse\ntrue\nfalse\n"
    );
    assert_eq!(prints("print !true; print !nil; print !0;"), "false\ntrue\nfalse\n");
    assert_eq!(
        prints("class C{} var a = C(); var b = C(); print a == a; print a == b; print C == C;"),
        "true\nfalse\ntrue\n"
    );
    assert_eq!(prints("print 0/0 == 0/0; print 0 == -0;"), "false\ntrue\n");
}

#[test]
fn fields_and_initializers() {
    let source = "
        class Point {
            init(x, y) { this.x = x; this.y = y; }
            sum() { return this.x + this.y; }
        }
        var p = Point(3, 4);
        print p.sum();
        p.x = 10;
        print p.sum();
        print p.init(1, 2) == p;
    ";
    assert_eq!(prints(source), "7\n14\ntrue\n");
}

#[test]
fn a_bare_return_in_an_initializer_returns_the_instance() {
    let source = "
        class C { init() { this.v = 1; return; } }
        var c = C();
        print c.v;
        print c;
    ";
    assert_eq!(prints(source), "1\nC instance\n");
}

#[test]
fn a_field_shadows_a_method_when_invoked() {
    let source = "
        fun other() { print \"field\"; }
        class C { m() { print \"method\"; } }
        var c = C();
        c.m();
        c.m = other;
        c.m();
    ";
    assert_eq!(prints(source), "method\nfield\n");
}

#[test]
fn the_native_clock_is_called_through_the_host() {
    assert_eq!(prints("print clock() + 1;"), "2\n");
}

#[test]
fn reading_an_undefined_global_fails() {
    let (out, err) = runtime_error("print 1; print missing;");
    assert_eq!(out, "1\n");
    assert_eq!(err, vec!["[line 1] in script: Undefined variable 'missing'."]);
}

#[test]
fn assigning_an_undefined_global_fails() {
    let (_, err) = runtime_error("missing = 1;");
    assert_eq!(err, vec!["[line 1] in script: Undefined variable 'missing'."]);
}

#[test]
fn runtime_errors_name_the_functions_on_the_stack() {
    let source = "fun inner() {\n  return 1 + nil;\n}\nfun outer() {\n  inner();\n}\nouter();";
    let (_, err) = runtime_error(source);
    assert_eq!(
        err,
        vec![
            "[line 2] in inner: Operands must be two numbers or two strings.",
            "[line 5] in outer: Operands must be two numbers or two strings.",
            "[line 7] in script: Operands must be two numbers or two strings.",
        ]
    );
}

#[test]
fn operators_check_their_operands() {
    assert_eq!(runtime_error("print 1 - \"a\";").1, vec!["[line 1] in script: Operands must be numbers."]);
    assert_eq!(runtime_error("print 1 < \"a\";").1, vec!["[line 1] in script: Operands must be numbers."]);
    assert_eq!(runtime_error("print -\"a\";").1, vec!["[line 1] in script: Operand must be a number."]);
    assert_eq!(
        runtime_error("print 1 + \"a\";").1,
        vec!["[line 1] in script: Operands must be two numbers or two strings."]
    );
}

#[test]
fn calls_check_callee_and_arity() {
    assert_eq!(
        runtime_error("var x = 1; x();").1,
        vec!["[line 1] in script: Can only call functions and classes."]
    );
    assert_eq!(
        runtime_error("fun f(a) {} f();").1,
        vec!["[line 1] in script: Expected 1 arguments, but got 0."]
    );
    assert_eq!(
        runtime_error("class C {} C(1, 2);").1,
        vec!["[line 1] in script: Expected 0 arguments, but got 2."]
    );
    assert_eq!(
        runtime_error("clock(1);").1,
        vec!["[line 1] in script: Expected 0 arguments, but got 1."]
    );
}

#[test]
fn properties_need_instances() {
    assert_eq!(
        runtime_error("var x = 1; print x.y;").1,
        vec!["[line 1] in script: Only instances have properties."]
    );
    assert_eq!(
        runtime_error("var x = 1; x.y = 2;").1,
        vec!["[line 1] in script: Only instances have properties."]
    );
    assert_eq!(
        runtime_error("var x = 1; x.y();").1,
        vec!["[line 1] in script: Only instances have methods."]
    );
    assert_eq!(
        runtime_error("class C {} print C().y;").1,
        vec!["[line 1] in script: Undefined property 'y'."]
    );
    assert_eq!(
        runtime_error("class C {} C().y();").1,
        vec!["[line 1] in script: Undefined property 'y'."]
    );
    assert_eq!(
        runtime_error("var S = 1; class C < S {}").1,
        vec!["[line 1] in script: Superclass must be a class."]
    );
}

#[test]
fn a_value_returned_from_an_initializer_is_an_error() {
    assert_eq!(
        diagnostics_of("class C { init() { return 1; } }"),
        vec!["[line 1] Error at 'return': Cannot return a value from an initializer."]
    );
}

#[test]
fn a_class_cannot_inherit_from_itself() {
    assert_eq!(
        diagnostics_of("class A < A {}"),
        vec!["[line 1] Error at 'A': A class cannot inherit from itself."]
    );
}

#[test]
fn compile_errors_say_where() {
    assert_eq!(diagnostics_of("print ;"), vec!["[line 1] Error at ';': Expected expression."]);
    assert_eq!(diagnostics_of("print 1"), vec!["[line 1] Error at end: Expected ';' after value."]);
    assert_eq!(diagnostics_of("var a = @;"), vec![
        "[line 1] Error: Unexpected character.",
    ]);
    assert_eq!(diagnostics_of("1 = 2;"), vec!["[line 1] Error at '=': Invalid assignment target."]);
    assert_eq!(
        diagnostics_of("return 1;"),
        vec!["[line 1] Error at 'return': Can't return from top-level code."]
    );
    assert_eq!(
        diagnostics_of("{ var a = a; }"),
        vec!["[line 1] Error at 'a': Can't read local variable in its own initializer."]
    );
    assert_eq!(
        diagnostics_of("{ var a; var a; }"),
        vec!["[line 1] Error at 'a': Already declared a variable with this name in this scope."]
    );
    assert_eq!(
        diagnostics_of("print this;"),
        vec!["[line 1] Error at 'this': Can't use 'this' outside of a class."]
    );
    assert_eq!(
        diagnostics_of("print super.x;"),
        vec!["[line 1] Error at 'super': Can't use 'super' outside of a class."]
    );
    assert_eq!(
        diagnostics_of("class A { m() { super.m(); } }"),
        vec!["[line 1] Error at 'super': Can't use 'super' in a class with no superclass."]
    );
    assert_eq!(diagnostics_of("("), vec!["[line 1] Error at end: Expected expression."]);
}

#[test]
fn the_cascade_after_an_error_is_suppressed_until_the_next_statement() {
    assert_eq!(
        diagnostics_of("print 1 +;\nprint 2 2;\nvar = 3;"),
        vec![
            "[line 1] Error at ';': Expected expression.",
            "[line 2] Error at '2': Expected ';' after value.",
            "[line 3] Error at '=': Expected variable name.",
        ]
    );
}

fn many_constants(count: usize) -> String {
    let mut source = String::new();
    for i in 0..count {
        source.push_str(&format!("print {};\n", i));
    }
    source
}

#[test]
fn a_chunk_holds_256_constants_and_no_more() {
    assert_eq!(run(&many_constants(256)).result, Ok(()));
    let errors = diagnostics_of(&many_constants(257));
    assert_eq!(errors, vec!["[line 257] Error at '256': Too many constants in one chunk."]);
}

fn many_locals(count: usize) -> String {
    let mut source = String::from("{\n");
    for i in 0..count {
        source.push_str(&format!("var v{};\n", i));
    }
    source.push_str("}\n");
    source
}

#[test]
fn a_function_holds_256_locals_and_no_more() {
    assert_eq!(run(&many_locals(255)).result, Ok(()));
    let errors = diagnostics_of(&many_locals(256));
    assert_eq!(errors, vec!["[line 257] Error at 'v255': Too many local variables in function."]);
}

fn long_body(statements: usize) -> String {
    let mut body = String::new();
    for _ in 0..statements {
        body.push_str("print 1;");
    }
    body
}

#[test]
fn a_jump_reaches_65535_bytes_and_no_more() {
    let fits = format!("if (false) {{ {} }}", long_body(21843));
    assert_eq!(run(&fits).result, Ok(()));
    let too_far = format!("if (false) {{ {} }}", long_body(21844));
    assert_eq!(
        diagnostics_of(&too_far),
        vec!["[line 1] Error at '}': Too much code to jump over."]
    );
}

#[test]
fn a_loop_reaches_back_65535_bytes_and_no_more() {
    let fits = format!("while (false) {{ {} }}", long_body(21842));
    assert_eq!(run(&fits).result, Ok(()));
    let too_far = format!("while (false) {{ {} }}", long_body(21843));
    let errors = diagnostics_of(&too_far);
    assert_eq!(errors[0], "[line 1] Error at '}': Loop body too large.");
}

#[test]
fn calls_take_255_arguments_and_no_more() {
    let mut arguments = String::from("1");
    for _ in 1..255 {
        arguments.push_str(",1");
    }
    let fits = format!("fun f() {{}} f({});", arguments);
    assert_eq!(
        runtime_error(&fits).1,
        vec!["[line 1] in script: Expected 0 arguments, but got 255."]
    );
    let too_many = format!("fun f() {{}} f({},1);", arguments);
    assert_eq!(
        diagnostics_of(&too_many),
        vec!["[line 1] Error at '1': Can't have more than 255 arguments."]
    );
}

#[test]
fn compiling_twice_gives_the_same_code() {
    let source = "var a = 1; fun f(x) { return x + a; } print f(2); print \"s\" + \"t\";";
    let compile = |text: &str| {
        let chars: Vec<char> = text.chars().collect();
        let tokens = Scanner::new(chars).parse();
        let numbers: Vec<u64> = tokens
            .iter()
            .map(|token| {
                if token.get_token_type() == TokenType::Number {
                    token.get_lexeme_string().parse::<f64>().unwrap().to_bits()
                } else {
                    0
                }
            })
            .collect();
        let (closure, _, heap) = Parser::new(tokens, numbers).compile().ok().unwrap();
        heap.functions
            .iter()
            .map(|function| {
                let code: Vec<u8> = function.chunk.code.iter().map(|unit| unit.get_index()).collect();
                (code, function.chunk.constants.len(), closure.function.index)
            })
            .collect::<Vec<_>>()
    };
    assert_eq!(compile(source), compile(source));
}

#[test]
fn super_and_this_are_captured_by_inner_functions() {
    let source = "
        class A { name() { return \"A\"; } }
        class B < A {
            name() { return \"B\"; }
            show() {
                fun inner() {
                    print super.name();
                    print this.name();
                }
                inner();
                return inner;
            }
        }
        var later = B().show();
        later();
    ";
    assert_eq!(prints(source), "A\nB\nA\nB\n");
}

#[test]
fn assignment_is_an_expression() {
    assert_eq!(prints("var a; var b; a = b = 3; print a; print b;"), "3\n3\n");
    assert_eq!(prints("var a = 1; print a = 2; print a;"), "2\n2\n");
    assert_eq!(prints("{ var a = 1; { a = a + 1; } print a; }"), "2\n");
    assert_eq!(prints("class C {} var c = C(); print c.f = 5; print c.f;"), "5\n5\n");
}

#[test]
fn strings_made_at_run_time_equal_literals() {
    assert_eq!(prints("print \"a\" + \"b\" == \"ab\";"), "true\n");
    assert_eq!(prints("var s = \"x\"; s = s + s; s = s + s; print s;"), "xxxx\n");
}

#[test]
fn numbers_print_in_their_shortest_form() {
    assert_eq!(prints("print 3.0; print 0.1 + 0.2; print 1 / 3; print 100000000000000000000;"),
        "3\n0.30000000000000004\n0.3333333333333333\n100000000000000000000\n");
    assert_eq!(prints("print 1 / 0; print -1 / 0; print 0 / 0;"), "inf\n-inf\nNaN\n");
}

#[test]
fn deep_recursion_and_many_frames() {
    let source = "
        fun count(n) { if (n == 0) return 0; return 1 + count(n - 1); }
        print count(500);
    ";
    assert_eq!(prints(source), "500\n");
}

#[test]
fn bound_methods_remember_their_receiver() {
    let source = "
        class Counter {
            init() { this.n = 0; }
            bump() { this.n = this.n + 1; return this.n; }
        }
        var a = Counter();
        var b = Counter();
        var bump_a = a.bump;
        bump_a(); bump_a();
        b.bump();
        print a.n; print b.n;
        print a.bump == a.bump;
    ";
    assert_eq!(prints(source), "2\n1\nfalse\n");
}

#[test]
fn inherited_initializers_run_for_subclasses() {
    let source = "
        class Base { init(v) { this.v = v; } }
        class Derived < Base { get() { return this.v; } }
        print Derived(7).get();
        class Deeper < Derived { init(v) { super.init(v + 1); } }
        print Deeper(7).get();
    ";
    assert_eq!(prints(source), "7\n8\n");
}

#[test]
fn a_loop_counts_with_a_global() {
    let source = "
        var total = 0;
        for (var i = 1; i <= 100; i = i + 1) total = total + i;
        print total;
        var n = 0;
        while (n < 1000) n = n + 1;
        print n;
    ";
    assert_eq!(prints(source), "5050\n1000\n");
}
