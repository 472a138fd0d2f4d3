use rlox::compile::parser::Parser;
use rlox::compile::{
    ClassCompiler, CompileError, Compiler, Local, ParseFn, ParseRule, ParseRules, Place,
    Precedence, Upvalue,
};
use rlox::function::FunctionType;
use rlox::heap::Heap;
use rlox::scanner::Scanner;
use rlox::tokens::{Token, TokenType};
use rlox::value::Printed;

fn listing(source: &str) -> Vec<String> {
    let chars: Vec<char> = source.chars().collect();
    let tokens = Scanner::new(chars).parse();
    let numbers: Vec<u64> = tokens
        .iter()
        .map(|token| {
            if token.get_token_type() == TokenType::Number {
                token.get_lexeme_string().parse::<f64>().unwrap().to_bits()
            } else {
                0
            }
        })
        .collect();
    let (_, _, heap) = Parser::new(tokens, numbers).compile().ok().unwrap();
    heap.functions
        .iter()
        .map(|function| render(&function.chunk.disassemble("chunk", &heap)))
        .collect()
}

fn render(pieces: &[Printed]) -> String {
    let mut text = String::new();
    for piece in pieces {
        match piece {
            Printed::Text(part) => text.push_str(part),
            Printed::Number(bits) => text.push_str(&f64::from_bits(*bits).to_string()),
        }
    }
    text
}

#[test]
fn a_for_loop_is_laid_out_with_its_jumps() {
    let chunks = listing("for (var i = 0; i < 2; i = i + 1) print i;");
    assert_eq!(chunks.len(), 1);
    assert_eq!(
        chunks[0],
        "== chunk ==\n\
         0000    1 Constant    0 '0'\n\
         0002    | GetLocal    1\n\
         0004    | Constant    1 '2'\n\
         0006    | Less\n\
         0007    | JumpIfFalse    7 -> 31\n\
         0010    | Pop\n\
         0011    | Jump   11 -> 25\n\
         0014    | GetLocal    1\n\
         0016    | Constant    2 '1'\n\
         0018    | Add\n\
         0019    | SetLocal    1\n\
         0021    | Pop\n\
         0022    | Loop   22 -> 2\n\
         0025    | GetLocal    1\n\
         0027    | Print\n\
         0028    | Loop   28 -> 14\n\
         0031    | Pop\n\
         0032    | Pop\n\
         0033    | Nil\n\
         0034    | Return\n"
    );
}

#[test]
fn code_carries_the_line_of_the_token_read_last() {
    let chunks = listing("print 1;\nprint\n2;\n");
    assert_eq!(chunks.len(), 1);
    assert_eq!(
        chunks[0],
        "== chunk ==\n\
         0000    1 Constant    0 '1'\n\
         0002    | Print\n\
         0003    3 Constant    1 '2'\n\
         0005    | Print\n\
         0006    4 Nil\n\
         0007    | Return\n"
    );
}

#[test]
fn an_if_is_laid_out_with_its_jumps() {
    let chunks = listing("if (true) print 1; else print 2;");
    assert_eq!(
        chunks[0],
        "== chunk ==\n\
         0000    1 True\n\
         0001    | JumpIfFalse    1 -> 11\n\
         0004    | Pop\n\
         0005    | Constant    0 '1'\n\
         0007    | Print\n\
         0008    | Jump    8 -> 15\n\
         0011    | Pop\n\
         0012    | Constant    1 '2'\n\
         0014    | Print\n\
         0015    | Nil\n\
         0016    | Return\n"
    );
}

#[test]
fn logic_is_laid_out_with_its_jumps() {
    let chunks = listing("nil and 1 or 2;");
    assert_eq!(
        chunks[0],
        "== chunk ==\n\
         0000    1 Nil\n\
         0001    | JumpIfFalse    1 -> 7\n\
         0004    | Pop\n\
         0005    | Constant    0 '1'\n\
         0007    | JumpIfFalse    7 -> 13\n\
         0010    | Jump   10 -> 16\n\
         0013    | Pop\n\
         0014    | Constant    1 '2'\n\
         0016    | Pop\n\
         0017    | Nil\n\
         0018    | Return\n"
    );
}

#[test]
fn a_closure_names_what_it_captures() {
    let chunks = listing("fun outer() {\n var a; var b;\n fun inner() { return a + b; }\n}");
    assert_eq!(chunks.len(), 3);
    assert_eq!(
        chunks[0],
        "== chunk ==\n\
         0000    3 GetUpvalue    0\n\
         0002    | GetUpvalue    1\n\
         0004    | Add\n\
         0005    | Return\n\
         0006    | Nil\n\
         0007    | Return\n"
    );
    assert_eq!(
        chunks[1],
        "== chunk ==\n\
         0000    2 Nil\n\
         0001    | Nil\n\
         0002    3 Closure     0 '<fn inner>'\n\
         0004    |                 local 1\n\
         0006    |                 local 2\n\
         0008    4 Nil\n\
         0009    | Return\n"
    );
    assert_eq!(
        chunks[2],
        "== chunk ==\n\
         0000    4 Closure     1 '<fn outer>'\n\
         0002    | DefineGlobal    0 'outer'\n\
         0004    | Nil\n\
         0005    | Return\n"
    );
}

#[test]
fn a_class_with_a_superclass_is_laid_out() {
    let chunks = listing("class A {} class B < A { m() { super.m(); } }");
    assert_eq!(
        chunks[0],
        "== chunk ==\n\
         0000    1 GetLocal    0\n\
         0002    | GetUpvalue    0\n\
         0004    | SuperInvoke (0 args)    0 'm'\n\
         0007    | Pop\n\
         0008    | Nil\n\
         0009    | Return\n"
    );
    assert_eq!(
        chunks[1],
        "== chunk ==\n\
         0000    1 Class    0 'A'\n\
         0002    | DefineGlobal    0 'A'\n\
         0004    | GetGlobal    0 'A'\n\
         0006    | Pop\n\
         0007    | Class    1 'B'\n\
         0009    | DefineGlobal    1 'B'\n\
         0011    | GetGlobal    0 'A'\n\
         0013    | GetGlobal    1 'B'\n\
         0015    | Inherit\n\
         0016    | GetGlobal    1 'B'\n\
         0018    | Closure     3 '<fn m>'\n\
         0020    |                 local 1\n\
         0022    | Method    2 'm'\n\
         0024    | Pop\n\
         0025    | CloseUpvalue\n\
         0026    | Nil\n\
         0027    | Return\n"
    );
}

#[test]
fn precedences_are_ordered() {
    let order = [
        Precedence::Lowest,
        Precedence::Assignment,
        Precedence::Or,
        Precedence::And,
        Precedence::Equality,
        Precedence::Comparison,
        Precedence::Term,
        Precedence::Factor,
        Precedence::Unary,
        Precedence::Call,
        Precedence::Primary,
    ];
    for (level, precedence) in order.iter().enumerate() {
        assert_eq!(precedence.level() as usize, level);
        if level + 1 < order.len() {
            assert_eq!(precedence.one_higher(), order[level + 1]);
            assert!(precedence.at_most(order[level + 1]));
            assert!(!order[level + 1].at_most(*precedence));
        }
        assert!(precedence.at_most(*precedence));
    }
}

#[test]
fn the_rule_table_holds_every_rule() {
    let rules = ParseRules::new();
    assert_eq!(
        rules.get(TokenType::LeftParen),
        ParseRule::new(Some(ParseFn::Grouping), Some(ParseFn::Call), Precedence::Call)
    );
    assert_eq!(rules.get(TokenType::Dot), ParseRule::new(None, Some(ParseFn::Dot), Precedence::Call));
    assert_eq!(
        rules.get(TokenType::Minus),
        ParseRule::new(Some(ParseFn::Unary), Some(ParseFn::Binary), Precedence::Term)
    );
    assert_eq!(rules.get(TokenType::Plus), ParseRule::new(None, Some(ParseFn::Binary), Precedence::Term));
    assert_eq!(rules.get(TokenType::Bang), ParseRule::new(Some(ParseFn::Unary), None, Precedence::Lowest));
    for kind in [TokenType::Slash, TokenType::Star] {
        assert_eq!(rules.get(kind), ParseRule::new(None, Some(ParseFn::Binary), Precedence::Factor));
    }
    for kind in [TokenType::BangEqual, TokenType::EqualEqual] {
        assert_eq!(rules.get(kind), ParseRule::new(None, Some(ParseFn::Binary), Precedence::Equality));
    }
    for kind in [TokenType::Less, TokenType::LessEqual, TokenType::Greater, TokenType::GreaterEqual] {
        assert_eq!(rules.get(kind), ParseRule::new(None, Some(ParseFn::Binary), Precedence::Comparison));
    }
    assert_eq!(rules.get(TokenType::Identifier).get_prefix(), Some(ParseFn::Variable));
    assert_eq!(rules.get(TokenType::String).get_prefix(), Some(ParseFn::String));
    assert_eq!(rules.get(TokenType::Number).get_prefix(), Some(ParseFn::Number));
    assert_eq!(rules.get(TokenType::And), ParseRule::new(None, Some(ParseFn::And), Precedence::And));
    assert_eq!(rules.get(TokenType::Or), ParseRule::new(None, Some(ParseFn::Or), Precedence::Or));
    for kind in [TokenType::False, TokenType::Nil, TokenType::True] {
        assert_eq!(rules.get(kind), ParseRule::new(Some(ParseFn::Literal), None, Precedence::Lowest));
    }
    assert_eq!(rules.get(TokenType::Super).get_prefix(), Some(ParseFn::Super));
    assert_eq!(rules.get(TokenType::This).get_prefix(), Some(ParseFn::This));
    for kind in [
        TokenType::RightParen,
        TokenType::LeftBrace,
        TokenType::RightBrace,
        TokenType::Comma,
        TokenType::Semicolon,
        TokenType::Equal,
        TokenType::Class,
        TokenType::Else,
        TokenType::Fun,
        TokenType::For,
        TokenType::If,
        TokenType::Print,
        TokenType::Return,
        TokenType::Var,
        TokenType::While,
        TokenType::Error,
        TokenType::Eof,
    ] {
        let rule = rules.get(kind);
        assert_eq!(rule.get_prefix(), None);
        assert_eq!(rule.get_infix(), None);
        assert_eq!(rule.get_precedence(), Precedence::Lowest);
    }
}

fn name(text: &str) -> Token {
    Token::new(TokenType::Identifier, text.chars().collect(), 1)
}

#[test]
fn locals_are_resolved_from_the_innermost_out() {
    let mut compiler = Compiler::new(FunctionType::Function);
    assert_eq!(compiler.get_local_count(), 1);
    assert_eq!(compiler.get_scope_depth(), 0);
    compiler.inc_scope_depth();
    compiler.push_local(Local::new(name("a"), -1));
    assert_eq!(compiler.resolve(&name("a")), (1, true));
    compiler.mark_local_initialized();
    assert_eq!(compiler.resolve(&name("a")), (1, false));
    compiler.inc_scope_depth();
    compiler.push_local(Local::new(name("b"), 2));
    compiler.push_local(Local::new(name("a"), 2));
    assert_eq!(compiler.resolve(&name("a")), (3, false));
    assert_eq!(compiler.resolve(&name("b")), (2, false));
    assert_eq!(compiler.resolve(&name("c")), (-1, false));
    assert!(compiler.check_variable_declared_in_current_scope(&name("b")));
    assert!(!compiler.check_variable_declared_in_current_scope(&name("c")));
    compiler.locals[2].set_captured(true);
    compiler.dec_scope_depth();
    assert_eq!(compiler.remove_out_of_scope_locals(), vec![false, true]);
    assert_eq!(compiler.get_local_count(), 2);
    assert!(compiler.check_variable_declared_in_current_scope(&name("a")));
    compiler.dec_scope_depth();
    assert_eq!(compiler.remove_out_of_scope_locals(), vec![false]);
    assert_eq!(compiler.get_local_count(), 1);
    assert!(compiler.remove_out_of_scope_locals().is_empty());
}

#[test]
fn methods_reserve_slot_zero_for_this() {
    let method = Compiler::new(FunctionType::Method);
    assert_eq!(method.resolve(&name("this")), (0, false));
    let function = Compiler::new(FunctionType::Function);
    assert_eq!(function.resolve(&name("this")), (-1, false));
}

#[test]
fn captured_variables_are_kept_once() {
    let mut compiler = Compiler::new(FunctionType::Function);
    assert_eq!(compiler.add_upvalue(Upvalue::new(3, true)), Some(0));
    assert_eq!(compiler.add_upvalue(Upvalue::new(3, false)), Some(1));
    assert_eq!(compiler.add_upvalue(Upvalue::new(3, true)), Some(0));
    assert_eq!(compiler.get_upvalues().len(), 2);
    assert_eq!(compiler.function_builder.get_upvalue_count(), 2);
    for index in 0..=255u8 {
        compiler.add_upvalue(Upvalue::new(index, true));
    }
    assert_eq!(compiler.get_upvalues().len(), 256);
    assert_eq!(compiler.add_upvalue(Upvalue::new(9, false)), None);
    assert_eq!(compiler.add_upvalue(Upvalue::new(9, true)), Some(10));
    let upvalue = Upvalue::new(4, true);
    assert_eq!(upvalue.get_index(), 4);
    assert!(upvalue.is_local());
}

#[test]
fn small_records_keep_what_they_are_given() {
    let mut local = Local::new(name("x"), -1);
    assert_eq!(local.get_depth(), -1);
    assert!(!local.is_captured());
    assert_eq!(local.get_name().get_lexeme_string(), "x");
    local.set_depth(3);
    local.set_captured(true);
    assert_eq!(local.get_depth(), 3);
    assert!(local.is_captured());

    let mut class = ClassCompiler::new();
    assert!(!class.get_has_superclass());
    class.set_has_superclass(true);
    assert!(class.get_has_superclass());
}

#[test]
fn diagnostics_name_line_and_place() {
    let at = CompileError { line: 3, place: Place::At(String::from("x")), message: String::from("Oops.") };
    assert_eq!(at.render(), "[line 3] Error at 'x': Oops.");
    let end = CompileError { line: 12, place: Place::AtEnd, message: String::from("Oops.") };
    assert_eq!(end.render(), "[line 12] Error at end: Oops.");
    let unknown = CompileError { line: 1, place: Place::Unknown, message: String::from("Oops.") };
    assert_eq!(unknown.render(), "[line 1] Error: Oops.");
}

#[test]
fn the_parser_reads_token_by_token() {
    let tokens = Scanner::new("a + @ b".chars().collect()).parse();
    let numbers = vec![0; tokens.len()];
    let mut parser = Parser::new(tokens, numbers);
    assert!(parser.check(TokenType::Identifier));
    assert!(!parser.matches(TokenType::Plus));
    assert!(parser.matches(TokenType::Identifier));
    assert_eq!(parser.previous.get_lexeme_string(), "a");
    assert!(!parser.had_error);
    parser.consume(TokenType::Plus, "Expected '+'.");
    assert!(parser.had_error);
    assert_eq!(parser.errors.len(), 1);
    assert_eq!(parser.errors[0].render(), "[line 1] Error: Unexpected character.");
    assert!(parser.check(TokenType::Identifier));
    parser.advance();
    assert_eq!(parser.previous.get_lexeme_string(), "b");
    assert!(parser.check(TokenType::Eof));
    parser.advance();
    parser.advance();
    assert_eq!(parser.previous.get_token_type(), TokenType::Eof);
    parser.consume(TokenType::Semicolon, "Expected ';'.");
    assert!(parser.panic_mode);
    assert_eq!(parser.errors.len(), 1);
    parser.panic_mode = false;
    parser.consume(TokenType::Semicolon, "Expected ';'.");
    let diagnostics: Vec<String> = parser.errors.iter().map(|error| error.render()).collect();
    assert_eq!(
        diagnostics,
        vec![
            "[line 1] Error: Unexpected character.",
            "[line 1] Error at end: Expected ';'.",
        ]
    );
    let unused = Heap::new();
    assert_eq!(unused.functions.len(), 0);
}
