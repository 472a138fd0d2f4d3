//! The single-pass compiler: from tokens to bytecode.

use vstd::prelude::*;
use vstd::string::StringExecFns;
use crate::function::{FunctionBuilder, FunctionType};
use crate::tokens::{chars_of, Token, TokenType};

pub mod parser;
pub mod effects;
pub mod rules;
pub mod statements;
pub mod expressions;
pub mod grammar;

verus! {

/// The binding strength of an operator, from weakest to strongest.
#[derive(Copy, Clone, PartialEq, Eq, Debug, Structural)]
pub enum Precedence {
    Lowest,
    Assignment,
    Or,
    And,
    Equality,
    Comparison,
    Term,
    Factor,
    Unary,
    Call,
    Primary,
}

/// The rank of a precedence: `Lowest` is 0, `Primary` is 10.
pub open spec fn precedence_level(precedence: Precedence) -> u8 {
    match precedence {
        Precedence::Lowest => 0,
        Precedence::Assignment => 1,
        Precedence::Or => 2,
        Precedence::And => 3,
        Precedence::Equality => 4,
        Precedence::Comparison => 5,
        Precedence::Term => 6,
        Precedence::Factor => 7,
        Precedence::Unary => 8,
        Precedence::Call => 9,
        Precedence::Primary => 10,
    }
}

impl Precedence {
    pub fn level(&self) -> (level: u8)
        ensures
            level == precedence_level(*self),
    {
        match self {
            Precedence::Lowest => 0,
            Precedence::Assignment => 1,
            Precedence::Or => 2,
            Precedence::And => 3,
            Precedence::Equality => 4,
            Precedence::Comparison => 5,
            Precedence::Term => 6,
            Precedence::Factor => 7,
            Precedence::Unary => 8,
            Precedence::Call => 9,
            Precedence::Primary => 10,
        }
    }

    /// The next stronger precedence.
    pub fn one_higher(&self) -> (higher: Precedence)
        requires
            *self != Precedence::Primary,
        ensures
            precedence_level(higher) == precedence_level(*self) + 1,
            higher == crate::compile::rules::stronger(*self),
    {
        match self {
            Precedence::Lowest => Precedence::Assignment,
            Precedence::Assignment => Precedence::Or,
            Precedence::Or => Precedence::And,
            Precedence::And => Precedence::Equality,
            Precedence::Equality => Precedence::Comparison,
            Precedence::Comparison => Precedence::Term,
            Precedence::Term => Precedence::Factor,
            Precedence::Factor => Precedence::Unary,
            Precedence::Unary => Precedence::Call,
            _ => Precedence::Primary,
        }
    }

    /// Whether `self` binds at most as strongly as `other`.
    pub fn at_most(&self, other: Precedence) -> (r: bool)
        ensures
            r == (precedence_level(*self) <= precedence_level(other)),
    {
        self.level() <= other.level()
    }
}

/// The parsing functions that the rule table names.
#[derive(Copy, Clone, PartialEq, Eq, Debug, Structural)]
pub enum ParseFn {
    Grouping,
    Call,
    Dot,
    Unary,
    Binary,
    Variable,
    String,
    Number,
    And,
    Or,
    Literal,
    Super,
    This,
}

/// What a token kind means to the expression parser: how an expression
/// that starts with it is parsed, how one that goes on with it is parsed,
/// and how strongly it binds as an operator.
#[derive(Copy, Clone, PartialEq, Eq, Debug, Structural)]
pub struct ParseRule {
    pub prefix: Option<ParseFn>,
    pub infix: Option<ParseFn>,
    pub precedence: Precedence,
}

impl ParseRule {
    pub fn new(prefix: Option<ParseFn>, infix: Option<ParseFn>, precedence: Precedence) -> (rule:
        ParseRule)
        ensures
            rule == (ParseRule { prefix, infix, precedence }),
    {
        ParseRule { prefix, infix, precedence }
    }

    pub fn get_prefix(&self) -> (prefix: Option<ParseFn>)
        ensures
            prefix == self.prefix,
    {
        self.prefix
    }

    pub fn get_infix(&self) -> (infix: Option<ParseFn>)
        ensures
            infix == self.infix,
    {
        self.infix
    }

    pub fn get_precedence(&self) -> (precedence: Precedence)
        ensures
            precedence == self.precedence,
    {
        self.precedence
    }
}

/// The rule table.
pub open spec fn rule_of(kind: TokenType) -> ParseRule {
    match kind {
        TokenType::LeftParen => ParseRule {
            prefix: Some(ParseFn::Grouping),
            infix: Some(ParseFn::Call),
            precedence: Precedence::Call,
        },
        TokenType::Dot => ParseRule {
            prefix: None,
            infix: Some(ParseFn::Dot),
            precedence: Precedence::Call,
        },
        TokenType::Minus => ParseRule {
            prefix: Some(ParseFn::Unary),
            infix: Some(ParseFn::Binary),
            precedence: Precedence::Term,
        },
        TokenType::Plus => ParseRule {
            prefix: None,
            infix: Some(ParseFn::Binary),
            precedence: Precedence::Term,
        },
        TokenType::Slash | TokenType::Star => ParseRule {
            prefix: None,
            infix: Some(ParseFn::Binary),
            precedence: Precedence::Factor,
        },
        TokenType::Bang => ParseRule {
            prefix: Some(ParseFn::Unary),
            infix: None,
            precedence: Precedence::Lowest,
        },
        TokenType::BangEqual | TokenType::EqualEqual => ParseRule {
            prefix: None,
            infix: Some(ParseFn::Binary),
            precedence: Precedence::Equality,
        },
        TokenType::Greater
        | TokenType::GreaterEqual
        | TokenType::Less
        | TokenType::LessEqual => ParseRule {
            prefix: None,
            infix: Some(ParseFn::Binary),
            precedence: Precedence::Comparison,
        },
        TokenType::Identifier => ParseRule {
            prefix: Some(ParseFn::Variable),
            infix: None,
            precedence: Precedence::Lowest,
        },
        TokenType::String => ParseRule {
            prefix: Some(ParseFn::String),
            infix: None,
            precedence: Precedence::Lowest,
        },
        TokenType::Number => ParseRule {
            prefix: Some(ParseFn::Number),
            infix: None,
            precedence: Precedence::Lowest,
        },
        TokenType::And => ParseRule {
            prefix: None,
            infix: Some(ParseFn::And),
            precedence: Precedence::And,
        },
        TokenType::Or => ParseRule {
            prefix: None,
            infix: Some(ParseFn::Or),
            precedence: Precedence::Or,
        },
        TokenType::False | TokenType::Nil | TokenType::True => ParseRule {
            prefix: Some(ParseFn::Literal),
            infix: None,
            precedence: Precedence::Lowest,
        },
        TokenType::Super => ParseRule {
            prefix: Some(ParseFn::Super),
            infix: None,
            precedence: Precedence::Lowest,
        },
        TokenType::This => ParseRule {
            prefix: Some(ParseFn::This),
            infix: None,
            precedence: Precedence::Lowest,
        },
        _ => ParseRule { prefix: None, infix: None, precedence: Precedence::Lowest },
    }
}

/// In the rule table, a token kind binds as an operator exactly when it
/// has an infix rule, and the end of the source starts and continues no
/// expression.
pub proof fn rules_are_coherent(kind: TokenType)
    ensures
        rule_of(kind).infix.is_some() <==> rule_of(kind).precedence != Precedence::Lowest,
        rule_of(TokenType::Eof) == (ParseRule {
            prefix: None,
            infix: None,
            precedence: Precedence::Lowest,
        }),
        rule_of(kind).infix == Some(ParseFn::Binary) ==> rule_of(kind).precedence
            != Precedence::Primary,
{
}

/// The rule table as a value.
pub struct ParseRules {}

impl ParseRules {
    /// The table. It holds nothing: the rules are the same for every
    /// parser, and `get` answers them by the kind of the token alone.
    pub fn new() -> (rules: ParseRules) {
        ParseRules {  }
    }

    /// The rule of a token kind.
    pub fn get(&self, token_type: TokenType) -> (rule: ParseRule)
        ensures
            rule == rule_of(token_type),
    {
        match token_type {
            TokenType::LeftParen => ParseRule::new(
                Some(ParseFn::Grouping),
                Some(ParseFn::Call),
                Precedence::Call,
            ),
            TokenType::RightParen => ParseRule::new(None, None, Precedence::Lowest),
            TokenType::LeftBrace => ParseRule::new(None, None, Precedence::Lowest),
            TokenType::RightBrace => ParseRule::new(None, None, Precedence::Lowest),
            TokenType::Comma => ParseRule::new(None, None, Precedence::Lowest),
            TokenType::Dot => ParseRule::new(None, Some(ParseFn::Dot), Precedence::Call),
            TokenType::Minus => ParseRule::new(
                Some(ParseFn::Unary),
                Some(ParseFn::Binary),
                Precedence::Term,
            ),
            TokenType::Plus => ParseRule::new(None, Some(ParseFn::Binary), Precedence::Term),
            TokenType::Semicolon => ParseRule::new(None, None, Precedence::Lowest),
            TokenType::Slash => ParseRule::new(None, Some(ParseFn::Binary), Precedence::Factor),
            TokenType::Star => ParseRule::new(None, Some(ParseFn::Binary), Precedence::Factor),
            TokenType::Bang => ParseRule::new(Some(ParseFn::Unary), None, Precedence::Lowest),
            TokenType::BangEqual => ParseRule::new(
                None,
                Some(ParseFn::Binary),
                Precedence::Equality,
            ),
            TokenType::Equal => ParseRule::new(None, None, Precedence::Lowest),
            TokenType::EqualEqual => ParseRule::new(
                None,
                Some(ParseFn::Binary),
                Precedence::Equality,
            ),
            TokenType::Greater => ParseRule::new(
                None,
                Some(ParseFn::Binary),
                Precedence::Comparison,
            ),
            TokenType::GreaterEqual => ParseRule::new(
                None,
                Some(ParseFn::Binary),
                Precedence::Comparison,
            ),
            TokenType::Less => ParseRule::new(None, Some(ParseFn::Binary), Precedence::Comparison),
            TokenType::LessEqual => ParseRule::new(
                None,
                Some(ParseFn::Binary),
                Precedence::Comparison,
            ),
            TokenType::Identifier => ParseRule::new(
                Some(ParseFn::Variable),
                None,
                Precedence::Lowest,
            ),
            TokenType::String => ParseRule::new(Some(ParseFn::String), None, Precedence::Lowest),
            TokenType::Number => ParseRule::new(Some(ParseFn::Number), None, Precedence::Lowest),
            TokenType::And => ParseRule::new(None, Some(ParseFn::And), Precedence::And),
            TokenType::Class => ParseRule::new(None, None, Precedence::Lowest),
            TokenType::Else => ParseRule::new(None, None, Precedence::Lowest),
            TokenType::False => ParseRule::new(Some(ParseFn::Literal), None, Precedence::Lowest),
            TokenType::Fun => ParseRule::new(None, None, Precedence::Lowest),
            TokenType::For => ParseRule::new(None, None, Precedence::Lowest),
            TokenType::If => ParseRule::new(None, None, Precedence::Lowest),
            TokenType::Nil => ParseRule::new(Some(ParseFn::Literal), None, Precedence::Lowest),
            TokenType::Or => ParseRule::new(None, Some(ParseFn::Or), Precedence::Or),
            TokenType::Print => ParseRule::new(None, None, Precedence::Lowest),
            TokenType::Return => ParseRule::new(None, None, Precedence::Lowest),
            TokenType::Super => ParseRule::new(Some(ParseFn::Super), None, Precedence::Lowest),
            TokenType::This => ParseRule::new(Some(ParseFn::This), None, Precedence::Lowest),
            TokenType::True => ParseRule::new(Some(ParseFn::Literal), None, Precedence::Lowest),
            TokenType::Var => ParseRule::new(None, None, Precedence::Lowest),
            TokenType::While => ParseRule::new(None, None, Precedence::Lowest),
            TokenType::Error => ParseRule::new(None, None, Precedence::Lowest),
            TokenType::Eof => ParseRule::new(None, None, Precedence::Lowest),
        }
    }
}

/// The most locals that a function can have, its reserved slot 0 counted.
pub const MAX_LOCALS: usize = 256;

/// The most variables that a function can capture.
pub const MAX_UPVALUES: usize = 256;

/// A local variable: its name, the depth of the scope that declared it
/// (-1 while its initializer is compiled) and whether a closure captured
/// it.
pub struct Local {
    pub name: Token,
    pub depth: isize,
    pub is_captured: bool,
}

impl Local {
    pub fn new(name: Token, depth: isize) -> (local: Local)
        ensures
            local.name == name,
            local.depth == depth,
            !local.is_captured,
    {
        Local { name, depth, is_captured: false }
    }

    pub fn get_name(&self) -> (name: &Token)
        ensures
            *name == self.name,
    {
        &self.name
    }

    pub fn get_depth(&self) -> (depth: isize)
        ensures
            depth == self.depth,
    {
        self.depth
    }

    pub fn set_depth(&mut self, depth: isize)
        ensures
            final(self).depth == depth,
            final(self).name == old(self).name,
            final(self).is_captured == old(self).is_captured,
    {
        self.depth = depth;
    }

    pub fn set_captured(&mut self, is_captured: bool)
        ensures
            final(self).is_captured == is_captured,
            final(self).name == old(self).name,
            final(self).depth == old(self).depth,
    {
        self.is_captured = is_captured;
    }

    pub fn is_captured(&self) -> (captured: bool)
        ensures
            captured == self.is_captured,
    {
        self.is_captured
    }
}

/// How a function reaches a captured variable: through a local slot of
/// the enclosing function (`is_local`) or through one of the enclosing
/// function's own captured variables.
#[derive(Copy, Clone, PartialEq, Eq, Debug, Structural)]
pub struct Upvalue {
    pub index: u8,
    pub is_local: bool,
}

impl Upvalue {
    pub fn new(index: u8, is_local: bool) -> (upvalue: Upvalue)
        ensures
            upvalue == (Upvalue { index, is_local }),
    {
        Upvalue { index, is_local }
    }

    pub fn get_index(&self) -> (index: u8)
        ensures
            index == self.index,
    {
        self.index
    }

    pub fn is_local(&self) -> (is_local: bool)
        ensures
            is_local == self.is_local,
    {
        self.is_local
    }
}

/// What the compiler knows of the class it is in.
#[derive(Copy, Clone, PartialEq, Eq, Debug, Structural)]
pub struct ClassCompiler {
    pub has_superclass: bool,
}

impl ClassCompiler {
    pub fn new() -> (class: ClassCompiler)
        ensures
            !class.has_superclass,
    {
        ClassCompiler { has_superclass: false }
    }

    pub fn get_has_superclass(&self) -> (has: bool)
        ensures
            has == self.has_superclass,
    {
        self.has_superclass
    }

    pub fn set_has_superclass(&mut self, has_superclass: bool)
        ensures
            final(self).has_superclass == has_superclass,
    {
        self.has_superclass = has_superclass;
    }
}

/// The place of the last local named `name` among the first `upto`
/// locals, or -1.
pub open spec fn resolved(locals: Seq<Local>, name: Seq<char>, upto: int) -> int
    decreases upto,
{
    if upto <= 0 || upto > locals.len() {
        -1
    } else if locals[upto - 1].name@.lexeme == name {
        upto - 1
    } else {
        resolved(locals, name, upto - 1)
    }
}

/// The place of `upvalue` among the first `upto` of `upvalues`, or -1.
pub open spec fn upvalue_place(upvalues: Seq<Upvalue>, upvalue: Upvalue, upto: int) -> int
    decreases upto,
{
    if upto <= 0 || upto > upvalues.len() {
        -1
    } else {
        let before = upvalue_place(upvalues, upvalue, upto - 1);
        if before >= 0 {
            before
        } else if upvalues[upto - 1] == upvalue {
            upto - 1
        } else {
            -1
        }
    }
}

/// Whether a local named `name` was declared in the innermost scope: the
/// locals are searched from the last one back, as long as they are of that
/// scope or not yet initialized.
pub open spec fn declared_in_scope(
    locals: Seq<Local>,
    scope_depth: int,
    name: Seq<char>,
    upto: int,
) -> bool
    decreases upto,
{
    if upto <= 0 || upto > locals.len() {
        false
    } else {
        let local = locals[upto - 1];
        if local.depth == -1 || local.depth >= scope_depth {
            local.name@.lexeme == name || declared_in_scope(locals, scope_depth, name, upto - 1)
        } else {
            false
        }
    }
}

/// How many locals stay when the scope of depth `scope_depth + 1` ends:
/// from the last local back, those deeper than `scope_depth` leave. The
/// reserved slot 0 always stays.
pub open spec fn locals_kept(locals: Seq<Local>, scope_depth: int, upto: int) -> int
    decreases upto,
{
    if upto <= 1 || upto > locals.len() {
        upto
    } else if locals[upto - 1].depth > scope_depth {
        locals_kept(locals, scope_depth, upto - 1)
    } else {
        upto
    }
}

/// The state of compiling one function: the function under construction,
/// its locals, its captured variables and the depth of the current scope.
pub struct Compiler {
    pub function_builder: FunctionBuilder,
    pub locals: Vec<Local>,
    pub upvalues: Vec<Upvalue>,
    pub scope_depth: usize,
}

impl Compiler {
    /// The locals and captured variables are within their limits, and
    /// the function knows how many variables it captures.
    pub open spec fn wf(&self) -> bool {
        &&& self.function_builder.builder.wf()
        &&& 1 <= self.locals@.len() <= MAX_LOCALS
        &&& self.upvalues@.len() <= MAX_UPVALUES
        &&& self.function_builder.upvalue_count == self.upvalues@.len()
        &&& self.function_builder.arity <= 256
        &&& self.scope_depth < isize::MAX
    }

    /// A compiler for a new function. Slot 0 of its locals is reserved:
    /// for `this` in anything but a plain function.
    pub fn new(kind: FunctionType) -> (compiler: Compiler)
        ensures
            compiler.wf(),
            compiler.scope_depth == 0,
            compiler.locals@.len() == 1,
            compiler.locals@[0].depth == 0,
            !compiler.locals@[0].is_captured,
            compiler.locals@[0].name@.lexeme == if kind != FunctionType::Function {
                "this"@
            } else {
                Seq::<char>::empty()
            },
            compiler.upvalues@.len() == 0,
            compiler.function_builder.kind == kind,
            compiler.function_builder.arity == 0,
            compiler.function_builder.name.is_none(),
            compiler.function_builder.builder.required_indexes == 0,
            compiler.function_builder.builder.patch_count == 0,
            compiler.function_builder.builder.pending@ == Set::<int>::empty(),
            compiler.function_builder.builder.chunk.code@.len() == 0,
            compiler.function_builder.builder.chunk.constants@.len() == 0,
            compiler.function_builder.builder.chunk.lines@.len() == 0,
            compiler.function_builder.upvalue_count == 0,
    {
        let token = match kind {
            FunctionType::Function => Token::new(TokenType::Eof, Vec::new(), 0),
            _ => Token::new(TokenType::Eof, chars_of("this"), 0),
        };
        let local = Local::new(token, 0);
        let mut locals: Vec<Local> = Vec::new();
        locals.push(local);
        Compiler {
            function_builder: FunctionBuilder::new(None, 0, kind),
            locals,
            upvalues: Vec::new(),
            scope_depth: 0,
        }
    }

    pub fn inc_scope_depth(&mut self)
        requires
            old(self).scope_depth + 1 < isize::MAX,
        ensures
            final(self).scope_depth == old(self).scope_depth + 1,
            final(self).function_builder == old(self).function_builder,
            final(self).locals == old(self).locals,
            final(self).upvalues == old(self).upvalues,
    {
        self.scope_depth += 1;
    }

    pub fn dec_scope_depth(&mut self)
        requires
            old(self).scope_depth > 0,
        ensures
            final(self).scope_depth == old(self).scope_depth - 1,
            final(self).function_builder == old(self).function_builder,
            final(self).locals == old(self).locals,
            final(self).upvalues == old(self).upvalues,
    {
        self.scope_depth -= 1;
    }

    pub fn get_scope_depth(&self) -> (depth: usize)
        ensures
            depth == self.scope_depth,
    {
        self.scope_depth
    }

    pub fn push_local(&mut self, local: Local)
        ensures
            final(self).locals@ == old(self).locals@.push(local),
            final(self).function_builder == old(self).function_builder,
            final(self).upvalues == old(self).upvalues,
            final(self).scope_depth == old(self).scope_depth,
    {
        self.locals.push(local);
    }

    pub fn get_local_count(&self) -> (count: usize)
        ensures
            count == self.locals@.len(),
    {
        self.locals.len()
    }

    /// Marks the last local as initialized: from now on it belongs to
    /// the current scope. At the top level nothing happens.
    pub fn mark_local_initialized(&mut self)
        requires
            old(self).wf(),
        ensures
            final(self).wf(),
            final(self).function_builder == old(self).function_builder,
            final(self).upvalues == old(self).upvalues,
            final(self).scope_depth == old(self).scope_depth,
            final(self).locals@.len() == old(self).locals@.len(),
            forall|i: int|
                0 <= i < old(self).locals@.len() - 1 ==> #[trigger] final(self).locals@[i] == old(
                    self,
                ).locals@[i],
            final(self).locals@.last().name == old(self).locals@.last().name,
            final(self).locals@.last().is_captured == old(self).locals@.last().is_captured,
            final(self).locals@.last().depth == if old(self).scope_depth > 0 {
                old(self).scope_depth as isize
            } else {
                old(self).locals@.last().depth
            },
    {
        if self.scope_depth > 0 {
            let last = self.locals.len() - 1;
            self.locals[last].depth = self.scope_depth as isize;
        }
    }

    /// Whether a variable named as `name` was declared in the current
    /// scope.
    pub fn check_variable_declared_in_current_scope(&self, name: &Token) -> (declared: bool)
        requires
            self.wf(),
        ensures
            declared == declared_in_scope(
                self.locals@,
                self.scope_depth as int,
                name@.lexeme,
                self.locals@.len() as int,
            ),
    {
        let mut i = self.locals.len();
        while i > 0
            invariant
                self.wf(),
                i <= self.locals@.len(),
                declared_in_scope(
                    self.locals@,
                    self.scope_depth as int,
                    name@.lexeme,
                    self.locals@.len() as int,
                ) == declared_in_scope(
                    self.locals@,
                    self.scope_depth as int,
                    name@.lexeme,
                    i as int,
                ),
            decreases i,
        {
            let local = &self.locals[i - 1];
            if local.depth == -1 || local.depth >= self.scope_depth as isize {
                if local.name.same_lexeme(name) {
                    return true;
                }
            } else {
                return false;
            }
            i -= 1;
        }
        false
    }

    /// Takes the locals of the scope that has just ended off the list,
    /// and says of each, from the last one back, whether it was captured.
    pub fn remove_out_of_scope_locals(&mut self) -> (is_captured: Vec<bool>)
        requires
            old(self).wf(),
        ensures
            final(self).wf(),
            final(self).function_builder == old(self).function_builder,
            final(self).upvalues == old(self).upvalues,
            final(self).scope_depth == old(self).scope_depth,
            final(self).locals@.len() == locals_kept(
                old(self).locals@,
                old(self).scope_depth as int,
                old(self).locals@.len() as int,
            ),
            final(self).locals@ == old(self).locals@.take(final(self).locals@.len() as int),
            is_captured@.len() == old(self).locals@.len() - final(self).locals@.len(),
            forall|k: int|
                0 <= k < is_captured@.len() ==> #[trigger] is_captured@[k] == old(
                    self,
                ).locals@[old(self).locals@.len() - 1 - k].is_captured,
    {
        let mut is_captured: Vec<bool> = Vec::new();
        let ghost all = self.locals@;
        let ghost depth = self.scope_depth as int;
        while self.locals.len() > 1 && self.locals[self.locals.len() - 1].depth
            > self.scope_depth as isize
            invariant
                self.function_builder == old(self).function_builder,
                self.upvalues == old(self).upvalues,
                self.scope_depth == old(self).scope_depth,
                all == old(self).locals@,
                depth == self.scope_depth as int,
                old(self).wf(),
                1 <= self.locals@.len() <= all.len(),
                self.locals@ == all.take(self.locals@.len() as int),
                locals_kept(all, depth, all.len() as int) == locals_kept(
                    all,
                    depth,
                    self.locals@.len() as int,
                ),
                is_captured@.len() == all.len() - self.locals@.len(),
                forall|k: int|
                    0 <= k < is_captured@.len() ==> #[trigger] is_captured@[k] == all[all.len() - 1
                        - k].is_captured,
            decreases self.locals@.len(),
        {
            let last = self.locals.len() - 1;
            assert(self.locals@[last as int] == all[last as int]);
            is_captured.push(self.locals[last].is_captured);
            self.locals.pop();
            assert(self.locals@ == all.take(self.locals@.len() as int));
        }
        proof {
            let n = self.locals@.len() as int;
            assert(self.locals@[n - 1] == all[n - 1]);
        }
        is_captured
    }

    /// The slot of the local named as `name`, the one declared last, or
    /// -1; and whether that local is still being initialized.
    pub fn resolve(&self, name: &Token) -> (found: (isize, bool))
        requires
            self.wf(),
        ensures
            found.0 == resolved(self.locals@, name@.lexeme, self.locals@.len() as int),
            -1 <= found.0 < self.locals@.len(),
            found.1 == (found.0 >= 0 && self.locals@[found.0 as int].depth == -1),
    {
        let mut i = self.locals.len();
        while i > 0
            invariant
                self.wf(),
                i <= self.locals@.len(),
                resolved(self.locals@, name@.lexeme, self.locals@.len() as int) == resolved(
                    self.locals@,
                    name@.lexeme,
                    i as int,
                ),
            decreases i,
        {
            if self.locals[i - 1].name.same_lexeme(name) {
                return ((i - 1) as isize, self.locals[i - 1].depth == -1);
            }
            i -= 1;
        }
        (-1, false)
    }

    pub fn get_upvalues(&self) -> (upvalues: &Vec<Upvalue>)
        ensures
            *upvalues == self.upvalues,
    {
        &self.upvalues
    }

    /// The place of `upvalue` among the captured variables. One that is
    /// not there yet is added at the end, unless the function has
    /// captured as many variables as it can: then the answer is `None`.
    pub fn add_upvalue(&mut self, upvalue: Upvalue) -> (place: Option<usize>)
        requires
            old(self).wf(),
        ensures
            final(self).wf(),
            final(self).locals == old(self).locals,
            final(self).scope_depth == old(self).scope_depth,
            final(self).function_builder.builder == old(self).function_builder.builder,
            final(self).function_builder.kind == old(self).function_builder.kind,
            final(self).function_builder.name == old(self).function_builder.name,
            final(self).function_builder.arity == old(self).function_builder.arity,
            ({
                let known = upvalue_place(
                    old(self).upvalues@,
                    upvalue,
                    old(self).upvalues@.len() as int,
                );
                if known >= 0 {
                    place == Some(known as usize) && final(self).upvalues == old(self).upvalues
                } else if old(self).upvalues@.len() == MAX_UPVALUES {
                    place.is_none() && final(self).upvalues == old(self).upvalues
                } else {
                    place == Some(old(self).upvalues@.len() as usize) && final(self).upvalues@
                        == old(self).upvalues@.push(upvalue)
                }
            }),
            place matches Some(p) ==> p < MAX_UPVALUES,
    {
        let mut i: usize = 0;
        while i < self.upvalues.len()
            invariant
                *self == *old(self),
                self.wf(),
                i <= self.upvalues@.len(),
                upvalue_place(self.upvalues@, upvalue, i as int) == -1,
            decreases self.upvalues@.len() - i,
        {
            let known = self.upvalues[i];
            if known.index == upvalue.index && known.is_local == upvalue.is_local {
                proof {
                    upvalue_place_stays(self.upvalues@, upvalue, i + 1);
                }
                return Some(i);
            }
            i += 1;
        }
        if self.upvalues.len() == MAX_UPVALUES {
            None
        } else {
            self.upvalues.push(upvalue);
            self.function_builder.inc_upvalue_count();
            Some(self.upvalues.len() - 1)
        }
    }
}

/// A place among the first `upto` upvalues is below `upto`.
pub proof fn upvalue_place_is_inside(upvalues: Seq<Upvalue>, upvalue: Upvalue, upto: int)
    ensures
        -1 <= upvalue_place(upvalues, upvalue, upto),
        upto >= 0 ==> upvalue_place(upvalues, upvalue, upto) < upto || upvalue_place(
            upvalues,
            upvalue,
            upto,
        ) == -1,
    decreases upto,
{
    if upto > 0 && upto <= upvalues.len() {
        upvalue_place_is_inside(upvalues, upvalue, upto - 1);
    }
}

/// A place found among the first upvalues stays the place among all.
pub proof fn upvalue_place_stays(upvalues: Seq<Upvalue>, upvalue: Upvalue, upto: int)
    requires
        0 <= upto <= upvalues.len(),
        upvalue_place(upvalues, upvalue, upto) >= 0,
    ensures
        upvalue_place(upvalues, upvalue, upvalues.len() as int) == upvalue_place(
            upvalues,
            upvalue,
            upto,
        ),
    decreases upvalues.len() - upto,
{
    if upto < upvalues.len() {
        upvalue_place_stays(upvalues, upvalue, upto + 1);
    }
}

/// Where in the source a compile error was found.
pub enum Place {
    /// At the end of the source.
    AtEnd,
    /// At the token with this lexeme.
    At(String),
    /// In a token that the scanner could not read.
    Unknown,
}

/// A compile error: the line, the place and the message.
pub struct CompileError {
    pub line: u32,
    pub place: Place,
    pub message: String,
}

/// How a place reads in a diagnostic.
pub open spec fn place_text(place: Place) -> Seq<char> {
    match place {
        Place::AtEnd => " at end"@,
        Place::At(lexeme) => " at '"@ + lexeme@ + "'"@,
        Place::Unknown => Seq::empty(),
    }
}

/// The line of a diagnostic: `[line L] Error at 'TOKEN': MESSAGE`.
pub open spec fn diagnostic(error: CompileError) -> Seq<char> {
    "[line "@ + crate::text::decimal(error.line as nat) + "] Error"@ + place_text(error.place)
        + ": "@ + error.message@
}

impl CompileError {
    /// The line of the diagnostic.
    pub fn render(&self) -> (text: String)
        ensures
            text@ == diagnostic(*self),
    {
        let mut text = "[line ".to_string();
        text.append(crate::text::decimal_string(self.line as usize).as_str());
        text.append("] Error");
        match &self.place {
            Place::AtEnd => {
                text.append(" at end");
            },
            Place::At(lexeme) => {
                text.append(" at '");
                text.append(lexeme.as_str());
                text.append("'");
            },
            Place::Unknown => {
                assert(text@ + Seq::<char>::empty() =~= text@);
            },
        }
        text.append(": ");
        text.append(self.message.as_str());
        text
    }
}

} // verus!
