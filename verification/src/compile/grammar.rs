//! The grammar of declarations and statements, and the compiler's entry
//! points.

use vstd::prelude::*;
use crate::chunk::{CodeUnit, Patch};
use crate::compile::effects::{
    calmed, class_entered, class_left, consumed, declared, defined, emitted_pair, emitted_simple,
    function_begun, function_ended, initialized, jump_begun, jump_patched, local_wanted, looped,
    parameter_counted, patch_place, return_code, scope_begun, scope_ended, superclass_noted,
};
use crate::compile::parser::{advanced, emitted, jumps, loops, stands, Parser};
use crate::compile::rules::{expressed, named, within};
use crate::compile::statements::{
    block_items, block_stated, blocked, branched, class_declared, class_ended, class_headed,
    class_opened,
    compiled, conditioned, declaration_begun, declaration_made, else_stated, expression_stated,
    for_begun, for_ended, for_headed, for_left, for_stated, for_stepped, for_tested, function_declared,
    function_headed, function_made, if_stated, inherited, method_chain, method_made,
    methods_listed, opens_statement, parameter, parameter_chain, parameters_read, passed_over,
    printed, repeated, returned, script_items, settled, stated, stated_as, super_bound,
    super_token,
    superclass_named, synchronized, turned, var_declared, while_stated,
};
use crate::compile::{CompileError, Compiler, Upvalue};
use crate::function::{Closure, FunctionType};
use crate::heap::Heap;
use crate::intern_string::SymbolTable;
use crate::opcodes::OpCode;
use crate::tokens::{chars_of, Token, TokenType};

verus! {

/// The code of `if (e) s1 else s2` that begins at `start`: the condition;
/// at `test` a jump to behind the first branch for a false condition, and
/// `Pop`; the first branch; at `skip` a jump to `end`, and `Pop`; the
/// second branch.
pub open spec fn if_layout(code: Seq<CodeUnit>, start: int, test: int, skip: int, end: int) -> bool {
    &&& start <= test
    &&& test + 4 <= skip
    &&& skip + 4 <= end
    &&& end == code.len()
    &&& jumps(code, test, OpCode::JumpIfFalse, skip + 3)
    &&& stands(code, test + 3, OpCode::Pop)
    &&& jumps(code, skip, OpCode::Jump, end)
    &&& stands(code, skip + 3, OpCode::Pop)
}

/// The code of `while (e) body` that begins at `start`: the condition; at
/// `test` a jump out of the loop for a false condition, and `Pop`; the
/// body; at `back` a jump back to `start`; and `Pop`, which is where the
/// jump out of the loop leads.
pub open spec fn while_layout(code: Seq<CodeUnit>, start: int, test: int, back: int) -> bool {
    &&& start <= test
    &&& test + 4 <= back
    &&& back + 4 == code.len()
    &&& jumps(code, test, OpCode::JumpIfFalse, back + 3)
    &&& stands(code, test + 3, OpCode::Pop)
    &&& loops(code, back, start)
    &&& stands(code, back + 3, OpCode::Pop)
}

/// Where the parts of a `for` loop stand in the code.
pub struct ForLoop {
    /// Where the condition begins, behind the initializer.
    pub condition: int,
    /// Whether the loop has a condition.
    pub has_test: bool,
    /// Where the jump out of the loop stands.
    pub test: int,
    /// Whether the loop has an increment.
    pub has_step: bool,
    /// Where the jump over the increment stands.
    pub over: int,
    /// Where the jump from the increment back to the condition stands.
    pub again: int,
    /// Where the jump from the body back stands.
    pub back: int,
}

/// The code of the head of a `for` loop that begins at `start`: the
/// initializer; the condition, with a jump out of the loop for a false
/// condition, and `Pop`; a jump over the increment to the body; the
/// increment, `Pop`, and a jump back to the condition.
pub open spec fn for_head_layout(code: Seq<CodeUnit>, start: int, parts: ForLoop) -> bool {
    &&& start <= parts.condition <= code.len()
    &&& (parts.has_test ==> {
        &&& parts.condition <= parts.test
        &&& parts.test + 4 <= code.len()
        &&& stands(code, parts.test, OpCode::JumpIfFalse)
        &&& stands(code, parts.test + 3, OpCode::Pop)
    })
    &&& (parts.has_step ==> {
        &&& parts.condition <= parts.over
        &&& (parts.has_test ==> parts.test + 4 == parts.over)
        &&& parts.over + 4 <= parts.again
        &&& parts.again + 3 == code.len()
        &&& jumps(code, parts.over, OpCode::Jump, parts.again + 3)
        &&& stands(code, parts.again - 1, OpCode::Pop)
        &&& loops(code, parts.again, parts.condition)
    })
}

/// The code of `for (init; cond; incr) body` that begins at `start`: the
/// head; the body, and a jump back to the increment, or to the condition
/// where there is no increment; and `Pop`, which is where the jump out
/// of the loop leads. So the condition is evaluated before every round,
/// the first one too, and the increment after every round.
pub open spec fn for_layout(code: Seq<CodeUnit>, start: int, parts: ForLoop) -> bool {
    &&& start <= parts.condition
    &&& parts.back + 3 <= code.len()
    &&& (parts.has_test ==> {
        &&& parts.condition <= parts.test
        &&& parts.test + 4 <= parts.back
        &&& jumps(code, parts.test, OpCode::JumpIfFalse, parts.back + 3)
        &&& stands(code, parts.test + 3, OpCode::Pop)
        &&& stands(code, parts.back + 3, OpCode::Pop)
    })
    &&& if parts.has_step {
        &&& parts.condition <= parts.over
        &&& (parts.has_test ==> parts.test + 4 == parts.over)
        &&& parts.over + 4 <= parts.again
        &&& parts.again + 3 <= parts.back
        &&& jumps(code, parts.over, OpCode::Jump, parts.again + 3)
        &&& stands(code, parts.again - 1, OpCode::Pop)
        &&& loops(code, parts.again, parts.condition)
        &&& loops(code, parts.back, parts.over + 3)
    } else {
        &&& parts.condition <= parts.back
        &&& loops(code, parts.back, parts.condition)
    }
}

/// The code of `a and b` from behind `a` on, which begins at `start`: a
/// jump over `b` for a falsy `a`, `Pop`, and `b`.
pub open spec fn and_layout(code: Seq<CodeUnit>, start: int) -> bool {
    &&& jumps(code, start, OpCode::JumpIfFalse, code.len() as int)
    &&& stands(code, start + 3, OpCode::Pop)
}

/// The code of `a or b` from behind `a` on, which begins at `start`: for
/// a falsy `a` a jump over the next jump; a jump over `b`; `Pop`, and `b`.
pub open spec fn or_layout(code: Seq<CodeUnit>, start: int) -> bool {
    &&& jumps(code, start, OpCode::JumpIfFalse, start + 6)
    &&& jumps(code, start + 3, OpCode::Jump, code.len() as int)
    &&& stands(code, start + 6, OpCode::Pop)
}

impl Parser {
    /// A parser at the start of `source`. `numbers` holds, for every
    /// token of kind `Number`, the bits of the number that its lexeme
    /// spells, at the token's place.
    pub fn new(source: Vec<Token>, numbers: Vec<u64>) -> (parser: Parser)
        requires
            source@.len() < crate::compile::parser::MAX_TOKENS,
            numbers@.len() == source@.len(),
        ensures
            parser.ready(),
            parser.source == source,
            parser.numbers == numbers,
            parser.compilers@.len() == 1,
            parser.class_compilers@.len() == 0,
            parser.top().function_builder.kind == FunctionType::Script,
            parser.top().function_builder.arity == 0,
            parser.pending() =~= Set::<int>::empty(),
            parser.heap.functions@.len() == 0,
            parser.heap.closures@.len() == 0,
            ({
                let next = crate::compile::parser::next_readable(source@, 0);
                &&& if next < source@.len() {
                    parser.position == next + 1 && parser.current@ == source@[next]@
                } else {
                    parser.position == source@.len() && parser.current@.kind == TokenType::Eof
                }
                &&& if next > 0 {
                    &&& parser.had_error
                    &&& parser.errors@.len() == 1
                    &&& parser.errors@[0].message@ == source@[0]@.lexeme
                    &&& parser.errors@[0].line == source@[0]@.line
                } else {
                    !parser.had_error && parser.errors@.len() == 0
                }
            }),
    {
        let mut compilers: Vec<Compiler> = Vec::new();
        compilers.push(Compiler::new(FunctionType::Script));
        let mut parser = Parser {
            source,
            numbers,
            position: 0,
            current: Token::new(TokenType::Error, Vec::new(), 0),
            previous: Token::new(TokenType::Error, Vec::new(), 0),
            current_number: 0,
            previous_number: 0,
            had_error: false,
            panic_mode: false,
            errors: Vec::new(),
            rules: crate::compile::ParseRules::new(),
            symbol_table: SymbolTable::new(),
            heap: Heap::new(),
            compilers,
            class_compilers: Vec::new(),
        };
        parser.advance();
        parser
    }

    /// Compiles the whole source. Answers the script as a closure, with
    /// the symbol table and the heap that holds the compiled functions;
    /// or, where anything was wrong, the errors.
    pub fn compile(self) -> (result: Result<(Closure, SymbolTable, Heap), Vec<CompileError>>)
        requires
            self.ready(),
            self.compilers@.len() == 1,
            self.top().function_builder.arity == 0,
            self.top().function_builder.kind == FunctionType::Script,
            self.pending() =~= Set::<int>::empty(),
        ensures
            compiled(self, result),
            self.had_error ==> result is Err,
            match result {
                Ok((closure, _, heap)) => {
                    &&& heap.wf()
                    &&& heap.structured()
                    &&& closure.function.valid(&heap)
                    &&& closure.function.inner(&heap).arity == 0
                    &&& closure.function.inner(&heap).kind == FunctionType::Script
                    &&& closure.function.index == heap.functions@.len() - 1
                    &&& closure.upvalues@.len() == 0
                },
                Err(errors) => errors@.len() > 0,
            },
    {
        let mut parser = self;
        while !parser.check(TokenType::Eof)
            invariant
                parser.ready(),
                parser.compilers@.len() == 1,
                parser.top().function_builder.arity == 0,
                parser.top().function_builder.kind == FunctionType::Script,
                parser.pending() =~= Set::<int>::empty(),
                self.had_error ==> parser.had_error,
                within(self, parser),
                script_items(self, parser),
            decreases parser.measure(),
        {
            let ghost mid = parser;
            parser.declaration();
            assert(within(mid, parser) && script_items(self, mid) && declaration_made(mid, parser));
        }
        let ghost listed = parser;
        parser.advance();
        let ghost last = parser;
        let function = parser.end_compile();
        let ghost done = parser;
        let result = if parser.had_error {
            Err(parser.errors)
        } else {
            Ok((Closure::new(function), parser.symbol_table, parser.heap))
        };
        assert(within(self, listed) && script_items(self, listed) && advanced(listed, last)
            && function_ended(last, done, function));
        result
    }

    /// What the declaration does that begins with a token of kind `kind`,
    /// from behind that token on.
    fn declaration_of(&mut self, kind: TokenType)
        requires
            old(self).ready(),
            old(self).spare(),
            kind == TokenType::Class || kind == TokenType::Fun || kind == TokenType::Var,
        ensures
            final(self).follows(old(self)),
            match kind {
                TokenType::Class => class_declared(*old(self), *final(self)),
                TokenType::Fun => function_declared(*old(self), *final(self)),
                _ => var_declared(*old(self), *final(self)),
            },
        decreases old(self).measure() + 1, 9int,
    {
        match kind {
            TokenType::Class => self.class_declaration(),
            TokenType::Fun => self.function_declaration(),
            _ => self.var_declaration(),
        }
    }

    /// The declaration that begins with the token that the parser looks
    /// at.
    fn declaration_start(&mut self)
        requires
            old(self).ready(),
        ensures
            final(self).follows(old(self)),
            declaration_begun(*old(self), *final(self)),
            old(self).current@.kind != TokenType::Eof ==> final(self).measure() < old(self).measure(),
        decreases old(self).measure(), 11int,
    {
        let kind = self.current.get_token_type();
        match kind {
            TokenType::Class | TokenType::Fun | TokenType::Var => {
                self.advance();
                let ghost begun = *self;
                self.declaration_of(kind);
                assert(advanced(*old(self), begun) && begun.measure() < old(self).measure());
            },
            _ => {
                self.statement();
            },
        }
    }

    /// declaration := classDecl | funDecl | varDecl | statement. After an
    /// error the parser recovers at the end of the declaration.
    fn declaration(&mut self)
        requires
            old(self).ready(),
        ensures
            final(self).follows(old(self)),
            declaration_made(*old(self), *final(self)),
            old(self).current@.kind != TokenType::Eof ==> final(self).measure() < old(self).measure(),
        decreases old(self).measure(), 12int,
    {
        self.declaration_start();
        let ghost done = *self;
        if self.panic_mode {
            self.synchronize();
        }
        assert(within(*old(self), done) && declaration_begun(*old(self), done));
    }

    /// Ends the panic, and passes over tokens up to the next statement:
    /// to behind a semicolon, or to before a keyword that starts a
    /// statement.
    fn synchronize(&mut self)
        requires
            old(self).ready(),
        ensures
            final(self).follows(old(self)),
            synchronized(*old(self), *final(self)),
    {
        self.calm();
        let ghost calm = *self;
        while !self.check(TokenType::Eof)
            invariant
                self.follows(old(self)),
                within(calm, *self),
                passed_over(calm, *self),
            ensures
                self.follows(old(self)),
                passed_over(calm, *self),
                settled(*self),
            decreases self.measure(),
        {
            if self.previous.get_token_type() == TokenType::Semicolon {
                break ;
            }
            match self.current.get_token_type() {
                TokenType::Class
                | TokenType::Fun
                | TokenType::Var
                | TokenType::For
                | TokenType::If
                | TokenType::While
                | TokenType::Print
                | TokenType::Return => {
                    break ;
                },
                _ => {},
            }
            let ghost mid = *self;
            self.advance();
            assert(passed_over(calm, mid) && !settled(mid) && advanced(mid, *self));
        }
        assert(calmed(*old(self), calm));
    }

    /// What the statement does that begins with a token of kind `kind`,
    /// from behind that token on.
    fn statement_of(&mut self, kind: TokenType)
        requires
            old(self).ready(),
            old(self).spare(),
            opens_statement(kind),
        ensures
            final(self).follows(old(self)),
            stated_as(*old(self), *final(self), kind),
        decreases old(self).measure() + 1, 9int,
    {
        match kind {
            TokenType::Print => self.print_statement(),
            TokenType::If => self.if_statement(),
            TokenType::While => self.while_statement(),
            TokenType::For => self.for_statement(),
            TokenType::Return => self.return_statement(),
            _ => self.block_statement(),
        }
    }

    /// statement := exprStmt | forStmt | ifStmt | printStmt | returnStmt
    /// | whileStmt | block
    fn statement(&mut self)
        requires
            old(self).ready(),
        ensures
            final(self).follows(old(self)),
            stated(*old(self), *final(self)),
            old(self).current@.kind != TokenType::Eof ==> final(self).measure() < old(self).measure(),
        decreases old(self).measure(), 10int,
    {
        let kind = self.current.get_token_type();
        match kind {
            TokenType::Print
            | TokenType::If
            | TokenType::While
            | TokenType::For
            | TokenType::Return
            | TokenType::LeftBrace => {
                self.advance();
                let ghost begun = *self;
                self.statement_of(kind);
                assert(advanced(*old(self), begun) && begun.measure() < old(self).measure());
            },
            _ => {
                self.expression_statement();
            },
        }
    }

    /// A block as a statement: its declarations stand in a scope of their
    /// own.
    fn block_statement(&mut self)
        requires
            old(self).ready(),
            old(self).spare(),
        ensures
            final(self).follows(old(self)),
            block_stated(*old(self), *final(self)),
        decreases old(self).measure() + 1, 8int,
    {
        self.begin_scope();
        let ghost scoped = *self;
        self.block();
        let ghost closed = *self;
        self.end_scope();
        assert(scope_begun(*old(self), scoped) && within(*old(self), scoped) && blocked(
            scoped,
            closed,
        ) && scope_ended(closed, *self));
    }

    /// A condition in parentheses; `opening` is the complaint about a
    /// missing opening parenthesis.
    fn condition(&mut self, opening: &str)
        requires
            old(self).ready(),
        ensures
            final(self).follows(old(self)),
            conditioned(*old(self), *final(self), opening@),
    {
        self.consume(TokenType::LeftParen, opening);
        let ghost open = *self;
        self.expression();
        let ghost value = *self;
        self.consume(TokenType::RightParen, "Expected ')' after condition.");
        assert(within(*old(self), open) && within(open, value) && consumed(
            *old(self),
            open,
            TokenType::LeftParen,
            opening@,
        ) && expressed(open, value));
    }

    /// `if (e) s1 [else s2]`: the condition; a jump over `s1` where it is
    /// false; `s1`; a jump over `s2`; `s2`.
    fn if_statement(&mut self)
        requires
            old(self).ready(),
        ensures
            final(self).follows(old(self)),
            if_stated(*old(self), *final(self)),
            !final(self).had_error ==> exists|test: int, skip: int| #[trigger]
                if_layout(
                    final(self).code(),
                    old(self).code().len() as int,
                    test,
                    skip,
                    final(self).code().len() as int,
                ),
        decreases old(self).measure() + 1, 8int,
    {
        self.condition("Expected '(' after 'if'.");
        let ghost tested = *self;
        let ghost test = self.code().len() as int;
        let then_branch = self.emit_jump(OpCode::JumpIfFalse);
        let ghost jump = *self;
        self.emit_simple(OpCode::Pop);
        let ghost begun = *self;
        assert(jump_begun(tested, jump, OpCode::JumpIfFalse) && emitted_simple(
            jump,
            begun,
            OpCode::Pop,
        ));
        self.statement();
        let ghost first = *self;
        let ghost skip = self.code().len() as int;
        let else_branch = self.emit_jump(OpCode::Jump);
        let ghost over = *self;
        self.patch_jump(then_branch);
        let ghost landed = *self;
        self.emit_simple(OpCode::Pop);
        let ghost turn = *self;
        assert(jump_begun(first, over, OpCode::Jump) && jump_patched(
            over,
            landed,
            patch_place(tested),
        ) && emitted_simple(landed, turn, OpCode::Pop));

        if self.matches(TokenType::Else) {
            let ghost other = *self;
            self.statement();
            assert(advanced(turn, other) && other.measure() < turn.measure() && stated(
                other,
                *self,
            ));
        }
        let ghost second = *self;
        assert(else_stated(turn, second, *old(self)));
        self.patch_jump(else_branch);
        proof {
            if !self.had_error {
                assert(!turn.had_error);
                assert(self.code()[test] == turn.code()[test]);
                assert(self.code()[test + 1] == turn.code()[test + 1]);
                assert(self.code()[test + 2] == turn.code()[test + 2]);
                assert(self.code()[test + 3] == turn.code()[test + 3]);
                assert(self.code()[skip] == turn.code()[skip]);
                assert(self.code()[skip + 3] == turn.code()[skip + 3]);
                assert(if_layout(
                    self.code(),
                    old(self).code().len() as int,
                    test,
                    skip,
                    self.code().len() as int,
                ));
            }
            assert(within(*old(self), tested) && branched(tested, begun) && within(begun, first)
                && turned(first, turn, patch_place(tested)) && jump_patched(
                second,
                *self,
                patch_place(first),
            ));
        }
    }

    /// `while (e) body`: the condition with a jump out of the loop where
    /// it is false; the body with a jump back to the condition.
    fn while_statement(&mut self)
        requires
            old(self).ready(),
        ensures
            final(self).follows(old(self)),
            while_stated(*old(self), *final(self)),
            !final(self).had_error ==> exists|test: int, back: int| #[trigger]
                while_layout(final(self).code(), old(self).code().len() as int, test, back),
        decreases old(self).measure() + 1, 8int,
    {
        let loop_start = self.current_len();
        self.condition("Expected '(' after 'while'.");
        let ghost tested = *self;
        let ghost test = self.code().len() as int;
        let exit_jump = self.emit_jump(OpCode::JumpIfFalse);
        let ghost jump = *self;
        self.emit_simple(OpCode::Pop);
        let ghost begun = *self;
        assert(jump_begun(tested, jump, OpCode::JumpIfFalse) && emitted_simple(
            jump,
            begun,
            OpCode::Pop,
        ));
        self.statement();
        let ghost body = *self;
        let ghost back = self.code().len() as int;
        self.emit_loop(loop_start);
        let ghost looped_back = *self;
        self.patch_jump(exit_jump);
        let ghost landed = *self;
        self.emit_simple(OpCode::Pop);
        proof {
            if !self.had_error {
                assert(!looped_back.had_error);
                assert(self.code()[back] == looped_back.code()[back]);
                assert(self.code()[back + 1] == looped_back.code()[back + 1]);
                assert(self.code()[back + 2] == looped_back.code()[back + 2]);
                assert(while_layout(self.code(), old(self).code().len() as int, test, back));
            }
            assert(looped(body, looped_back, loop_start as int) && jump_patched(
                looped_back,
                landed,
                patch_place(tested),
            ) && emitted_simple(landed, *self, OpCode::Pop));
            assert(within(*old(self), tested) && branched(tested, begun) && repeated(
                body,
                *self,
                old(self).code().len() as int,
                patch_place(tested),
            ));
        }
    }

    /// The initializer of a `for` loop: nothing, a variable declaration
    /// or an expression statement.
    fn for_initializer(&mut self)
        requires
            old(self).ready(),
        ensures
            final(self).follows(old(self)),
            for_begun(*old(self), *final(self)),
    {
        if self.matches(TokenType::Semicolon) {
        } else if self.matches(TokenType::Var) {
            let ghost begun = *self;
            self.var_declaration();
            assert(advanced(*old(self), begun) && var_declared(begun, *self));
        } else {
            self.expression_statement();
        }
    }

    /// The condition of a `for` loop, up to its semicolon: where there is
    /// one, a jump out of the loop for a false condition, and `Pop`.
    /// Answers the patch of the jump.
    fn for_condition(&mut self) -> (exit_jump: Option<Patch>)
        requires
            old(self).ready(),
        ensures
            final(self).ready(),
            final(self).top().scope_depth == old(self).top().scope_depth,
            final(self).same_classes(old(self)),
            final(self).proceeds(old(self)),
            final(self).top().function_builder.arity == old(self).top().function_builder.arity,
            for_tested(*old(self), *final(self), landing(exit_jump)),
            match exit_jump {
                Some(jump) => {
                    &&& old(self).code().len() + 1 <= jump.location()
                    &&& final(self).code().len() == jump.location() + 3
                    &&& !old(self).pending().contains(jump.location())
                    &&& final(self).pending() =~= old(self).pending().insert(jump.location())
                    &&& stands(final(self).code(), jump.location() - 1, OpCode::JumpIfFalse)
                    &&& stands(final(self).code(), jump.location() + 2, OpCode::Pop)
                },
                None => final(self).pending() =~= old(self).pending(),
            },
    {
        if !self.matches(TokenType::Semicolon) {
            self.expression();
            let ghost value = *self;
            self.consume(TokenType::Semicolon, "Expected ';' after loop condition.");
            let ghost ended = *self;
            let jump = self.emit_jump(OpCode::JumpIfFalse);
            let ghost begun = *self;
            self.emit_simple(OpCode::Pop);
            assert(jump_begun(ended, begun, OpCode::JumpIfFalse) && emitted_simple(
                begun,
                *self,
                OpCode::Pop,
            ));
            assert(within(*old(self), value) && branched(ended, *self));
            Some(jump)
        } else {
            None
        }
    }

    /// The increment of a `for` loop, up to the closing parenthesis:
    /// where there is one, a jump over it to the body, the increment,
    /// `Pop`, and a jump back to `loop_start`. Answers where the body is
    /// to jump back to: the increment, or `loop_start` without one.
    fn for_increment(&mut self, loop_start: usize) -> (next_start: usize)
        requires
            old(self).ready(),
            loop_start <= old(self).code().len(),
        ensures
            final(self).follows(old(self)),
            for_stepped(*old(self), *final(self), loop_start as int, next_start as int),
            loop_start <= next_start <= final(self).code().len(),
            if old(self).current@.kind == TokenType::RightParen {
                next_start == loop_start && final(self).code().len() == old(self).code().len()
            } else {
                &&& next_start == old(self).code().len() + 3
                &&& next_start + 4 <= final(self).code().len()
                &&& !final(self).had_error ==> {
                    &&& jumps(
                        final(self).code(),
                        next_start - 3,
                        OpCode::Jump,
                        final(self).code().len() as int,
                    )
                    &&& stands(final(self).code(), final(self).code().len() - 4, OpCode::Pop)
                    &&& loops(final(self).code(), final(self).code().len() - 3, loop_start as int)
                }
            },
    {
        if !self.matches(TokenType::RightParen) {
            let body_jump = self.emit_jump(OpCode::Jump);
            let ghost jump = *self;
            let inc_start = self.current_len();
            self.expression();
            let ghost value = *self;
            self.emit_simple(OpCode::Pop);
            let ghost popped = *self;
            self.consume(TokenType::RightParen, "Expected ')' after for clause.");
            let ghost closed = *self;
            let ghost again = self.code().len() as int;
            self.emit_loop(loop_start);
            let ghost back = *self;
            self.patch_jump(body_jump);
            proof {
                if !self.had_error {
                    assert(!back.had_error);
                    assert(self.code()[again] == back.code()[again]);
                    assert(self.code()[again + 1] == back.code()[again + 1]);
                    assert(self.code()[again + 2] == back.code()[again + 2]);
                    assert(self.code()[again - 1] == back.code()[again - 1]);
                }
            }
            assert(jump_begun(*old(self), jump, OpCode::Jump) && emitted_simple(
                value,
                popped,
                OpCode::Pop,
            ) && looped(closed, back, loop_start as int) && expressed(jump, value));
            inc_start
        } else {
            loop_start
        }
    }

    /// The head of a `for` loop: a scope is opened; then the parenthesis,
    /// the initializer, the condition and the increment. Answers where
    /// the body is to jump back to, and the patch of the jump out of the
    /// loop; `parts` says where the parts of the head stand.
    fn for_head(&mut self) -> (head: (usize, Option<Patch>, Ghost<ForLoop>))
        requires
            old(self).ready(),
            old(self).spare(),
        ensures
            final(self).ready(),
            final(self).top().scope_depth == old(self).top().scope_depth + 1,
            final(self).same_classes(old(self)),
            final(self).proceeds(old(self)),
            final(self).top().function_builder.arity == old(self).top().function_builder.arity,
            for_headed(*old(self), *final(self), head.0 as int, landing(head.1)),
            head.0 <= final(self).code().len(),
            match head.1 {
                Some(jump) => {
                    &&& old(self).code().len() < jump.location()
                    &&& jump.location() + 3 <= final(self).code().len()
                    &&& head.2@.test == jump.location() - 1
                    &&& !old(self).pending().contains(jump.location())
                    &&& final(self).pending() =~= old(self).pending().insert(jump.location())
                },
                None => final(self).pending() =~= old(self).pending(),
            },
            head.2@.has_test == head.1.is_some(),
            head.0 == if head.2@.has_step {
                head.2@.over + 3
            } else {
                head.2@.condition
            },
            !final(self).had_error ==> for_head_layout(
                final(self).code(),
                old(self).code().len() as int,
                head.2@,
            ),
    {
        self.begin_scope();
        let ghost scoped = *self;
        self.consume(TokenType::LeftParen, "Expected '(' after 'for'.");
        let ghost open = *self;
        self.for_initializer();
        let ghost begun = *self;
        let loop_start = self.current_len();
        let exit_jump = self.for_condition();
        let ghost tested = *self;
        let body_start = self.for_increment(loop_start);
        let ghost parts = ForLoop {
            condition: loop_start as int,
            has_test: exit_jump.is_some(),
            test: if exit_jump is Some {
                exit_jump->0.location() - 1
            } else {
                0
            },
            has_step: tested.current@.kind != TokenType::RightParen,
            over: tested.code().len() as int,
            again: self.code().len() - 3,
            back: 0,
        };
        proof {
            assert(scope_begun(*old(self), scoped) && within(scoped, open) && for_begun(open, begun)
                && for_tested(begun, tested, landing(exit_jump)));
            if !self.had_error && parts.has_test {
                assert(!tested.had_error);
                assert(self.code()[parts.test] == tested.code()[parts.test]);
                assert(self.code()[parts.test + 3] == tested.code()[parts.test + 3]);
            }
        }
        (body_start, exit_jump, Ghost(parts))
    }

    /// `for (init; cond; incr) body`: in a scope of its own, the
    /// initializer; the condition with a jump out of the loop where it is
    /// false; a jump over the increment to the body; the increment with a
    /// jump back to the condition; the body with a jump back to the
    /// increment.
    #[verifier::rlimit(60)]
    fn for_statement(&mut self)
        requires
            old(self).ready(),
            old(self).spare(),
        ensures
            final(self).follows(old(self)),
            for_stated(*old(self), *final(self)),
            !final(self).had_error ==> exists|parts: ForLoop| #[trigger]
                for_layout(final(self).code(), old(self).code().len() as int, parts),
        decreases old(self).measure() + 1, 8int,
    {
        let ghost before = self.pending();
        let (body_start, exit_jump, Ghost(head)) = self.for_head();
        let ghost headed = *self;
        self.statement();
        let ghost body = *self;
        let ghost back = self.code().len() as int;
        self.emit_loop(body_start);
        let ghost jumped = *self;
        match exit_jump {
            Some(jump) => {
                self.patch_jump(jump);
                let ghost landed = *self;
                self.emit_simple(OpCode::Pop);
                proof {
                    landed_with_pop(jumped, landed, *self, jump.location() as int);
                }
            },
            None => {},
        }
        assert(self.pending() =~= before);
        let ghost left = *self;
        assert(for_left(jumped, left, landing(exit_jump)));
        self.end_scope();
        assert(looped(body, jumped, body_start as int) && scope_ended(left, *self));
        assert(for_ended(body, *self, body_start as int, landing(exit_jump)));
        assert(within(*old(self), headed));
        assert(for_headed(*old(self), headed, body_start as int, landing(exit_jump)));
        proof {
            if !self.had_error {
                let parts = ForLoop { back, ..head };
                let code = self.code();
                let test = parts.test;
                let over = parts.over;
                let again = parts.again;
                assert(!left.had_error && !jumped.had_error && !headed.had_error);
                assert(code[back] == jumped.code()[back]);
                assert(code[back + 1] == jumped.code()[back + 1]);
                assert(code[back + 2] == jumped.code()[back + 2]);
                if parts.has_test {
                    assert(code[test] == headed.code()[test]);
                    assert(code[test + 3] == headed.code()[test + 3]);
                    assert(code[test + 1] == left.code()[test + 1]);
                    assert(code[test + 2] == left.code()[test + 2]);
                    assert(code[back + 3] == left.code()[back + 3]);
                }
                if parts.has_step {
                    assert(code[over] == headed.code()[over]);
                    assert(code[over + 1] == headed.code()[over + 1]);
                    assert(code[over + 2] == headed.code()[over + 2]);
                    assert(code[again] == headed.code()[again]);
                    assert(code[again + 1] == headed.code()[again + 1]);
                    assert(code[again + 2] == headed.code()[again + 2]);
                    assert(code[again - 1] == headed.code()[again - 1]);
                }
                assert(for_layout(code, old(self).code().len() as int, parts));
            }
        }
    }

    /// The length of the code of the function under construction.
    fn current_len(&self) -> (n: usize)
        requires
            self.base(),
        ensures
            n == self.code().len(),
    {
        let n = self.compilers.len();
        self.compilers[n - 1].function_builder.builder.len()
    }

    /// funDecl: the name becomes a variable, which counts as initialized
    /// at once, so that the function can call itself.
    fn function_declaration(&mut self)
        requires
            old(self).ready(),
            old(self).spare(),
        ensures
            final(self).follows(old(self)),
            function_declared(*old(self), *final(self)),
        decreases old(self).measure() + 1, 8int,
    {
        let global = self.parse_variable("Expected function name.");
        let ghost named = *self;
        self.mark_initialized();
        let ghost known = *self;
        self.function(FunctionType::Function);
        let ghost made = *self;
        self.define_variable(global);
        assert(within(*old(self), named) && initialized(named, known) && defined(
            made,
            *self,
            global,
        ));
    }

    /// One parameter of a function, and the comma behind it if there is
    /// one: the parameter is counted and becomes a local of the function.
    /// More than 255 parameters are an error. Answers whether a comma
    /// followed.
    fn one_parameter(&mut self) -> (more: bool)
        requires
            old(self).ready(),
            old(self).top().scope_depth > 0,
        ensures
            final(self).ready(),
            final(self).top().scope_depth == old(self).top().scope_depth,
            final(self).same_classes(old(self)),
            final(self).pending() =~= old(self).pending(),
            final(self).proceeds(old(self)),
            final(self).code() == old(self).code(),
            final(self).heap == old(self).heap,
            parameter(*old(self), *final(self), more),
            more ==> final(self).measure() < old(self).measure(),
            !more ==> final(self).moved_or_stayed(old(self)),
    {
        self.count_parameter();
        let ghost counted = *self;
        let n = self.compilers.len();
        if self.compilers[n - 1].function_builder.get_arity() > 255 {
            self.error_at_current("Can't have more than 255 parameter names.");
        }
        let ghost warned = *self;
        let constant = self.parse_variable("Expected parameter name.");
        let ghost named = *self;
        self.define_variable(constant);
        let ghost known = *self;
        let more = self.matches(TokenType::Comma);
        assert(parameter_counted(*old(self), counted) && within(counted, warned) && defined(
            named,
            known,
            constant,
        ));
        more
    }

    /// The parameters of a function, up to the closing parenthesis: each
    /// becomes a local of the function.
    fn parameters(&mut self)
        requires
            old(self).ready(),
            old(self).top().scope_depth > 0,
        ensures
            final(self).ready(),
            final(self).top().scope_depth == old(self).top().scope_depth,
            final(self).same_classes(old(self)),
            final(self).pending() =~= old(self).pending(),
            final(self).proceeds(old(self)),
            final(self).moved_or_stayed(old(self)),
            final(self).code() == old(self).code(),
            final(self).heap == old(self).heap,
            parameters_read(*old(self), *final(self)),
    {
        if !self.check(TokenType::RightParen) {
            let ghost mut begun = false;
            loop
                invariant_except_break
                    begun ==> parameter_chain(*old(self), *self, true),
                    !begun ==> *self == *old(self),
                    begun ==> self.measure() < old(self).measure(),
                invariant
                    self.ready(),
                    self.top().scope_depth > 0,
                    self.top().scope_depth == old(self).top().scope_depth,
                    self.same_classes(old(self)),
                    self.pending() =~= old(self).pending(),
                    self.proceeds(old(self)),
                    self.code() == old(self).code(),
                    self.heap == old(self).heap,
                ensures
                    self.moved_or_stayed(old(self)),
                    parameter_chain(*old(self), *self, false),
                decreases self.measure(),
            {
                let ghost start = *self;
                let more = self.one_parameter();
                proof {
                    if begun {
                        assert(parameter_chain(*old(self), start, true) && parameter(
                            start,
                            *self,
                            more,
                        ));
                    }
                    begun = true;
                    assert(parameter_chain(*old(self), *self, more));
                }
                if !more {
                    break ;
                }
            }
        }
    }

    /// The head of a function: the compiler of the new function is put
    /// on top of the others, a scope is opened, and the parameters are
    /// read, up to the brace that opens the body.
    fn function_head(&mut self, kind: FunctionType)
        requires
            old(self).ready(),
            old(self).spare(),
        ensures
            final(self).ready(),
            function_headed(*old(self), *final(self), kind),
            final(self).compilers@.len() == old(self).compilers@.len() + 1,
            inside(*final(self), *old(self)),
            final(self).top().function_builder.kind == kind,
            final(self).top().scope_depth == 1,
            final(self).pending() =~= Set::<int>::empty(),
            final(self).same_classes(old(self)),
            final(self).source == old(self).source,
            final(self).numbers == old(self).numbers,
            final(self).measure() <= old(self).measure(),
            final(self).moved_or_stayed(old(self)),
            final(self).heap == old(self).heap,
            old(self).had_error ==> final(self).had_error,
    {
        self.begin_function(kind);
        let ghost begun = *self;
        self.begin_scope();
        let ghost scoped = *self;
        self.consume(TokenType::LeftParen, "Expected '(' after function name.");
        let ghost open = *self;
        self.parameters();
        let ghost listed = *self;
        self.consume(TokenType::RightParen, "Expected ')' after parameters.");
        let ghost closed = *self;
        self.consume(TokenType::LeftBrace, "Expected '{' before function body.");
        proof {
            assert forall|i: int| 0 <= i < old(self).compilers@.len() implies enclosed(
                #[trigger] self.compilers@[i],
                old(self).compilers@[i],
            ) by {
                assert(begun.compilers@.drop_last()[i] == old(self).compilers@[i]);
                assert(scoped.compilers@[i] == begun.compilers@[i]);
                assert(open.compilers@[i] == scoped.compilers@[i]);
                assert(enclosed(listed.compilers@[i], open.compilers@[i]));
                assert(closed.compilers@[i] == listed.compilers@[i]);
            }
            assert(function_begun(*old(self), begun, kind) && scope_begun(begun, scoped) && within(
                scoped,
                open,
            ) && within(open, listed) && within(listed, closed));
        }
    }

    /// Compiles a function from its parameter list on, in a compiler of
    /// its own, and emits the instruction that makes its closure: the
    /// opcode `Closure`, the constant that holds the function, and for
    /// each captured variable a flag and an index.
    fn function(&mut self, kind: FunctionType)
        requires
            old(self).ready(),
            old(self).spare(),
        ensures
            final(self).follows(old(self)),
            function_made(*old(self), *final(self), kind),
            old(self).current@.kind != TokenType::RightBrace && old(self).current@.kind
                != TokenType::Eof ==> final(self).measure() < old(self).measure(),
        decreases old(self).measure() + 1, 4int,
    {
        self.function_head(kind);
        let ghost headed = *self;
        self.block();
        let ghost body = *self;
        let n = self.compilers.len();
        let upvalues = copy_upvalues(&self.compilers[n - 1].upvalues);
        let function = self.end_compile();
        let ghost ended = *self;
        assert forall|i: int| 0 <= i < old(self).compilers@.len() implies enclosed(
            #[trigger] self.compilers@[i],
            old(self).compilers@[i],
        ) by {
            assert(self.compilers@[i] == body.compilers@.drop_last()[i]);
            assert(enclosed(body.compilers@[i], headed.compilers@[i]));
            assert(enclosed(headed.compilers@[i], old(self).compilers@[i]));
        }
        assert(self.base());
        assert(self.ready());
        assert(self.continues(old(self)));
        assert(self.same_classes(old(self)));
        self.emit_closure(function, &upvalues);
        assert(within(*old(self), headed) && function_ended(body, ended, function));
    }

    /// The name of the superclass: the superclass is pushed. A class
    /// that names itself is an error.
    fn superclass_name(&mut self, class_name: &Token)
        requires
            old(self).ready(),
        ensures
            final(self).follows(old(self)),
            superclass_named(*old(self), *final(self), class_name@.lexeme),
    {
        self.consume(TokenType::Identifier, "Expect superclass name.");
        let ghost read = *self;
        self.variable(false);
        let ghost loaded = *self;
        if class_name.same_lexeme(&self.previous) {
            self.error("A class cannot inherit from itself.");
        }
        assert(within(*old(self), read) && within(read, loaded) && named(
            read,
            loaded,
            read.previous@.lexeme,
            false,
        ));
    }

    /// The superclass, which is on the stack, becomes the local `super`
    /// of a new scope.
    fn bind_super(&mut self)
        requires
            old(self).ready(),
            old(self).spare(),
        ensures
            final(self).ready(),
            final(self).top().scope_depth == old(self).top().scope_depth + 1,
            final(self).same_classes(old(self)),
            final(self).continues(old(self)),
            final(self).measure() == old(self).measure(),
            super_bound(*old(self), *final(self)),
    {
        self.begin_scope();
        let ghost scoped = *self;
        let line = self.previous.get_line();
        self.add_local(Token::new(TokenType::Identifier, chars_of("super"), line));
        let ghost added = *self;
        self.define_variable(0);
        assert(scope_begun(*old(self), scoped) && defined(added, *self, 0) && local_wanted(
            scoped,
            added,
            super_token(scoped.previous@.line),
        ));
    }

    /// The superclass of a class, where the class names one: the
    /// superclass is pushed and becomes the local `super` of a new scope,
    /// and the class is pushed and inherits its methods. Answers whether
    /// there is a superclass.
    fn superclass(&mut self, class_name: &Token) -> (has_superclass: bool)
        requires
            old(self).ready(),
            old(self).spare(),
            old(self).class_compilers@.len() > 0,
        ensures
            final(self).ready(),
            final(self).spare(),
            has_superclass == (old(self).current@.kind == TokenType::Less),
            final(self).top().scope_depth == old(self).top().scope_depth + if has_superclass {
                1int
            } else {
                0int
            },
            final(self).class_compilers@.len() == old(self).class_compilers@.len(),
            final(self).class_compilers@.drop_last() == old(self).class_compilers@.drop_last(),
            final(self).continues(old(self)),
            inherited(*old(self), *final(self), class_name@.lexeme, has_superclass),
    {
        if self.matches(TokenType::Less) {
            let ghost begun = *self;
            self.superclass_name(class_name);
            let ghost known = *self;
            self.bind_super();
            let ghost bound = *self;
            self.named_variable(class_name.clone(), false);
            let ghost loaded = *self;
            self.emit_simple(OpCode::Inherit);
            let ghost linked = *self;
            self.note_superclass();
            assert(self.class_compilers@.drop_last() =~= old(self).class_compilers@.drop_last());
            assert(advanced(*old(self), begun) && superclass_named(
                begun,
                known,
                class_name@.lexeme,
            ) && super_bound(known, bound) && within(bound, loaded) && superclass_noted(
                linked,
                *self,
            ));
            true
        } else {
            false
        }
    }

    /// The body of a class: its methods between braces.
    fn class_body(&mut self)
        requires
            old(self).ready(),
            old(self).spare(),
        ensures
            final(self).follows(old(self)),
            methods_listed(*old(self), *final(self)),
        decreases old(self).measure() + 1, 6int,
    {
        self.consume(TokenType::LeftBrace, "Expected '{' before class body.");
        let ghost open = *self;
        while !self.check(TokenType::RightBrace) && !self.check(TokenType::Eof)
            invariant
                self.follows(old(self)),
                self.spare(),
                method_chain(open, *self),
                within(*old(self), open),
                within(open, *self),
            decreases self.measure(),
        {
            let ghost mid = *self;
            self.method();
            assert(within(mid, *self) && method_chain(open, mid) && method_made(mid, *self));
        }
        let ghost listed = *self;
        self.consume(TokenType::RightBrace, "Expected '}' after class body.");
        assert(within(*old(self), open) && within(open, listed) && method_chain(open, listed));
    }

    /// The head of a class declaration: the name, which is declared as a
    /// variable; the instruction `Class`, and the definition of the
    /// variable. Answers the constant that holds the name.
    fn class_head(&mut self) -> (name: u8)
        requires
            old(self).ready(),
            old(self).spare(),
        ensures
            final(self).ready(),
            final(self).spare(),
            final(self).top().scope_depth == old(self).top().scope_depth,
            final(self).continues(old(self)),
            final(self).class_compilers@.len() == old(self).class_compilers@.len() + 1,
            final(self).class_compilers@.drop_last() == old(self).class_compilers@,
            class_headed(*old(self), *final(self), name),
    {
        self.consume(TokenType::Identifier, "Expected class name.");
        let ghost read = *self;
        let name_text = self.previous.get_lexeme_string();
        let name = self.identifier_constant(name_text);
        let ghost known = *self;
        self.declare_variable();
        let ghost noted = *self;
        self.enter_class();
        let ghost entered = *self;
        self.emit_pair(OpCode::Class, name);
        let ghost made = *self;
        self.define_variable(name);
        assert(self.class_compilers@.drop_last() =~= old(self).class_compilers@);
        assert(within(*old(self), read) && declared(known, noted) && class_entered(noted, entered)
            && emitted_pair(entered, made, OpCode::Class, name));
        name
    }

    /// The end of a class declaration: the class is popped, the scope of
    /// `super` ends where the class has a superclass, and the parser
    /// leaves the class.
    fn class_end(&mut self, has_superclass: bool)
        requires
            old(self).ready(),
            old(self).class_compilers@.len() > 0,
            has_superclass ==> old(self).top().scope_depth > 0,
        ensures
            final(self).ready(),
            final(self).top().scope_depth == old(self).top().scope_depth - if has_superclass {
                1int
            } else {
                0int
            },
            final(self).continues(old(self)),
            final(self).class_compilers@ == old(self).class_compilers@.drop_last(),
            class_ended(*old(self), *final(self), has_superclass),
    {
        self.emit_simple(OpCode::Pop);
        let ghost popped = *self;
        if has_superclass {
            self.end_scope();
        }
        let ghost closed = *self;
        self.leave_class();
        assert(emitted_simple(*old(self), popped, OpCode::Pop) && class_left(closed, *self));
    }

    /// The start of a class declaration: the class is made and becomes a
    /// variable; with a superclass it inherits; then the class is
    /// pushed. Answers whether the class has a superclass.
    fn class_open(&mut self) -> (has_superclass: bool)
        requires
            old(self).ready(),
            old(self).spare(),
        ensures
            final(self).ready(),
            final(self).spare(),
            final(self).top().scope_depth == old(self).top().scope_depth + if has_superclass {
                1int
            } else {
                0int
            },
            final(self).continues(old(self)),
            final(self).class_compilers@.len() == old(self).class_compilers@.len() + 1,
            final(self).class_compilers@.drop_last() == old(self).class_compilers@,
            class_opened(*old(self), *final(self), has_superclass),
    {
        let name = self.class_head();
        let ghost headed = *self;
        let class_name = self.previous.clone();
        let has_superclass = self.superclass(&class_name);
        let ghost based = *self;
        self.named_variable(class_name, false);
        proof {
            assert(self.class_compilers@.drop_last() =~= old(self).class_compilers@);
            assert forall|i: int| 0 <= i < self.compilers@.len() implies (
            #[trigger] self.compilers@[i]).scope_depth + self.measure() + 1 <= self.source@.len()
                + 1 by {
                assert(self.compilers@[i].scope_depth == based.compilers@[i].scope_depth);
            }
            assert(class_headed(*old(self), headed, name) && within(headed, based));
        }
        has_superclass
    }

    /// classDecl: the class is made and becomes a variable. With a
    /// superclass, the superclass is pushed and becomes the local `super`
    /// of a scope around the methods, and the class inherits its methods.
    /// Then the methods are compiled, each defined by `Method`.
    fn class_declaration(&mut self)
        requires
            old(self).ready(),
            old(self).spare(),
        ensures
            final(self).follows(old(self)),
            class_declared(*old(self), *final(self)),
        decreases old(self).measure() + 1, 8int,
    {
        let has_superclass = self.class_open();
        let ghost opened = *self;
        self.class_body();
        let ghost body = *self;
        proof {
            continues_twice(*old(self), opened, body);
        }
        self.class_end(has_superclass);
        proof {
            continues_twice(*old(self), body, *self);
        }
        assert(self.class_compilers@ =~= old(self).class_compilers@);
        assert(within(*old(self), opened) && class_ended(body, *self, has_superclass));
    }

    /// A method: its name, then the function; defined by `Method`. The
    /// method `init` is the initializer.
    fn method(&mut self)
        requires
            old(self).ready(),
            old(self).spare(),
        ensures
            final(self).follows(old(self)),
            method_made(*old(self), *final(self)),
            old(self).current@.kind != TokenType::RightBrace && old(self).current@.kind
                != TokenType::Eof ==> final(self).measure() < old(self).measure(),
        decreases old(self).measure() + 1, 5int,
    {
        self.consume(TokenType::Identifier, "Expected method name.");
        let ghost named = *self;
        let text = self.previous.get_lexeme_string();
        let is_init = lexeme_is(&self.previous, "init");
        let constant = self.identifier_constant(text);
        let ghost known = *self;
        let kind = if is_init {
            FunctionType::Initializer
        } else {
            FunctionType::Method
        };
        self.function(kind);
        let ghost made = *self;
        self.emit_pair(OpCode::Method, constant);
        assert(within(*old(self), named) && within(named, known) && emitted_pair(
            made,
            *self,
            OpCode::Method,
            constant,
        ));
    }

    /// `return;` and `return e;`. At the top level `return` is an error,
    /// and so is a value returned from an initializer.
    fn return_statement(&mut self)
        requires
            old(self).ready(),
        ensures
            final(self).follows(old(self)),
            returned(*old(self), *final(self)),
    {
        let n = self.compilers.len();
        if self.compilers[n - 1].function_builder.get_kind() == FunctionType::Script {
            self.error("Can't return from top-level code.");
        }
        let ghost checked = *self;
        if self.matches(TokenType::Semicolon) {
            let ghost ended = *self;
            self.emit_return();
            assert(advanced(checked, ended) && emitted(
                ended,
                *self,
                return_code(old(self).top().function_builder.kind),
            ));
        } else {
            if self.compilers[n - 1].function_builder.get_kind() == FunctionType::Initializer {
                self.error("Cannot return a value from an initializer.");
            }
            let ghost warned = *self;
            self.expression();
            let ghost value = *self;
            self.consume(TokenType::Semicolon, "Expected ';' after return value.");
            let ghost ended = *self;
            self.emit_simple(OpCode::Return);
            assert(within(checked, warned) && within(warned, value) && emitted_simple(
                ended,
                *self,
                OpCode::Return,
            ));
        }
        assert(within(*old(self), checked));
    }

    /// varDecl: the name, the initializer or `nil`, and the definition.
    fn var_declaration(&mut self)
        requires
            old(self).ready(),
        ensures
            final(self).follows(old(self)),
            var_declared(*old(self), *final(self)),
    {
        let global = self.parse_variable("Expected variable name.");
        let ghost named = *self;
        if self.matches(TokenType::Equal) {
            let ghost begun = *self;
            self.expression();
            assert(advanced(named, begun) && expressed(begun, *self));
        } else {
            self.emit_simple(OpCode::Nil);
        }
        let ghost valued = *self;
        self.consume(TokenType::Semicolon, "Expected ';' after variable declaration.");
        let ghost ended = *self;
        self.define_variable(global);
        assert(within(*old(self), named) && within(named, valued) && defined(
            ended,
            *self,
            global,
        ));
    }

    /// `print e;`
    fn print_statement(&mut self)
        requires
            old(self).ready(),
        ensures
            final(self).follows(old(self)),
            printed(*old(self), *final(self)),
    {
        self.expression();
        let ghost value = *self;
        self.consume(TokenType::Semicolon, "Expected ';' after value.");
        let ghost ended = *self;
        self.emit_simple(OpCode::Print);
        assert(within(*old(self), value) && emitted_simple(ended, *self, OpCode::Print));
    }

    /// block := '{' declaration* '}', from behind the opening brace on.
    fn block(&mut self)
        requires
            old(self).ready(),
        ensures
            final(self).follows(old(self)),
            blocked(*old(self), *final(self)),
            old(self).current@.kind != TokenType::RightBrace && old(self).current@.kind
                != TokenType::Eof ==> final(self).measure() < old(self).measure(),
        decreases old(self).measure() + 1, 3int,
    {
        while !self.check(TokenType::RightBrace) && !self.check(TokenType::Eof)
            invariant
                self.follows(old(self)),
                self.moved_or_stayed(old(self)),
                block_items(*old(self), *self),
            decreases self.measure(),
        {
            let ghost mid = *self;
            self.declaration();
            assert(within(mid, *self) && block_items(*old(self), mid) && declaration_made(
                mid,
                *self,
            ));
        }
        let ghost listed = *self;
        self.consume(TokenType::RightBrace, "Expected '}' after block.");
        assert(within(*old(self), listed) && block_items(*old(self), listed));
    }

    /// An expression as a statement: its value is popped.
    fn expression_statement(&mut self)
        requires
            old(self).ready(),
        ensures
            final(self).follows(old(self)),
            expression_stated(*old(self), *final(self)),
            old(self).current@.kind != TokenType::Eof ==> final(self).measure() < old(self).measure(),
    {
        self.expression();
        let ghost value = *self;
        self.consume(TokenType::Semicolon, "Expected ';' after expression.");
        let ghost ended = *self;
        self.emit_simple(OpCode::Pop);
        assert(within(*old(self), value) && emitted_simple(ended, *self, OpCode::Pop));
    }
}

/// A jump that is resolved and followed by `Pop` is the landing of the
/// jump out of a `for` loop.
proof fn landed_with_pop(pre: Parser, landed: Parser, post: Parser, place: int)
    requires
        jump_patched(pre, landed, place),
        emitted_simple(landed, post, OpCode::Pop),
    ensures
        for_left(pre, post, Some(place)),
{
    let exit = Some(place);
    assert(jump_patched(pre, landed, exit->0));
}

/// A parser that has gone on from one that has gone on has gone on.
proof fn continues_twice(first: Parser, second: Parser, third: Parser)
    requires
        second.continues(&first),
        third.continues(&second),
    ensures
        third.continues(&first),
{
    assert forall|i: int| 0 <= i < first.code().len() implies #[trigger] third.code()[i]
        == first.code()[i] by {
        assert(second.code()[i] == first.code()[i]);
    }
    assert forall|i: int| 0 <= i < third.compilers@.len() - 1 implies {
        &&& (#[trigger] third.compilers@[i]).function_builder.builder
            == first.compilers@[i].function_builder.builder
        &&& third.compilers@[i].function_builder.kind == first.compilers@[i].function_builder.kind
        &&& third.compilers@[i].function_builder.arity
            == first.compilers@[i].function_builder.arity
        &&& third.compilers@[i].scope_depth == first.compilers@[i].scope_depth
    } by {
        assert(second.compilers@[i].scope_depth == first.compilers@[i].scope_depth);
    }
}

/// The compiler of an enclosing function is as it was, but for what its
/// function captures.
pub open spec fn enclosed(now: Compiler, before: Compiler) -> bool {
    &&& now.function_builder.builder == before.function_builder.builder
    &&& now.function_builder.kind == before.function_builder.kind
    &&& now.function_builder.arity == before.function_builder.arity
    &&& now.scope_depth == before.scope_depth
}

/// The parser `inner` compiles a function inside the function that
/// `outer` compiled.
pub open spec fn inside(inner: Parser, outer: Parser) -> bool {
    forall|i: int|
        0 <= i < outer.compilers@.len() ==> enclosed(
            #[trigger] inner.compilers@[i],
            outer.compilers@[i],
        )
}

/// Where the operands of a jump stand that waits for its patch.
pub open spec fn landing(jump: Option<Patch>) -> Option<int> {
    match jump {
        Some(patch) => Some(patch.location() as int),
        None => None,
    }
}

/// Copies a list of captured variables.
fn copy_upvalues(upvalues: &Vec<Upvalue>) -> (copy: Vec<Upvalue>)
    ensures
        copy@ == upvalues@,
{
    let mut copy: Vec<Upvalue> = Vec::new();
    let mut i: usize = 0;
    while i < upvalues.len()
        invariant
            i <= upvalues@.len(),
            copy@ == upvalues@.take(i as int),
        decreases upvalues@.len() - i,
    {
        copy.push(upvalues[i]);
        i += 1;
        assert(copy@ == upvalues@.take(i as int));
    }
    assert(upvalues@.take(upvalues@.len() as int) == upvalues@);
    copy
}

/// Whether the lexeme of `token` spells `word`.
fn lexeme_is(token: &Token, word: &str) -> (same: bool)
    ensures
        same == (token@.lexeme == word@),
{
    let lexeme = token.get_lexeme();
    let other = chars_of(word);
    crate::tokens::chars_equal(lexeme, &other)
}

} // verus!
