//! The parser's state and its elementary operations: reading tokens,
//! reporting errors, emitting code, and keeping track of variables.

use vstd::prelude::*;
use crate::chunk::{last_line, lined, lined_ends_with_line, lined_once, lined_twice, LineInfo, high_byte, low_byte, CodeUnit, Patch};
use crate::compile::effects::{
    calmed, patch_place, captured, capture_code, class_entered, class_left, closure_made, consumed,
    constant_pushed, declared, defined, function_begun, function_ended, identified, initialized,
    jump_begun, jump_patched, linked, local_wanted, looped, marked, parameter_counted, placed,
    return_code, same_errors, same_input, scope_begun, scope_ended, superclass_noted, tried,
    upvalue_added, variable_parsed,
};
use crate::compile::{declared_in_scope, locals_kept, ClassCompiler, CompileError, Compiler, Local, ParseRules, Place, Upvalue, MAX_LOCALS};
use crate::function::{Function, FunctionType};
use crate::heap::Heap;
use crate::intern_string::SymbolTable;
use crate::opcodes::{opcode_byte, required_indexes, OpCode, VARIABLE_INDEXES};
use crate::tokens::{Token, TokenModel, TokenType};
use crate::value::Value;

verus! {

/// The most tokens that a source can have.
pub const MAX_TOKENS: usize = 0x7fff_0000;

/// The parser: the tokens, the two tokens it looks at, what has gone
/// wrong so far, and the functions and classes under construction.
pub struct Parser {
    pub source: Vec<Token>,
    pub numbers: Vec<u64>,
    pub position: usize,
    pub current: Token,
    pub previous: Token,
    pub current_number: u64,
    pub previous_number: u64,
    pub had_error: bool,
    pub panic_mode: bool,
    pub errors: Vec<CompileError>,
    pub rules: ParseRules,
    pub symbol_table: SymbolTable,
    pub heap: Heap,
    pub compilers: Vec<Compiler>,
    pub class_compilers: Vec<ClassCompiler>,
}

/// Whether `place` is where `token` stands.
pub open spec fn place_of(place: Place, token: TokenModel) -> bool {
    match token.kind {
        TokenType::Eof => place is AtEnd,
        TokenType::Error => place is Unknown,
        _ => place matches Place::At(lexeme) && lexeme@ == token.lexeme,
    }
}

/// An error at `token` was reported: while the parser panics nothing is
/// recorded; else the error is recorded and the parser panics from now
/// on.
pub open spec fn reported(pre: Parser, post: Parser, token: TokenModel, message: Seq<char>) -> bool {
    &&& post.source == pre.source
    &&& post.numbers == pre.numbers
    &&& post.position == pre.position
    &&& post.current == pre.current
    &&& post.previous == pre.previous
    &&& post.current_number == pre.current_number
    &&& post.previous_number == pre.previous_number
    &&& post.symbol_table == pre.symbol_table
    &&& post.heap == pre.heap
    &&& post.compilers == pre.compilers
    &&& post.class_compilers == pre.class_compilers
    &&& if pre.panic_mode {
        &&& post.panic_mode
        &&& post.had_error == pre.had_error
        &&& post.errors == pre.errors
    } else {
        &&& post.panic_mode
        &&& post.had_error
        &&& post.errors@.len() == pre.errors@.len() + 1
        &&& post.errors@.drop_last() == pre.errors@
        &&& post.errors@.last().line == token.line
        &&& place_of(post.errors@.last().place, token)
        &&& post.errors@.last().message@ == message
    }
}

/// The place of the first token at or behind `from` that the scanner could
/// read, or the number of tokens where there is none.
pub open spec fn next_readable(source: Seq<Token>, from: int) -> int
    decreases source.len() - from,
{
    if 0 <= from < source.len() && source[from]@.kind == TokenType::Error {
        next_readable(source, from + 1)
    } else {
        from
    }
}

/// Of the tokens that the scanner could not read and that the parser
/// passed over, the first one was reported, unless the parser panicked
/// already; where it passed over none (`passed` is false), nothing was
/// reported.
pub open spec fn first_reported(pre: Parser, post: Parser, passed: bool) -> bool {
    if passed && !pre.panic_mode {
        &&& post.panic_mode
        &&& post.had_error
        &&& post.errors@.len() == pre.errors@.len() + 1
        &&& post.errors@.drop_last() == pre.errors@
        &&& post.errors@.last().line == pre.source@[pre.position as int]@.line
        &&& post.errors@.last().place is Unknown
        &&& post.errors@.last().message@ == pre.source@[pre.position as int]@.lexeme
    } else {
        &&& post.panic_mode == pre.panic_mode
        &&& post.had_error == pre.had_error
        &&& post.errors == pre.errors
    }
}

/// The parser has gone on to the next token that the scanner could read:
/// that token is the one it looks at, or the end of the source where no
/// such token is left; the token it looked at is the previous one.
pub open spec fn advanced(pre: Parser, post: Parser) -> bool {
    let next = next_readable(pre.source@, pre.position as int);
    &&& post.previous@ == pre.current@
    &&& post.previous_number == pre.current_number
    &&& if next < pre.source@.len() {
        &&& post.position == next + 1
        &&& post.current@ == pre.source@[next]@
        &&& post.current_number == pre.numbers@[next]
    } else {
        &&& post.position == pre.source@.len()
        &&& post.current@ == (TokenModel {
            kind: TokenType::Eof,
            lexeme: Seq::empty(),
            line: pre.current@.line,
        })
        &&& post.current_number == 0
    }
    &&& first_reported(pre, post, next > pre.position)
    &&& post.source == pre.source
    &&& post.numbers == pre.numbers
    &&& post.symbol_table == pre.symbol_table
    &&& post.heap == pre.heap
    &&& post.compilers == pre.compilers
    &&& post.class_compilers == pre.class_compilers
}

/// `units` were appended to the code of the function under construction,
/// all of them with the line of the token read last, or with that of the
/// code before them where that is a later one; nothing else changed but
/// the count of operands that the builder waits for.
pub open spec fn emitted(pre: Parser, post: Parser, units: Seq<u8>) -> bool {
    &&& post.source == pre.source
    &&& post.numbers == pre.numbers
    &&& post.position == pre.position
    &&& post.current == pre.current
    &&& post.previous == pre.previous
    &&& post.current_number == pre.current_number
    &&& post.previous_number == pre.previous_number
    &&& post.had_error == pre.had_error
    &&& post.panic_mode == pre.panic_mode
    &&& post.errors == pre.errors
    &&& post.symbol_table == pre.symbol_table
    &&& post.heap == pre.heap
    &&& post.class_compilers == pre.class_compilers
    &&& post.compilers@.len() == pre.compilers@.len()
    &&& forall|i: int|
        0 <= i < pre.compilers@.len() - 1 ==> #[trigger] post.compilers@[i] == pre.compilers@[i]
    &&& post.top().locals == pre.top().locals
    &&& post.top().upvalues == pre.top().upvalues
    &&& post.top().scope_depth == pre.top().scope_depth
    &&& post.top().function_builder.name == pre.top().function_builder.name
    &&& post.top().function_builder.arity == pre.top().function_builder.arity
    &&& post.top().function_builder.kind == pre.top().function_builder.kind
    &&& post.top().function_builder.upvalue_count == pre.top().function_builder.upvalue_count
    &&& post.top().function_builder.builder.chunk.constants
        == pre.top().function_builder.builder.chunk.constants
    &&& post.top().function_builder.builder.patch_count
        == pre.top().function_builder.builder.patch_count
    &&& post.pending() == pre.pending()
    &&& post.code() == pre.code() + units.map_values(|byte: u8| CodeUnit { byte })
    &&& post.lines() == lined(pre.lines(), pre.next_line(), units.len())
}

/// What was appended in two steps was appended.
pub proof fn emitted_twice(pre: Parser, mid: Parser, post: Parser, first: Seq<u8>, second: Seq<u8>)
    requires
        emitted(pre, mid, first),
        emitted(mid, post, second),
    ensures
        emitted(pre, post, first + second),
{
    assert((first + second).map_values(|byte: u8| CodeUnit { byte }) =~= first.map_values(
        |byte: u8| CodeUnit { byte },
    ) + second.map_values(|byte: u8| CodeUnit { byte }));
    assert(post.code() =~= pre.code() + (first + second).map_values(|byte: u8| CodeUnit { byte }));
    if first.len() > 0 {
        lined_ends_with_line(pre.lines(), pre.next_line(), first.len());
    }
    lined_twice(pre.lines(), pre.next_line(), first.len(), second.len());
}

/// Whether the code ends with `units`.
pub open spec fn ends_with(code: Seq<CodeUnit>, units: Seq<u8>) -> bool {
    &&& code.len() >= units.len()
    &&& forall|k: int|
        0 <= k < units.len() ==> (#[trigger] code[code.len() - units.len() + k]).byte == units[k]
}

/// Whether at `at` stands the forward jump `opcode` that leads to `target`:
/// its two operands spell the distance from behind them to the target.
pub open spec fn jumps(code: Seq<CodeUnit>, at: int, opcode: OpCode, target: int) -> bool {
    &&& 0 <= at
    &&& at + 2 < code.len()
    &&& code[at].byte == opcode_byte(opcode)
    &&& at + 3 + crate::chunk::address_of(code[at + 1].byte, code[at + 2].byte) == target
}

/// Whether at `at` stands a `Loop` that leads back to `target`: its two
/// operands spell the distance from behind them back to the target.
pub open spec fn loops(code: Seq<CodeUnit>, at: int, target: int) -> bool {
    &&& 0 <= at
    &&& at + 2 < code.len()
    &&& code[at].byte == opcode_byte(OpCode::Loop)
    &&& at + 3 - crate::chunk::address_of(code[at + 1].byte, code[at + 2].byte) == target
}

/// Whether the last code unit is the place of a constant that is `value`
/// or equals it.
pub open spec fn holds_constant(parser: Parser, value: Value) -> bool {
    let constants = parser.top().function_builder.builder.chunk.constants@;
    let index = parser.code().last().byte as int;
    &&& parser.code().len() > 0
    &&& index < constants.len()
    &&& (constants[index] == value || crate::value::values_equal(constants[index], value))
}

/// Whether at `at` stands the opcode `opcode`.
pub open spec fn stands(code: Seq<CodeUnit>, at: int, opcode: OpCode) -> bool {
    0 <= at < code.len() && code[at].byte == opcode_byte(opcode)
}

impl Parser {
    /// The compiler of the function under construction.
    pub open spec fn top(&self) -> Compiler {
        self.compilers@.last()
    }

    /// The code of the function under construction.
    pub open spec fn code(&self) -> Seq<CodeUnit> {
        self.top().function_builder.builder.chunk.code@
    }

    /// The source lines of the code of the function under construction,
    /// in runs.
    pub open spec fn lines(&self) -> Seq<LineInfo> {
        self.top().function_builder.builder.chunk.lines@
    }

    /// The line that the next opcode is written with: that of the token
    /// read last, but no line before that of the code written so far.
    pub open spec fn next_line(&self) -> u32 {
        let written = last_line(self.lines());
        if self.previous@.line >= written {
            self.previous@.line
        } else {
            written
        }
    }

    /// Whether an operand that is written now gets the line of its
    /// opcode: no token of a later line was read since.
    pub open spec fn in_line(&self) -> bool {
        self.previous@.line <= last_line(self.lines())
    }

    /// The constants of the function under construction.
    pub open spec fn constants(&self) -> Seq<Value> {
        self.top().function_builder.builder.chunk.constants@
    }

    /// The places in the code that wait for a jump's address.
    pub open spec fn pending(&self) -> Set<int> {
        self.top().function_builder.builder.pending@
    }

    /// How many operands the builder waits for.
    pub open spec fn required(&self) -> u8 {
        self.top().function_builder.builder.required_indexes
    }

    /// How many tokens are still to come, the one that the parser looks
    /// at included, the end of the source not counted.
    pub open spec fn measure(&self) -> nat {
        (self.source@.len() - self.position + if self.current@.kind != TokenType::Eof {
            1int
        } else {
            0int
        }) as nat
    }

    /// The state is consistent.
    pub open spec fn base(&self) -> bool {
        &&& self.position <= self.source@.len()
        &&& self.numbers@.len() == self.source@.len()
        &&& self.source@.len() < MAX_TOKENS
        &&& self.compilers@.len() >= 1
        &&& forall|i: int|
            0 <= i < self.compilers@.len() ==> {
                &&& (#[trigger] self.compilers@[i]).wf()
                &&& self.compilers@[i].scope_depth + self.measure() <= self.source@.len() + 1
            }
        &&& forall|i: int|
            0 <= i < self.compilers@.len() - 1 ==> {
                let waits = (
                #[trigger] self.compilers@[i]).function_builder.builder.required_indexes;
                waits == 0 || waits == VARIABLE_INDEXES
            }
        &&& self.heap.wf()
        &&& self.heap.structured()
        &&& (self.panic_mode ==> self.had_error)
        &&& (self.had_error ==> self.errors@.len() > 0)
    }

    /// There is room for one more scope: a token was read since the
    /// scopes were last counted against the tokens.
    pub open spec fn spare(&self) -> bool {
        forall|i: int|
            0 <= i < self.compilers@.len() ==> (#[trigger] self.compilers@[i]).scope_depth
                + self.measure() + 1 <= self.source@.len() + 1
    }

    /// The state is consistent and the builder waits for an opcode.
    pub open spec fn ready(&self) -> bool {
        &&& self.base()
        &&& (self.required() == 0 || self.required() == VARIABLE_INDEXES)
    }

    /// The parser has gone on from `before`: it is ready, it has not gone
    /// back in the source, it is in the same function, class and scope,
    /// the code that was there is there unchanged, every jump it began is
    /// patched, and an error once found stays found.
    pub open spec fn follows(&self, before: &Parser) -> bool {
        &&& self.ready()
        &&& self.top().scope_depth == before.top().scope_depth
        &&& self.same_classes(before)
        &&& self.continues(before)
    }

    /// The parser has gone on from `before`, in the same function and
    /// class: it has not gone back in the source, the code that was
    /// there is there unchanged, every jump it began is patched, and an
    /// error once found stays found.
    pub open spec fn continues(&self, before: &Parser) -> bool {
        &&& self.pending() =~= before.pending()
        &&& self.top().function_builder.arity == before.top().function_builder.arity
        &&& self.proceeds(before)
    }

    /// As `continues`, but for the jumps that are not patched yet and for
    /// the number of parameters of the function.
    pub open spec fn proceeds(&self, before: &Parser) -> bool {
        &&& self.source == before.source
        &&& self.numbers == before.numbers
        &&& self.measure() <= before.measure()
        &&& self.compilers@.len() == before.compilers@.len()
        &&& self.top().function_builder.kind == before.top().function_builder.kind
        &&& self.code().len() >= before.code().len()
        &&& self.heap.functions@.len() >= before.heap.functions@.len()
        &&& forall|i: int|
            0 <= i < before.code().len() ==> #[trigger] self.code()[i] == before.code()[i]
        &&& forall|i: int|
            0 <= i < self.compilers@.len() - 1 ==> {
                &&& (#[trigger] self.compilers@[i]).function_builder.builder
                    == before.compilers@[i].function_builder.builder
                &&& self.compilers@[i].function_builder.kind
                    == before.compilers@[i].function_builder.kind
                &&& self.compilers@[i].function_builder.arity
                    == before.compilers@[i].function_builder.arity
                &&& self.compilers@[i].scope_depth == before.compilers@[i].scope_depth
            }
        &&& (before.had_error ==> self.had_error)
    }

    /// The parser has read a token since `before`, or looks at the same
    /// token still.
    pub open spec fn moved_or_stayed(&self, before: &Parser) -> bool {
        self.measure() < before.measure() || self.current@ == before.current@
    }

    /// The same classes enclose the parser as enclosed it `before`.
    pub open spec fn same_classes(&self, before: &Parser) -> bool {
        self.class_compilers@ == before.class_compilers@
    }

    /// Whether the parser looks at a token of the given kind.
    pub fn check(&self, token_type: TokenType) -> (r: bool)
        ensures
            r == (self.current@.kind == token_type),
    {
        self.current.get_token_type() == token_type
    }

    /// Records an error at a token, unless the parser panics already.
    fn record(&mut self, line: u32, place: Place, message: &str)
        ensures
            final(self).source == old(self).source,
            final(self).numbers == old(self).numbers,
            final(self).position == old(self).position,
            final(self).current == old(self).current,
            final(self).previous == old(self).previous,
            final(self).current_number == old(self).current_number,
            final(self).previous_number == old(self).previous_number,
            final(self).symbol_table == old(self).symbol_table,
            final(self).heap == old(self).heap,
            final(self).compilers == old(self).compilers,
            final(self).class_compilers == old(self).class_compilers,
            final(self).panic_mode,
            if old(self).panic_mode {
                &&& final(self).had_error == old(self).had_error
                &&& final(self).errors == old(self).errors
            } else {
                &&& final(self).had_error
                &&& final(self).errors@.len() == old(self).errors@.len() + 1
                &&& final(self).errors@.drop_last() == old(self).errors@
                &&& final(self).errors@.last().line == line
                &&& final(self).errors@.last().place == place
                &&& final(self).errors@.last().message@ == message@
            },
    {
        if !self.panic_mode {
            self.panic_mode = true;
            self.had_error = true;
            self.errors.push(CompileError { line, place, message: message.to_string() });
            assert(self.errors@.drop_last() == old(self).errors@);
        }
    }

    /// Reports an error at the token that was read last.
    pub fn error(&mut self, message: &str)
        ensures
            reported(*old(self), *final(self), old(self).previous@, message@),
    {
        let line = self.previous.get_line();
        let place = place(&self.previous);
        self.record(line, place, message);
    }

    /// Reports an error at the token that the parser looks at.
    pub fn error_at_current(&mut self, message: &str)
        ensures
            reported(*old(self), *final(self), old(self).current@, message@),
    {
        let line = self.current.get_line();
        let place = place(&self.current);
        self.record(line, place, message);
    }

    /// Reports an error at `token`.
    pub fn error_at(&mut self, token: &Token, message: &str)
        ensures
            reported(*old(self), *final(self), token@, message@),
    {
        let line = token.get_line();
        let place = place(token);
        self.record(line, place, message);
    }

    /// Goes on to the next token. Tokens that the scanner could not read
    /// are reported and passed over. Behind the last token the parser
    /// looks at the end of the source.
    pub fn advance(&mut self)
        requires
            old(self).ready(),
        ensures
            final(self).follows(old(self)),
            advanced(*old(self), *final(self)),
            final(self).previous@ == old(self).current@,
            old(self).current@.kind != TokenType::Eof ==> final(self).measure() < old(self).measure(),
            final(self).compilers == old(self).compilers,
            final(self).heap == old(self).heap,
            final(self).current@.kind != TokenType::Error,
    {
        self.previous = self.current.clone();
        self.previous_number = self.current_number;
        let ghost start = self.position as int;
        let ghost next = next_readable(self.source@, start);
        loop
            invariant_except_break
                self.current == old(self).current,
                next == next_readable(self.source@, self.position as int),
                first_reported(*old(self), *self, self.position > start),
            invariant
                self.position <= self.source@.len(),
                self.source == old(self).source,
                self.numbers == old(self).numbers,
                self.symbol_table == old(self).symbol_table,
                self.compilers == old(self).compilers,
                self.class_compilers == old(self).class_compilers,
                self.heap == old(self).heap,
                self.previous@ == old(self).current@,
                self.previous_number == old(self).current_number,
                start == old(self).position,
                self.position >= start,
                next == next_readable(self.source@, start),
                old(self).ready(),
                old(self).had_error ==> self.had_error,
                self.panic_mode ==> self.had_error,
                self.had_error ==> self.errors@.len() > 0,
            ensures
                self.follows(old(self)),
                advanced(*old(self), *self),
                self.previous@ == old(self).current@,
                old(self).current@.kind != TokenType::Eof ==> self.measure() < old(self).measure(),
                self.compilers == old(self).compilers,
                self.heap == old(self).heap,
                self.current@.kind != TokenType::Error,
            decreases self.source@.len() - self.position,
        {
            if self.position >= self.source.len() {
                let line = self.previous.get_line();
                self.current = Token::new(TokenType::Eof, Vec::new(), line);
                self.current_number = 0;
                break ;
            }
            let token = self.source[self.position].clone();
            let number = self.numbers[self.position];
            self.position += 1;
            if token.get_token_type() == TokenType::Error {
                let message = token.get_lexeme_string();
                self.error_at(&token, message.as_str());
            } else {
                self.current = token;
                self.current_number = number;
                break ;
            }
        }
    }

    /// Goes on to the next token if the parser looks at one of the given
    /// kind.
    pub fn matches(&mut self, token_type: TokenType) -> (matched: bool)
        requires
            old(self).ready(),
        ensures
            final(self).follows(old(self)),
            tried(*old(self), *final(self), token_type),
            matched == (old(self).current@.kind == token_type),
            matched ==> advanced(*old(self), *final(self)),
            matched ==> final(self).previous@ == old(self).current@,
            matched && token_type != TokenType::Eof ==> final(self).measure() < old(self).measure(),
            !matched ==> *final(self) == *old(self),
            final(self).compilers == old(self).compilers,
            final(self).heap == old(self).heap,
    {
        if self.check(token_type) {
            self.advance();
            true
        } else {
            false
        }
    }

    /// Goes on to the next token if the parser looks at one of the given
    /// kind; else reports the error.
    pub fn consume(&mut self, token_type: TokenType, message: &str)
        requires
            old(self).ready(),
        ensures
            final(self).follows(old(self)),
            consumed(*old(self), *final(self), token_type, message@),
            old(self).current@.kind == token_type ==> advanced(*old(self), *final(self)),
            old(self).current@.kind == token_type ==> final(self).previous@ == old(self).current@,
            old(self).current@.kind != token_type ==> reported(
                *old(self),
                *final(self),
                old(self).current@,
                message@,
            ),
            old(self).current@.kind == token_type && token_type != TokenType::Eof ==> final(self).measure() < old(self).measure(),
            final(self).compilers == old(self).compilers,
            final(self).heap == old(self).heap,
    {
        if !self.matches(token_type) {
            self.error_at_current(message);
        }
    }

    /// The line for the next opcode: that of the token read last, but no
    /// line before that of the code written so far.
    fn line(&self) -> (line: u32)
        requires
            self.base(),
        ensures
            line == self.next_line(),
    {
        let n = self.compilers.len();
        let written = self.compilers[n - 1].function_builder.builder.line();
        let read = self.previous.get_line();
        if read >= written {
            read
        } else {
            written
        }
    }

    /// Appends an opcode to the code.
    pub fn emit_opcode(&mut self, opcode: OpCode)
        requires
            old(self).ready(),
        ensures
            final(self).base(),
            final(self).required() == required_indexes(opcode),
            emitted(*old(self), *final(self), seq![opcode_byte(opcode)]),
            final(self).in_line(),
    {
        let line = self.line();
        let n = self.compilers.len();
        self.compilers[n - 1].function_builder.builder.write_opcode(opcode, line);
        proof {
            assert(self.code() =~= old(self).code() + seq![opcode_byte(opcode)].map_values(
                |byte: u8| CodeUnit { byte },
            ));
            lined_once(old(self).lines(), line);
        }
    }

    /// Appends an operand to the code.
    pub fn emit_index(&mut self, index: u8)
        requires
            old(self).base(),
            old(self).required() != 0,
            old(self).in_line(),
        ensures
            final(self).base(),
            final(self).required() == if old(self).required() == VARIABLE_INDEXES {
                VARIABLE_INDEXES
            } else {
                (old(self).required() - 1) as u8
            },
            emitted(*old(self), *final(self), seq![index]),
            final(self).in_line(),
    {
        let n = self.compilers.len();
        self.compilers[n - 1].function_builder.builder.write_index(index);
        proof {
            assert(self.code() =~= old(self).code() + seq![index].map_values(
                |byte: u8| CodeUnit { byte },
            ));
            lined_once(old(self).lines(), old(self).next_line());
        }
    }

    /// Appends a two-byte address to the code.
    pub fn emit_address(&mut self, position: u16)
        requires
            old(self).base(),
            old(self).required() == 2,
            old(self).in_line(),
        ensures
            final(self).ready(),
            final(self).required() == 0,
            emitted(*old(self), *final(self), seq![high_byte(position), low_byte(position)]),
    {
        let n = self.compilers.len();
        self.compilers[n - 1].function_builder.builder.write_address(position);
        proof {
            assert(self.code() =~= old(self).code() + seq![
                high_byte(position),
                low_byte(position),
            ].map_values(|byte: u8| CodeUnit { byte }));
            let line = old(self).next_line();
            lined_once(old(self).lines(), line);
            lined_once(lined(old(self).lines(), line, 1), line);
            lined_twice(old(self).lines(), line, 1, 1);
        }
    }

    /// Appends an opcode and its one operand.
    pub fn emit_pair(&mut self, opcode: OpCode, index: u8)
        requires
            old(self).ready(),
            required_indexes(opcode) == 1,
        ensures
            final(self).follows(old(self)),
            emitted(*old(self), *final(self), seq![opcode_byte(opcode), index]),
            ends_with(final(self).code(), seq![opcode_byte(opcode), index]),
            stands(final(self).code(), final(self).code().len() - 2, opcode),
    {
        self.emit_opcode(opcode);
        let ghost begun = *self;
        self.emit_index(index);
        proof {
            assert(self.code() =~= old(self).code() + seq![opcode_byte(opcode), index].map_values(
                |byte: u8| CodeUnit { byte },
            ));
            emitted_twice(*old(self), begun, *self, seq![opcode_byte(opcode)], seq![index]);
        }
    }

    /// Appends an opcode and its two operands.
    pub fn emit_triple(&mut self, opcode: OpCode, first: u8, second: u8)
        requires
            old(self).ready(),
            required_indexes(opcode) == 2,
        ensures
            final(self).follows(old(self)),
            emitted(*old(self), *final(self), seq![opcode_byte(opcode), first, second]),
            stands(final(self).code(), final(self).code().len() - 3, opcode),
    {
        self.emit_opcode(opcode);
        let ghost begun = *self;
        self.emit_index(first);
        let ghost half = *self;
        self.emit_index(second);
        proof {
            assert(self.code() =~= old(self).code() + seq![
                opcode_byte(opcode),
                first,
                second,
            ].map_values(|byte: u8| CodeUnit { byte }));
            emitted_twice(*old(self), begun, half, seq![opcode_byte(opcode)], seq![first]);
            emitted_twice(
                *old(self),
                half,
                *self,
                seq![opcode_byte(opcode)] + seq![first],
                seq![second],
            );
        }
    }

    /// Appends an opcode that has no operand.
    pub fn emit_simple(&mut self, opcode: OpCode)
        requires
            old(self).ready(),
            required_indexes(opcode) == 0,
        ensures
            final(self).follows(old(self)),
            emitted(*old(self), *final(self), seq![opcode_byte(opcode)]),
            ends_with(final(self).code(), seq![opcode_byte(opcode)]),
    {
        self.emit_opcode(opcode);
    }

    /// Appends a jump whose address is not known yet, and answers the
    /// patch that will write it.
    pub fn emit_jump(&mut self, opcode: OpCode) -> (patch: Patch)
        requires
            old(self).ready(),
            opcode == OpCode::Jump || opcode == OpCode::JumpIfFalse,
        ensures
            final(self).ready(),
            final(self).required() == 0,
            final(self).proceeds(old(self)),
            jump_begun(*old(self), *final(self), opcode),
            patch.location() == patch_place(*old(self)),
            !old(self).pending().contains(patch.location()),
    {
        self.emit_opcode(opcode);
        let ghost begun = *self;
        let n = self.compilers.len();
        let patch = self.compilers[n - 1].function_builder.builder.write_patch();
        proof {
            assert(self.code() =~= old(self).code() + seq![
                CodeUnit { byte: opcode_byte(opcode) },
                CodeUnit { byte: 255 },
                CodeUnit { byte: 255 },
            ]);
            let line = old(self).next_line();
            lined_ends_with_line(old(self).lines(), line, 1);
            lined_once(begun.lines(), line);
            lined_once(lined(begun.lines(), line, 1), line);
            lined_twice(begun.lines(), line, 1, 1);
            lined_twice(old(self).lines(), line, 1, 2);
        }
        patch
    }

    /// Resolves a jump to the current end of the code: writes the
    /// distance from behind the jump's operands to here. A distance that
    /// does not fit in two bytes is an error.
    pub fn patch_jump(&mut self, patch: Patch)
        requires
            old(self).ready(),
            old(self).pending().contains(patch.location()),
        ensures
            final(self).ready(),
            final(self).required() == old(self).required(),
            jump_patched(*old(self), *final(self), patch.location()),
            patch.location() + 2 <= old(self).code().len(),
            final(self).code().len() == old(self).code().len(),
            forall|i: int|
                0 <= i < old(self).code().len() && i != patch.location() && i != patch.location()
                    + 1 ==> #[trigger] final(self).code()[i] == old(self).code()[i],
            old(self).had_error ==> final(self).had_error,
            !final(self).had_error ==> crate::chunk::address_of(
                final(self).code()[patch.location()].byte,
                final(self).code()[patch.location() + 1].byte,
            ) == old(self).code().len() - patch.location() - 2,
    {
        let n = self.compilers.len();
        proof {
            self.top().function_builder.builder.pending_is_inside(patch.location());
        }
        let distance = self.compilers[n - 1].function_builder.builder.len() - patch.get_own_index()
            - 2;
        if distance > u16::MAX as usize {
            self.error("Too much code to jump over.");
            patch.apply(&mut self.compilers[n - 1].function_builder.builder, 0);
        } else {
            proof {
                crate::chunk::address_round_trip(distance as u16);
            }
            patch.apply(&mut self.compilers[n - 1].function_builder.builder, distance as u16);
        }
    }

    /// Appends a jump back to `loop_start`. A distance that does not fit
    /// in two bytes is an error.
    pub fn emit_loop(&mut self, loop_start: usize)
        requires
            old(self).ready(),
            loop_start <= old(self).code().len(),
        ensures
            final(self).follows(old(self)),
            looped(*old(self), *final(self), loop_start as int),
            !final(self).had_error ==> loops(
                final(self).code(),
                old(self).code().len() as int,
                loop_start as int,
            ),
    {
        self.emit_opcode(OpCode::Loop);
        let ghost begun = *self;
        let n = self.compilers.len();
        let distance = self.compilers[n - 1].function_builder.builder.len() - loop_start;
        if distance > u16::MAX as usize - 2 {
            self.error("Loop body too large.");
            self.emit_address(0);
        } else {
            proof {
                crate::chunk::address_round_trip((distance + 2) as u16);
            }
            self.emit_address((distance + 2) as u16);
        }
        proof {
            let offset = distance + 2;
            let written = if offset > u16::MAX {
                0u16
            } else {
                offset as u16
            };
            assert(self.code() =~= old(self).code() + seq![
                CodeUnit { byte: opcode_byte(OpCode::Loop) },
                CodeUnit { byte: high_byte(written) },
                CodeUnit { byte: low_byte(written) },
            ]);
            let line = old(self).next_line();
            lined_ends_with_line(old(self).lines(), line, 1);
            lined_twice(old(self).lines(), line, 1, 2);
        }
    }

    /// The place of `value` among the constants of the function under
    /// construction, where it is put if it is not there. A place that
    /// does not fit in one byte is an error, and the answer is then 0.
    pub fn make_constant(&mut self, value: Value) -> (index: u8)
        requires
            old(self).base(),
        ensures
            final(self).base(),
            final(self).required() == old(self).required(),
            placed(*old(self), *final(self), value, index),
            old(self).had_error ==> final(self).had_error,
    {
        let n = self.compilers.len();
        let index = self.compilers[n - 1].function_builder.builder.add_constant(value);
        if index > u8::MAX as usize {
            self.error("Too many constants in one chunk.");
            0
        } else {
            index as u8
        }
    }

    /// Appends the instruction that pushes `value`: `Constant` with the
    /// place of the value among the constants.
    pub(crate) fn emit_constant(&mut self, value: Value)
        requires
            old(self).ready(),
        ensures
            final(self).follows(old(self)),
            constant_pushed(*old(self), *final(self), value),
            final(self).code().len() == old(self).code().len() + 2,
            stands(final(self).code(), old(self).code().len() as int, OpCode::Constant),
            !final(self).had_error ==> holds_constant(*final(self), value),
            final(self).heap == old(self).heap,
            final(self).measure() == old(self).measure(),
    {
        proof {
            crate::chunk::first_equal_is_first(
                self.top().function_builder.builder.chunk.constants@,
                value,
            );
        }
        let index = self.make_constant(value);
        let ghost mid = *self;
        self.emit_pair(OpCode::Constant, index);
        assert(placed(*old(self), mid, value, index) && emitted(
            mid,
            *self,
            seq![opcode_byte(OpCode::Constant), index],
        ));
    }

    /// Appends the instruction that makes the closure of `function`:
    /// `Closure`, the constant that holds the function, and for each
    /// captured variable a flag, which is 1 for a local of the enclosing
    /// function, and an index.
    pub(crate) fn emit_closure(&mut self, function: crate::function::Function, upvalues: &Vec<Upvalue>)
        requires
            old(self).ready(),
        ensures
            final(self).base(),
            final(self).required() == VARIABLE_INDEXES,
            final(self).top().scope_depth == old(self).top().scope_depth,
            final(self).same_classes(old(self)),
            final(self).continues(old(self)),
            final(self).heap == old(self).heap,
            final(self).measure() == old(self).measure(),
            closure_made(*old(self), *final(self), function, upvalues@),
    {
        proof {
            crate::chunk::first_equal_is_first(
                self.top().function_builder.builder.chunk.constants@,
                Value::Function(function),
            );
        }
        let index = self.make_constant(Value::Function(function));
        let ghost known = *self;
        self.emit_opcode(OpCode::Closure);
        let ghost opened = *self;
        self.emit_index(index);
        proof {
            emitted_twice(known, opened, *self, seq![opcode_byte(OpCode::Closure)], seq![index]);
            assert(seq![opcode_byte(OpCode::Closure)] + seq![index] =~= seq![
                opcode_byte(OpCode::Closure),
                index,
            ]);
            assert(upvalues@.take(0) =~= Seq::<Upvalue>::empty());
            assert(seq![opcode_byte(OpCode::Closure), index] + capture_code(upvalues@.take(0))
                =~= seq![opcode_byte(OpCode::Closure), index]);
        }
        let mut k: usize = 0;
        while k < upvalues.len()
            invariant
                k <= upvalues@.len(),
                self.base(),
                self.required() == VARIABLE_INDEXES,
                self.top().scope_depth == old(self).top().scope_depth,
                self.same_classes(old(self)),
                self.continues(old(self)),
                self.heap == old(self).heap,
                self.measure() == old(self).measure(),
                placed(*old(self), known, Value::Function(function), index),
                emitted(
                    known,
                    *self,
                    seq![opcode_byte(OpCode::Closure), index] + capture_code(
                        upvalues@.take(k as int),
                    ),
                ),
            decreases upvalues@.len() - k,
        {
            let upvalue = upvalues[k];
            let flag: u8 = if upvalue.is_local {
                1
            } else {
                0
            };
            let ghost before = *self;
            self.emit_index(flag);
            let ghost flagged = *self;
            self.emit_index(upvalue.index);
            proof {
                let head = seq![opcode_byte(OpCode::Closure), index];
                let so_far = upvalues@.take(k as int);
                let next = upvalues@.take(k + 1);
                emitted_twice(before, flagged, *self, seq![flag], seq![upvalue.index]);
                emitted_twice(
                    known,
                    before,
                    *self,
                    head + capture_code(so_far),
                    seq![flag] + seq![upvalue.index],
                );
                assert(next.drop_last() =~= so_far);
                assert(next.last() == upvalue);
                assert(seq![flag] + seq![upvalue.index] =~= seq![flag, upvalue.index]);
                assert(head + capture_code(so_far) + (seq![flag] + seq![upvalue.index]) =~= head
                    + capture_code(next));
            }
            k += 1;
        }
        proof {
            assert(upvalues@.take(upvalues@.len() as int) =~= upvalues@);
        }
    }

    /// Appends the instructions that end a function: an initializer
    /// returns the instance in slot 0, anything else `nil`.
    pub fn emit_return(&mut self)
        requires
            old(self).ready(),
        ensures
            final(self).follows(old(self)),
            final(self).required() == 0,
            emitted(
                *old(self),
                *final(self),
                return_code(old(self).top().function_builder.kind),
            ),
    {
        let n = self.compilers.len();
        match self.compilers[n - 1].function_builder.get_kind() {
            FunctionType::Initializer => {
                self.emit_opcode(OpCode::GetLocal);
                let ghost begun = *self;
                self.emit_index(0);
                proof {
                    emitted_twice(
                        *old(self),
                        begun,
                        *self,
                        seq![opcode_byte(OpCode::GetLocal)],
                        seq![0u8],
                    );
                    assert(seq![opcode_byte(OpCode::GetLocal)] + seq![0u8] =~= seq![
                        opcode_byte(OpCode::GetLocal),
                        0u8,
                    ]);
                }
            },
            _ => {
                self.emit_opcode(OpCode::Nil);
            },
        }
        let ghost loaded = *self;
        self.emit_opcode(OpCode::Return);
        proof {
            let head = if old(self).top().function_builder.kind == FunctionType::Initializer {
                seq![opcode_byte(OpCode::GetLocal), 0u8]
            } else {
                seq![opcode_byte(OpCode::Nil)]
            };
            emitted_twice(*old(self), loaded, *self, head, seq![opcode_byte(OpCode::Return)]);
            assert(head + seq![opcode_byte(OpCode::Return)] =~= return_code(
                old(self).top().function_builder.kind,
            ));
            let units = if old(self).top().function_builder.kind == FunctionType::Initializer {
                seq![opcode_byte(OpCode::GetLocal), 0u8, opcode_byte(OpCode::Return)]
            } else {
                seq![opcode_byte(OpCode::Nil), opcode_byte(OpCode::Return)]
            };
            assert(self.code() =~= old(self).code() + units.map_values(
                |byte: u8| CodeUnit { byte },
            ));
        }
    }

    /// Opens a scope.
    pub fn begin_scope(&mut self)
        requires
            old(self).ready(),
            old(self).top().scope_depth + 1 + old(self).measure() <= old(self).source@.len() + 1,
        ensures
            final(self).ready(),
            final(self).continues(old(self)),
            scope_begun(*old(self), *final(self)),
    {
        let n = self.compilers.len();
        self.compilers[n - 1].inc_scope_depth();
    }

    /// Closes the innermost scope: its locals leave the list, and for
    /// each, from the last one back, an instruction is emitted that takes
    /// it off the stack: `CloseUpvalue` for one that was captured, `Pop`
    /// for any other.
    pub fn end_scope(&mut self)
        requires
            old(self).ready(),
            old(self).top().scope_depth > 0,
        ensures
            final(self).ready(),
            final(self).continues(old(self)),
            scope_ended(*old(self), *final(self)),
    {
        let n = self.compilers.len();
        self.compilers[n - 1].dec_scope_depth();
        let is_captured = self.compilers[n - 1].remove_out_of_scope_locals();
        let ghost start = *self;
        let mut k: usize = 0;
        while k < is_captured.len()
            invariant
                k <= is_captured@.len(),
                n == self.compilers@.len(),
                self.ready(),
                self.compilers@.len() == start.compilers@.len(),
                self.top().scope_depth == start.top().scope_depth,
                self.top().locals == start.top().locals,
                self.top().upvalues == start.top().upvalues,
                self.top().function_builder.kind == start.top().function_builder.kind,
                self.top().function_builder.arity == start.top().function_builder.arity,
                self.top().function_builder.name == start.top().function_builder.name,
                self.top().function_builder.upvalue_count
                    == start.top().function_builder.upvalue_count,
                self.pending() == start.pending(),
                self.constants() == start.constants(),
                self.lines() == lined(start.lines(), start.next_line(), k as nat),
                same_input(start, *self),
                same_errors(start, *self),
                self.symbol_table == start.symbol_table,
                self.class_compilers == start.class_compilers,
                self.heap == start.heap,
                forall|i: int|
                    0 <= i < start.compilers@.len() - 1 ==> #[trigger] self.compilers@[i]
                        == start.compilers@[i],
                self.code().len() == start.code().len() + k,
                forall|i: int|
                    0 <= i < start.code().len() ==> #[trigger] self.code()[i] == start.code()[i],
                forall|j: int|
                    0 <= j < k ==> #[trigger] self.code()[start.code().len() + j] == (CodeUnit {
                        byte: if is_captured@[j] {
                            opcode_byte(OpCode::CloseUpvalue)
                        } else {
                            opcode_byte(OpCode::Pop)
                        },
                    }),
            decreases is_captured@.len() - k,
        {
            let ghost before = *self;
            if is_captured[k] {
                self.emit_simple(OpCode::CloseUpvalue);
            } else {
                self.emit_simple(OpCode::Pop);
            }
            proof {
                if k > 0 {
                    lined_ends_with_line(start.lines(), start.next_line(), k as nat);
                }
                lined_twice(start.lines(), start.next_line(), k as nat, 1);
            }
            k += 1;
        }
    }

    /// Declares the local `name`, not yet initialized. More locals than a
    /// function can have is an error.
    pub fn add_local(&mut self, name: Token)
        requires
            old(self).ready(),
        ensures
            final(self).follows(old(self)),
            local_wanted(*old(self), *final(self), name@),
    {
        let n = self.compilers.len();
        if self.compilers[n - 1].get_local_count() < MAX_LOCALS {
            let local = Local::new(name, -1);
            self.compilers[n - 1].push_local(local);
            assert(self.top().locals@.drop_last() == old(self).top().locals@);
        } else {
            self.error("Too many local variables in function.");
        }
    }

    /// Declares the variable named by the token read last. At the top
    /// level nothing happens: globals are not declared. In a scope the
    /// variable becomes a local, unless the scope has one of that name
    /// already, which is an error.
    pub(crate) fn declare_variable(&mut self)
        requires
            old(self).ready(),
        ensures
            final(self).follows(old(self)),
            declared(*old(self), *final(self)),
    {
        let n = self.compilers.len();
        if self.compilers[n - 1].get_scope_depth() > 0 {
            let name = self.previous.clone();
            if !self.compilers[n - 1].check_variable_declared_in_current_scope(&name) {
                self.add_local(name);
            } else {
                self.error("Already declared a variable with this name in this scope.");
            }
        }
    }

    /// Defines the variable that was declared last: a global by the
    /// instruction `DefineGlobal`, a local by marking it initialized.
    pub fn define_variable(&mut self, global: u8)
        requires
            old(self).ready(),
        ensures
            final(self).follows(old(self)),
            defined(*old(self), *final(self), global),
    {
        let n = self.compilers.len();
        if self.compilers[n - 1].get_scope_depth() == 0 {
            self.emit_pair(OpCode::DefineGlobal, global);
        } else {
            self.mark_initialized();
        }
    }

    /// Marks the local that was declared last as initialized. At the top
    /// level nothing happens.
    pub(crate) fn mark_initialized(&mut self)
        requires
            old(self).ready(),
        ensures
            final(self).follows(old(self)),
            initialized(*old(self), *final(self)),
            final(self).heap == old(self).heap,
            final(self).measure() == old(self).measure(),
            final(self).moved_or_stayed(old(self)),
            old(self).spare() ==> final(self).spare(),
    {
        let n = self.compilers.len();
        self.compilers[n - 1].mark_local_initialized();
        proof {
            if old(self).spare() {
                assert forall|i: int| 0 <= i < self.compilers@.len() implies (
                #[trigger] self.compilers@[i]).scope_depth + self.measure() + 1
                    <= self.source@.len() + 1 by {
                    assert(self.compilers@[i].scope_depth == old(self).compilers@[i].scope_depth);
                }
            }
        }
    }

    /// Counts one more parameter of the function under construction, up
    /// to 256.
    pub(crate) fn count_parameter(&mut self)
        requires
            old(self).ready(),
        ensures
            final(self).ready(),
            parameter_counted(*old(self), *final(self)),
    {
        let n = self.compilers.len();
        if self.compilers[n - 1].function_builder.get_arity() < 256 {
            self.compilers[n - 1].function_builder.inc_arity(1);
        }
    }

    /// Puts the compiler of a new function of kind `kind` on top of the
    /// others. The function is named by the token read last, unless it is
    /// the script.
    pub(crate) fn begin_function(&mut self, kind: FunctionType)
        requires
            old(self).ready(),
        ensures
            final(self).ready(),
            function_begun(*old(self), *final(self), kind),
    {
        self.compilers.push(Compiler::new(kind));
        let n = self.compilers.len();
        if kind != FunctionType::Script {
            let name = self.previous.get_lexeme_string();
            let intern = self.symbol_table.intern(name);
            self.compilers[n - 1].function_builder.set_name(intern);
        }
        assert(self.compilers@.drop_last() == old(self).compilers@);
    }

    /// Enters a class.
    pub(crate) fn enter_class(&mut self)
        requires
            old(self).ready(),
        ensures
            final(self).ready(),
            class_entered(*old(self), *final(self)),
    {
        self.class_compilers.push(ClassCompiler::new());
    }

    /// Leaves the innermost class.
    pub(crate) fn leave_class(&mut self)
        requires
            old(self).ready(),
            old(self).class_compilers@.len() > 0,
        ensures
            final(self).ready(),
            class_left(*old(self), *final(self)),
    {
        self.class_compilers.pop();
    }

    /// Notes that the innermost class has a superclass.
    pub(crate) fn note_superclass(&mut self)
        requires
            old(self).ready(),
            old(self).class_compilers@.len() > 0,
        ensures
            final(self).ready(),
            superclass_noted(*old(self), *final(self)),
    {
        let classes = self.class_compilers.len();
        self.class_compilers[classes - 1].set_has_superclass(true);
        assert(self.class_compilers@ =~= old(self).class_compilers@.drop_last().push(
            ClassCompiler { has_superclass: true },
        ));
    }

    /// Ends the panic.
    pub(crate) fn calm(&mut self)
        requires
            old(self).ready(),
        ensures
            final(self).follows(old(self)),
            calmed(*old(self), *final(self)),
    {
        self.panic_mode = false;
    }

    /// The constant that holds the name `name`.
    pub(crate) fn identifier_constant(&mut self, name: String) -> (index: u8)
        requires
            old(self).ready(),
        ensures
            final(self).follows(old(self)),
            identified(*old(self), *final(self), name@, index),
            final(self).required() == old(self).required(),
            !final(self).had_error ==> {
                let constants = final(self).top().function_builder.builder.chunk.constants@;
                &&& index < constants.len()
                &&& constants[index as int] matches Value::String(symbol)
                &&& symbol@ == name@
            },
    {
        let intern = self.symbol_table.intern(name);
        proof {
            crate::chunk::first_equal_is_first(
                self.top().function_builder.builder.chunk.constants@,
                Value::String(intern),
            );
        }
        let index = self.make_constant(Value::String(intern));
        assert(intern@ == name@ && placed(*old(self), *self, Value::String(intern), index));
        index
    }

    /// Reads the name of a variable and declares it. Answers the constant
    /// that holds the name of a global, 0 for a local.
    pub(crate) fn parse_variable(&mut self, error_message: &str) -> (constant: u8)
        requires
            old(self).ready(),
        ensures
            final(self).follows(old(self)),
            variable_parsed(*old(self), *final(self), error_message@, constant),
            final(self).code() == old(self).code(),
            final(self).heap == old(self).heap,
            final(self).moved_or_stayed(old(self)),
    {
        self.consume(TokenType::Identifier, error_message);
        let ghost read = *self;
        self.declare_variable();
        let ghost known = *self;
        assert(consumed(*old(self), read, TokenType::Identifier, error_message@) && declared(
            read,
            known,
        ));
        let n = self.compilers.len();
        if self.compilers[n - 1].get_scope_depth() > 0 {
            0
        } else {
            let name = self.previous.get_lexeme_string();
            self.identifier_constant(name)
        }
    }

    /// Notes that the function of compiler `compiler_index` captures a
    /// variable, and answers its place among the captured variables.
    /// More of them than a function can have is an error, and the answer
    /// is then 0.
    pub(crate) fn add_upvalue(&mut self, compiler_index: usize, index: u8, is_local: bool) -> (place:
        isize)
        requires
            old(self).ready(),
            compiler_index < old(self).compilers@.len(),
        ensures
            final(self).follows(old(self)),
            upvalue_added(
                *old(self),
                *final(self),
                compiler_index as int,
                Upvalue { index, is_local },
                place as int,
            ),
            final(self).code() == old(self).code(),
            final(self).heap == old(self).heap,
            final(self).measure() == old(self).measure(),
            final(self).current == old(self).current,
            final(self).previous == old(self).previous,
            0 <= place < 256,
            forall|i: int|
                0 <= i < old(self).compilers@.len() ==> (#[trigger] final(self).compilers@[i]).locals@.len() == old(self).compilers@[i].locals@.len(),
    {
        let upvalue = Upvalue::new(index, is_local);
        proof {
            crate::compile::upvalue_place_is_inside(
                self.compilers@[compiler_index as int].upvalues@,
                upvalue,
                self.compilers@[compiler_index as int].upvalues@.len() as int,
            );
        }
        match self.compilers[compiler_index].add_upvalue(upvalue) {
            Some(i) => i as isize,
            None => {
                self.error("Too many closures variables in function.");
                0
            },
        }
    }

    /// Resolves `token` as a variable that the function of compiler
    /// `depth` captures from an enclosing function. Where the enclosing
    /// function has a local of that name, the local is marked as captured
    /// and the function captures its slot; else, where the enclosing
    /// function itself can capture the variable, the function captures
    /// that. Answers the place among the function's captured variables,
    /// or -1 where no enclosing function knows the name.
    pub(crate) fn resolve_upvalue(&mut self, depth: usize, token: &Token) -> (place: isize)
        requires
            old(self).ready(),
            depth < old(self).compilers@.len(),
        ensures
            final(self).follows(old(self)),
            captured(*old(self), *final(self), depth as int, token@.lexeme, place as int),
            final(self).code() == old(self).code(),
            final(self).heap == old(self).heap,
            final(self).measure() == old(self).measure(),
            final(self).current == old(self).current,
            final(self).previous == old(self).previous,
            -1 <= place < 256,
            depth == 0 ==> place == -1,
            forall|i: int|
                0 <= i < old(self).compilers@.len() ==> (#[trigger] final(self).compilers@[i]).locals@.len() == old(self).compilers@[i].locals@.len(),
        decreases depth,
    {
        if depth >= 1 {
            let next = depth - 1;
            let (local, _) = self.compilers[next].resolve(token);
            if local != -1 {
                self.compilers[next].locals[local as usize].set_captured(true);
                let ghost mid = *self;
                let place = self.add_upvalue(depth, local as u8, true);
                assert(marked(*old(self), mid, next as int, local as int) && linked(
                    mid,
                    *self,
                    depth as int,
                    local as int,
                    true,
                    place as int,
                ));
                place
            } else {
                let upvalue = self.resolve_upvalue(next, token);
                let ghost mid = *self;
                let place = if upvalue != -1 {
                    self.add_upvalue(depth, upvalue as u8, false)
                } else {
                    -1
                };
                assert(captured(*old(self), mid, next as int, token@.lexeme, upvalue as int)
                    && linked(mid, *self, depth as int, upvalue as int, false, place as int));
                place
            }
        } else {
            -1
        }
    }

    /// Ends the function under construction: appends its return, takes
    /// its compiler off the stack and stores the function in the heap.
    pub(crate) fn end_compile(&mut self) -> (function: Function)
        requires
            old(self).ready(),
            old(self).pending() =~= Set::<int>::empty(),
        ensures
            function_ended(*old(self), *final(self), function),
            final(self).compilers@ == old(self).compilers@.drop_last(),
            final(self).heap.wf(),
            final(self).heap.structured(),
            final(self).heap.same_objects(&old(self).heap),
            function.index == old(self).heap.functions@.len(),
            final(self).heap.functions@.len() == old(self).heap.functions@.len() + 1,
            final(self).heap.functions@.drop_last() == old(self).heap.functions@,
            final(self).heap.functions@.last().arity == old(self).top().function_builder.arity,
            final(self).heap.functions@.last().kind == old(self).top().function_builder.kind,
            final(self).heap.functions@.last().upvalue_count == old(self).top().upvalues@.len(),
    {
        self.emit_return();
        let ghost done = *self;
        proof {
            self.top().function_builder.builder.no_pending_no_patches();
        }
        match self.compilers.pop() {
            Some(compiler) => {
                let function = compiler.function_builder.build(&mut self.heap);
                assert(self.heap.functions@.drop_last() == old(self).heap.functions@);
                assert forall|i: int| 0 <= i < self.heap.functions@.len() implies (
                #[trigger] self.heap.functions@[i]).chunk.wf()
                    && self.heap.functions@[i].chunk.structured() by {
                    if i < old(self).heap.functions@.len() {
                        assert(self.heap.functions@[i] == old(self).heap.functions@[i]);
                    }
                }
                function
            },
            None => Function { index: 0 },
        }
    }
}

/// Where `token` stands, for an error message.
fn place(token: &Token) -> (place: Place)
    ensures
        place_of(place, token@),
{
    match token.get_token_type() {
        TokenType::Eof => Place::AtEnd,
        TokenType::Error => Place::Unknown,
        _ => Place::At(token.get_lexeme_string()),
    }
}

} // verus!
