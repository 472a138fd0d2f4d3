//! What expressions do, as relations between the parser before and
//! after: which tokens are read, which errors are reported and which
//! code is emitted.

use vstd::prelude::*;
use crate::compile::effects::{
    captured,
    consumed,
    constant_pushed,
    emitted_pair,
    emitted_simple,
    emitted_triple,
    innermost,
    identified,
    jump_begun,
    jump_patched,
    patch_place,
    tried,
};
use crate::compile::parser::{advanced, emitted, reported, Parser};
use crate::compile::{precedence_level, resolved, rule_of, ParseFn, Precedence};
use crate::intern_string::Symbol;
use crate::opcodes::{opcode_byte, OpCode};
use crate::tokens::TokenType;
use crate::value::Value;

verus! {

/// The parser has not gone back in the source.
pub open spec fn within(pre: Parser, post: Parser) -> bool {
    post.measure() <= pre.measure()
}

/// The instructions of a binary operator.
pub open spec fn operator_code(kind: TokenType) -> Seq<u8> {
    match kind {
        TokenType::BangEqual => seq![opcode_byte(OpCode::Equal), opcode_byte(OpCode::Not)],
        TokenType::EqualEqual => seq![opcode_byte(OpCode::Equal)],
        TokenType::Greater => seq![opcode_byte(OpCode::Greater)],
        TokenType::GreaterEqual => seq![opcode_byte(OpCode::Less), opcode_byte(OpCode::Not)],
        TokenType::Less => seq![opcode_byte(OpCode::Less)],
        TokenType::LessEqual => seq![opcode_byte(OpCode::Greater), opcode_byte(OpCode::Not)],
        TokenType::Plus => seq![opcode_byte(OpCode::Add)],
        TokenType::Minus => seq![opcode_byte(OpCode::Subtract)],
        TokenType::Star => seq![opcode_byte(OpCode::Multiply)],
        _ => seq![opcode_byte(OpCode::Divide)],
    }
}

/// The text of a string literal: its lexeme without the quotes.
pub open spec fn unquoted(lexeme: Seq<char>) -> Seq<char> {
    if lexeme.len() >= 2 {
        lexeme.subrange(1, lexeme.len() - 1)
    } else {
        Seq::empty()
    }
}

/// The next stronger precedence.
pub open spec fn stronger(precedence: Precedence) -> Precedence {
    match precedence {
        Precedence::Lowest => Precedence::Assignment,
        Precedence::Assignment => Precedence::Or,
        Precedence::Or => Precedence::And,
        Precedence::And => Precedence::Equality,
        Precedence::Equality => Precedence::Comparison,
        Precedence::Comparison => Precedence::Term,
        Precedence::Term => Precedence::Factor,
        Precedence::Factor => Precedence::Unary,
        Precedence::Unary => Precedence::Call,
        _ => Precedence::Primary,
    }
}

/// Whether the token that the parser looks at binds at least as strongly
/// as `precedence`.
pub open spec fn binds(parser: Parser, precedence: Precedence) -> bool {
    precedence_level(precedence) <= precedence_level(rule_of(parser.current@.kind).precedence)
}

/// How a variable is reached: as a local, as a captured variable or as a
/// global.
#[derive(Copy, Clone, PartialEq, Eq, Debug, Structural)]
pub enum Reach {
    Local,
    Captured,
    Global,
}

impl Reach {
    /// The opcode that reads a variable.
    pub fn get(self) -> (opcode: OpCode)
        ensures
            opcode == get_code(self),
            crate::opcodes::required_indexes(opcode) == 1,
    {
        match self {
            Reach::Local => OpCode::GetLocal,
            Reach::Captured => OpCode::GetUpvalue,
            Reach::Global => OpCode::GetGlobal,
        }
    }

    /// The opcode that writes a variable.
    pub fn set(self) -> (opcode: OpCode)
        ensures
            opcode == set_code(self),
            crate::opcodes::required_indexes(opcode) == 1,
    {
        match self {
            Reach::Local => OpCode::SetLocal,
            Reach::Captured => OpCode::SetUpvalue,
            Reach::Global => OpCode::SetGlobal,
        }
    }
}

/// The opcode that reads a variable.
pub open spec fn get_code(reach: Reach) -> OpCode {
    match reach {
        Reach::Local => OpCode::GetLocal,
        Reach::Captured => OpCode::GetUpvalue,
        Reach::Global => OpCode::GetGlobal,
    }
}

/// The opcode that writes a variable.
pub open spec fn set_code(reach: Reach) -> OpCode {
    match reach {
        Reach::Local => OpCode::SetLocal,
        Reach::Captured => OpCode::SetUpvalue,
        Reach::Global => OpCode::SetGlobal,
    }
}

/// One round of the loop of `parse_precedence`: the parser looks at a
/// token that binds strongly enough, goes on, and what that token
/// continues is parsed by its infix rule.
pub open spec fn infix_step(pre: Parser, post: Parser, precedence: Precedence, can_assign: bool) -> bool
    decreases pre.measure(), 0int,
{
    &&& binds(pre, precedence)
    &&& exists|mid: Parser| #[trigger]
        advanced(pre, mid) && mid.measure() < pre.measure() && match rule_of(
            mid.previous@.kind,
        ).infix {
            Some(rule) => applied(mid, post, rule, can_assign),
            None => post == mid,
        }
}

/// The rounds of the loop of `parse_precedence`, through the states that
/// the parser was in between them: each round starts where the one
/// before ended, and the last one ends at a token that does not bind
/// strongly enough.
pub open spec fn infix_chain(
    states: Seq<Parser>,
    pre: Parser,
    post: Parser,
    precedence: Precedence,
    can_assign: bool,
) -> bool
    decreases pre.measure(), 1int,
{
    &&& states.len() >= 1
    &&& states[0] == pre
    &&& states.last() == post
    &&& !binds(post, precedence)
    &&& forall|i: int|
        0 <= i < states.len() - 1 ==> within(pre, #[trigger] states[i]) && infix_step(
            states[i],
            states[i + 1],
            precedence,
            can_assign,
        )
}

/// The loop of `parse_precedence`: as long as the token that the parser
/// looks at binds at least as strongly as `precedence`, what it continues
/// is parsed.
pub open spec fn continued(pre: Parser, post: Parser, precedence: Precedence, can_assign: bool) -> bool
    decreases pre.measure(), 2int,
{
    exists|states: Seq<Parser>|
        #![trigger states[0]]
        infix_chain(states, pre, post, precedence, can_assign)
}

/// The end of `parse_precedence`: an equals sign that is left where an
/// assignment could have been is an error.
pub open spec fn target_checked(pre: Parser, post: Parser, can_assign: bool) -> bool {
    if can_assign && pre.current@.kind == TokenType::Equal {
        exists|mid: Parser| #[trigger]
            advanced(pre, mid) && reported(mid, post, mid.previous@, "Invalid assignment target."@)
    } else {
        post == pre
    }
}

/// `parse_precedence`: the parser goes on; what the token starts is parsed
/// by its prefix rule, and a token without one is an error; then what
/// follows is parsed as long as it binds strongly enough; and an
/// assignment to anything but a variable or a property is an error.
pub open spec fn parsed(pre: Parser, post: Parser, precedence: Precedence) -> bool
    decreases pre.measure(), 3int,
{
    let can_assign = precedence_level(precedence) <= precedence_level(Precedence::Assignment);
    exists|first: Parser, started: Parser, rest: Parser|
        #![trigger advanced(pre, first), within(first, started), target_checked(rest, post, can_assign)]
        {
            &&& advanced(pre, first)
            &&& within(pre, first)
            &&& within(first, started)
            &&& match rule_of(first.previous@.kind).prefix {
                Some(rule) => first.measure() < pre.measure() && applied(
                    first,
                    started,
                    rule,
                    can_assign,
                ),
                None => reported(first, started, first.previous@, "Expected expression."@),
            }
            &&& continued(started, rest, precedence, can_assign)
            &&& target_checked(rest, post, can_assign)
        }
}

/// An expression.
pub open spec fn expressed(pre: Parser, post: Parser) -> bool
    decreases pre.measure(), 4int,
{
    parsed(pre, post, Precedence::Assignment)
}

/// One argument of a call, the one at `index`, and the comma behind it if
/// there is one (`more`). More than 255 arguments are an error.
pub open spec fn argument(pre: Parser, post: Parser, index: int, more: bool) -> bool
    decreases pre.measure(), 5int,
{
    exists|value: Parser, counted: Parser|
        #![trigger within(pre, value), tried(counted, post, TokenType::Comma)]
        {
            &&& expressed(pre, value)
            &&& within(pre, value)
            &&& if index >= 255 {
                reported(value, counted, value.previous@, "Can't have more than 255 arguments."@)
            } else {
                counted == value
            }
            &&& more == (counted.current@.kind == TokenType::Comma)
            &&& tried(counted, post, TokenType::Comma)
        }
}

/// The first `count` arguments of a call, one after the other, with a
/// comma behind each but the last; `more` says whether a comma follows
/// the last one, too.
pub open spec fn argued(pre: Parser, post: Parser, count: nat, more: bool) -> bool
    decreases pre.measure(), 6int, count,
{
    if count == 0 {
        false
    } else if count == 1 {
        argument(pre, post, 0, more)
    } else {
        exists|mid: Parser|
            #![trigger within(pre, mid)]
            within(pre, mid) && argued(pre, mid, (count - 1) as nat, true) && argument(
                mid,
                post,
                count - 1,
                more,
            )
    }
}

/// Whether `count` is the number of arguments that a call of `given`
/// arguments is compiled with: no more than 255.
pub open spec fn counts(given: nat, count: u8) -> bool {
    count == if given > 255 {
        255
    } else {
        given as int
    }
}

/// The arguments of a call, up to the closing parenthesis; `count` says
/// how many there are, but no more than 255.
pub open spec fn arguments(pre: Parser, post: Parser, count: u8) -> bool
    decreases pre.measure(), 7int,
{
    if pre.current@.kind == TokenType::RightParen {
        count == 0 && advanced(pre, post)
    } else {
        exists|listed: Parser, given: nat|
            #![trigger within(pre, listed), counts(given, count)]
            {
                &&& within(pre, listed)
                &&& counts(given, count)
                &&& argued(pre, listed, given, false)
                &&& consumed(
                    listed,
                    post,
                    TokenType::RightParen,
                    "Expected ')' after arguments."@,
                )
            }
    }
}

/// Where the variable `name` is found: among the locals of the function,
/// else among the variables that the function captures, else among the
/// globals; and the operand that stands for it there.
pub open spec fn found(pre: Parser, post: Parser, name: Seq<char>, reach: Reach, operand: u8) -> bool {
    let local = resolved(pre.top().locals@, name, pre.top().locals@.len() as int);
    if local != -1 {
        post == pre && reach is Local && operand == local
    } else {
        exists|searched: Parser, place: int|
            #![trigger captured(pre, searched, innermost(pre), name, place)]
            {
                &&& captured(pre, searched, innermost(pre), name, place)
                &&& if place != -1 {
                    post == searched && reach is Captured && operand == place
                } else {
                    reach is Global && identified(searched, post, name, operand)
                }
            }
    }
}

/// The variable `name` is read or, where an assignment follows and may
/// follow, written. A local that is read in its own initializer is an
/// error.
pub open spec fn named(pre: Parser, post: Parser, name: Seq<char>, can_assign: bool) -> bool
    decreases pre.measure(), 8int,
{
    let local = resolved(pre.top().locals@, name, pre.top().locals@.len() as int);
    exists|checked: Parser, known: Parser, reach: Reach, operand: u8|
        #![trigger found(checked, known, name, reach, operand), within(pre, checked)]
        {
            &&& within(pre, checked)
            &&& if local >= 0 && pre.top().locals@[local].depth == -1 {
                reported(
                    pre,
                    checked,
                    pre.previous@,
                    "Can't read local variable in its own initializer."@,
                )
            } else {
                checked == pre
            }
            &&& found(checked, known, name, reach, operand)
            &&& if can_assign && known.current@.kind == TokenType::Equal {
                exists|value: Parser, assigned: Parser|
                    #![trigger advanced(known, value), within(value, assigned)]
                    {
                        &&& advanced(known, value)
                        &&& within(pre, value)
                        &&& within(value, assigned)
                        &&& expressed(value, assigned)
                        &&& emitted_pair(assigned, post, set_code(reach), operand)
                    }
            } else {
                emitted_pair(known, post, get_code(reach), operand)
            }
        }
}

/// An expression in parentheses.
pub open spec fn grouped(pre: Parser, post: Parser) -> bool
    decreases pre.measure(), 9int,
{
    exists|inner: Parser|
        #![trigger within(pre, inner)]
        within(pre, inner) && expressed(pre, inner) && consumed(
            inner,
            post,
            TokenType::RightParen,
            "Expected ')' after expression."@,
        )
}

/// A call: the arguments, then `Call` with their number.
pub open spec fn called(pre: Parser, post: Parser) -> bool
    decreases pre.measure(), 9int,
{
    exists|listed: Parser, count: u8|
        #![trigger emitted_pair(listed, post, OpCode::Call, count)]
        arguments(pre, listed, count) && emitted_pair(listed, post, OpCode::Call, count)
}

/// What follows the name of a property: an assignment, where one may
/// follow, a call of the property, or nothing, which reads it.
pub open spec fn property(pre: Parser, post: Parser, origin: Parser, name: u8, can_assign: bool) -> bool
    decreases origin.measure(), 8int,
{
    if !within(origin, pre) {
        false
    } else if can_assign && pre.current@.kind == TokenType::Equal {
        exists|value: Parser, assigned: Parser|
            #![trigger advanced(pre, value), within(value, assigned)]
            {
                &&& advanced(pre, value)
                &&& within(origin, value)
                &&& within(value, assigned)
                &&& expressed(value, assigned)
                &&& emitted_pair(assigned, post, OpCode::SetProperty, name)
            }
    } else if pre.current@.kind == TokenType::LeftParen {
        exists|open: Parser, listed: Parser, count: u8|
            #![trigger advanced(pre, open), emitted_triple(listed, post, OpCode::Invoke, name, count)]
            {
                &&& advanced(pre, open)
                &&& within(origin, open)
                &&& arguments(open, listed, count)
                &&& emitted_triple(listed, post, OpCode::Invoke, name, count)
            }
    } else {
        emitted_pair(pre, post, OpCode::GetProperty, name)
    }
}

/// `x.name`, `x.name = v` and `x.name(args…)`, from behind the dot on.
pub open spec fn dotted(pre: Parser, post: Parser, can_assign: bool) -> bool
    decreases pre.measure(), 9int,
{
    exists|read: Parser, known: Parser, name: u8|
        #![trigger identified(read, known, read.previous@.lexeme, name)]
        {
            &&& consumed(pre, read, TokenType::Identifier, "Expected property name after '.'."@)
            &&& identified(read, known, read.previous@.lexeme, name)
            &&& property(known, post, pre, name, can_assign)
        }
}

/// A unary operator: the operand, then the operator's instruction.
pub open spec fn negated(pre: Parser, post: Parser) -> bool
    decreases pre.measure(), 9int,
{
    exists|operand: Parser|
        #![trigger within(pre, operand)]
        within(pre, operand) && parsed(pre, operand, Precedence::Unary) && emitted(
            operand,
            post,
            seq![
                if pre.previous@.kind == TokenType::Bang {
                    opcode_byte(OpCode::Not)
                } else {
                    opcode_byte(OpCode::Negate)
                },
            ],
        )
}

/// A binary operator: the right operand, which binds more strongly, then
/// the operator's instructions.
pub open spec fn combined(pre: Parser, post: Parser) -> bool
    decreases pre.measure(), 9int,
{
    exists|operand: Parser|
        #![trigger within(pre, operand)]
        within(pre, operand) && parsed(
            pre,
            operand,
            stronger(rule_of(pre.previous@.kind).precedence),
        ) && emitted(operand, post, operator_code(pre.previous@.kind))
}

/// `this`: outside of a class an error, inside the local in slot 0.
pub open spec fn this_named(pre: Parser, post: Parser) -> bool
    decreases pre.measure(), 9int,
{
    if pre.class_compilers@.len() == 0 {
        reported(pre, post, pre.previous@, "Can't use 'this' outside of a class."@)
    } else {
        named(pre, post, pre.previous@.lexeme, false)
    }
}

/// What follows the name of a method of the superclass: with arguments
/// the method is called by `SuperInvoke`, without it is bound by
/// `GetSuper`; for both the superclass is pushed first.
pub open spec fn super_used(pre: Parser, post: Parser, origin: Parser, name: u8) -> bool
    decreases origin.measure(), 8int,
{
    if !within(origin, pre) {
        false
    } else if pre.current@.kind == TokenType::LeftParen {
        exists|open: Parser, listed: Parser, loaded: Parser, count: u8|
            #![trigger advanced(pre, open), within(listed, loaded), emitted_triple(loaded, post, OpCode::SuperInvoke, name, count)]
            {
                &&& advanced(pre, open)
                &&& within(origin, open)
                &&& arguments(open, listed, count)
                &&& within(origin, listed)
                &&& within(listed, loaded)
                &&& named_simply(listed, loaded, "super"@)
                &&& emitted_triple(loaded, post, OpCode::SuperInvoke, name, count)
            }
    } else {
        exists|loaded: Parser|
            #![trigger within(pre, loaded)]
            within(pre, loaded) && named_simply(pre, loaded, "super"@) && emitted_pair(loaded, post, OpCode::GetSuper, name)
    }
}

/// The variable `name` is read; no assignment may follow.
pub open spec fn named_simply(pre: Parser, post: Parser, name: Seq<char>) -> bool {
    let local = resolved(pre.top().locals@, name, pre.top().locals@.len() as int);
    exists|checked: Parser, known: Parser, reach: Reach, operand: u8|
        #![trigger found(checked, known, name, reach, operand), within(pre, checked)]
        {
            &&& within(pre, checked)
            &&& if local >= 0 && pre.top().locals@[local].depth == -1 {
                reported(
                    pre,
                    checked,
                    pre.previous@,
                    "Can't read local variable in its own initializer."@,
                )
            } else {
                checked == pre
            }
            &&& found(checked, known, name, reach, operand)
            &&& emitted_pair(known, post, get_code(reach), operand)
        }
}

/// `super.name` and `super.name(args…)`, from behind `super` on. Outside
/// of a class, and in a class without superclass, `super` is an error.
pub open spec fn super_named(pre: Parser, post: Parser) -> bool
    decreases pre.measure(), 9int,
{
    exists|checked: Parser, dot: Parser, read: Parser, known: Parser, this: Parser, name: u8|
        #![trigger within(pre, checked), within(checked, dot), within(dot, read), identified(read, known, read.previous@.lexeme, name), within(known, this)]
        {
            &&& within(pre, checked)
            &&& within(checked, dot)
            &&& within(dot, read)
            &&& if pre.class_compilers@.len() == 0 {
                reported(pre, checked, pre.previous@, "Can't use 'super' outside of a class."@)
            } else if !pre.class_compilers@.last().has_superclass {
                reported(
                    pre,
                    checked,
                    pre.previous@,
                    "Can't use 'super' in a class with no superclass."@,
                )
            } else {
                checked == pre
            }
            &&& consumed(checked, dot, TokenType::Dot, "Expected '.' after 'super'."@)
            &&& consumed(dot, read, TokenType::Identifier, "Expected superclass method name."@)
            &&& identified(read, known, read.previous@.lexeme, name)
            &&& within(known, this)
            &&& named_simply(known, this, "this"@)
            &&& super_used(this, post, pre, name)
        }
}

/// `a and b`, from behind `and` on: a jump over `b` for a falsy `a`,
/// `Pop`, and `b`.
pub open spec fn and_joined(pre: Parser, post: Parser) -> bool
    decreases pre.measure(), 9int,
{
    exists|jump: Parser, popped: Parser, right: Parser|
        #![trigger jump_begun(pre, jump, OpCode::JumpIfFalse), emitted_simple(jump, popped, OpCode::Pop), jump_patched(right, post, patch_place(pre))]
        {
            &&& jump_begun(pre, jump, OpCode::JumpIfFalse)
            &&& emitted_simple(jump, popped, OpCode::Pop)
            &&& within(pre, popped)
            &&& parsed(popped, right, Precedence::And)
            &&& jump_patched(right, post, patch_place(pre))
        }
}

/// `a or b`, from behind `or` on: for a falsy `a` a jump over the next
/// jump; a jump over `b`; `Pop`, and `b`.
pub open spec fn or_joined(pre: Parser, post: Parser) -> bool
    decreases pre.measure(), 9int,
{
    exists|first: Parser, second: Parser, landed: Parser, popped: Parser, right: Parser|
        #![trigger jump_begun(pre, first, OpCode::JumpIfFalse), jump_begun(first, second, OpCode::Jump), jump_patched(second, landed, patch_place(pre)), emitted_simple(landed, popped, OpCode::Pop), jump_patched(right, post, patch_place(first))]
        {
            &&& jump_begun(pre, first, OpCode::JumpIfFalse)
            &&& jump_begun(first, second, OpCode::Jump)
            &&& jump_patched(second, landed, patch_place(pre))
            &&& emitted_simple(landed, popped, OpCode::Pop)
            &&& within(pre, popped)
            &&& parsed(popped, right, Precedence::Or)
            &&& jump_patched(right, post, patch_place(first))
        }
}

/// A string: the constant that holds its text is pushed.
pub open spec fn string_pushed(pre: Parser, post: Parser) -> bool {
    exists|symbol: Symbol|
        #![trigger constant_pushed(pre, post, Value::String(symbol))]
        symbol@ == unquoted(pre.previous@.lexeme) && constant_pushed(
            pre,
            post,
            Value::String(symbol),
        )
}

/// What the parsing function that a rule names does.
pub open spec fn applied(pre: Parser, post: Parser, rule: ParseFn, can_assign: bool) -> bool
    decreases pre.measure(), 10int,
{
    match rule {
        ParseFn::Grouping => grouped(pre, post),
        ParseFn::Call => called(pre, post),
        ParseFn::Dot => dotted(pre, post, can_assign),
        ParseFn::Unary => negated(pre, post),
        ParseFn::Binary => combined(pre, post),
        ParseFn::Variable => named(pre, post, pre.previous@.lexeme, can_assign),
        ParseFn::String => string_pushed(pre, post),
        ParseFn::Number => constant_pushed(pre, post, Value::Double(pre.previous_number)),
        ParseFn::And => and_joined(pre, post),
        ParseFn::Or => or_joined(pre, post),
        ParseFn::Literal => emitted(
            pre,
            post,
            seq![
                match pre.previous@.kind {
                    TokenType::True => opcode_byte(OpCode::True),
                    TokenType::False => opcode_byte(OpCode::False),
                    _ => opcode_byte(OpCode::Nil),
                },
            ],
        ),
        ParseFn::Super => super_named(pre, post),
        ParseFn::This => this_named(pre, post),
    }
}

} // verus!
