//! The grammar of expressions.

use vstd::prelude::*;
use crate::compile::effects::{
    captured, consumed, constant_pushed, emitted_pair, emitted_simple, emitted_triple,
    identified, innermost, jump_begun, jump_patched, patch_place, placed, tried,
};
use crate::compile::grammar::{and_layout, or_layout};
use crate::compile::parser::{advanced, emitted, emitted_twice, reported, Parser};
use crate::compile::rules::{
    and_joined, applied, argued, argument, arguments, called, counts, combined, continued,
    dotted, expressed, found, grouped, infix_chain, infix_step, named, named_simply, negated,
    or_joined, parsed, property, set_code, string_pushed, super_named, super_used,
    target_checked, this_named, within, Reach,
};
use crate::compile::{rule_of, ParseFn, Precedence};
use crate::opcodes::{opcode_byte, OpCode};
use crate::tokens::{chars_of, copy_range, string_from_chars, Token, TokenType};
use crate::value::Value;

verus! {

impl Parser {
    /// `f(args…)`: the arguments, then `Call` with their number.
    pub(crate) fn call(&mut self)
        requires
            old(self).ready(),
        ensures
            final(self).follows(old(self)),
            called(*old(self), *final(self)),
        decreases old(self).measure(), 5int,
    {
        let arg_count = self.argument_list();
        let ghost listed = *self;
        self.emit_pair(OpCode::Call, arg_count);
        assert(arguments(*old(self), listed, arg_count) && emitted_pair(
            listed,
            *self,
            OpCode::Call,
            arg_count,
        ));
    }

    /// `x.name`, `x.name = v` and `x.name(args…)`.
    pub(crate) fn dot(&mut self, can_assign: bool)
        requires
            old(self).ready(),
        ensures
            final(self).follows(old(self)),
            dotted(*old(self), *final(self), can_assign),
        decreases old(self).measure(), 5int,
    {
        self.consume(TokenType::Identifier, "Expected property name after '.'.");
        let ghost read = *self;
        let text = self.previous.get_lexeme_string();
        let name = self.identifier_constant(text);
        let ghost known = *self;

        if can_assign && self.matches(TokenType::Equal) {
            let ghost value = *self;
            self.expression();
            let ghost assigned = *self;
            self.emit_pair(OpCode::SetProperty, name);
            assert(advanced(known, value) && within(value, assigned) && within(*old(self), value)
                && expressed(value, assigned) && emitted_pair(
                assigned,
                *self,
                OpCode::SetProperty,
                name,
            ));
        } else if self.matches(TokenType::LeftParen) {
            let ghost open = *self;
            let arg_count = self.argument_list();
            let ghost listed = *self;
            self.emit_triple(OpCode::Invoke, name, arg_count);
            assert(advanced(known, open) && within(*old(self), open) && arguments(
                open,
                listed,
                arg_count,
            ) && emitted_triple(listed, *self, OpCode::Invoke, name, arg_count));
        } else {
            self.emit_pair(OpCode::GetProperty, name);
        }
        assert(property(known, *self, *old(self), name, can_assign));
        assert(consumed(
            *old(self),
            read,
            TokenType::Identifier,
            "Expected property name after '.'."@,
        ) && identified(read, known, read.previous@.lexeme, name) && property(
            known,
            *self,
            *old(self),
            name,
            can_assign,
        ));
    }

    /// One argument of a call, and the comma behind it if there is one.
    /// With `full`, the call has 255 arguments already, and one more is
    /// an error. Answers whether a comma followed.
    pub(crate) fn one_argument(&mut self, full: bool, Ghost(index): Ghost<int>) -> (more: bool)
        requires
            old(self).ready(),
            full == (index >= 255),
        ensures
            final(self).follows(old(self)),
            argument(*old(self), *final(self), index, more),
            more ==> final(self).measure() < old(self).measure(),
        decreases old(self).measure(), 2int,
    {
        self.expression();
        let ghost value = *self;
        if full {
            self.error("Can't have more than 255 arguments.");
        }
        let ghost counted = *self;
        let more = self.matches(TokenType::Comma);
        proof {
            assert(within(*old(self), value) && tried(counted, *self, TokenType::Comma)
                && expressed(*old(self), value));
        }
        more
    }

    /// The arguments of a call, up to the closing parenthesis. Answers
    /// how many there are; more than 255 are an error.
    pub(crate) fn argument_list(&mut self) -> (arg_count: u8)
        requires
            old(self).ready(),
        ensures
            final(self).follows(old(self)),
            arguments(*old(self), *final(self), arg_count),
        decreases old(self).measure(), 4int,
    {
        let mut arg_count: u8 = 0;
        if !self.check(TokenType::RightParen) {
            let ghost mut given: nat = 0;
            loop
                invariant_except_break
                    given > 0 ==> argued(*old(self), *self, given, true),
                    given == 0 ==> *self == *old(self),
                invariant
                    self.follows(old(self)),
                    counts(given, arg_count),
                ensures
                    self.follows(old(self)),
                    counts(given, arg_count),
                    argued(*old(self), *self, given, false),
                decreases self.measure(),
            {
                let ghost start = *self;
                let more = self.one_argument(arg_count == 255, Ghost(given as int));
                if arg_count < 255 {
                    arg_count += 1;
                }
                proof {
                    if given > 0 {
                        assert(within(*old(self), start) && argued(*old(self), start, given, true)
                            && argument(start, *self, given as int, more));
                    }
                    given = given + 1;
                    assert(argued(*old(self), *self, given, more));
                }
                if !more {
                    break ;
                }
            }
            let ghost listed = *self;
            self.consume(TokenType::RightParen, "Expected ')' after arguments.");
            assert(within(*old(self), listed) && counts(given, arg_count) && argued(
                *old(self),
                listed,
                given,
                false,
            ));
        } else {
            self.consume(TokenType::RightParen, "Expected ')' after arguments.");
        }
        arg_count
    }

    /// An expression.
    pub(crate) fn expression(&mut self)
        requires
            old(self).ready(),
        ensures
            final(self).follows(old(self)),
            expressed(*old(self), *final(self)),
            rule_of(old(self).current@.kind).prefix.is_none() ==> final(self).had_error,
            old(self).current@.kind != TokenType::Eof ==> final(self).measure() < old(self).measure(),
        decreases old(self).measure(), 1int,
    {
        self.parse_precedence(Precedence::Assignment);
    }

    /// A binary operator: the right operand, which binds more strongly,
    /// then the operator's instructions.
    pub(crate) fn binary(&mut self)
        requires
            old(self).ready(),
            rule_of(old(self).previous@.kind).infix == Some(ParseFn::Binary),
        ensures
            final(self).follows(old(self)),
            combined(*old(self), *final(self)),
        decreases old(self).measure(), 5int,
    {
        let operator = self.previous.get_token_type();
        let parse_rule = self.rules.get(operator);
        let precedence = parse_rule.get_precedence().one_higher();
        self.parse_precedence(precedence);
        let ghost operand = *self;
        match operator {
            TokenType::BangEqual => {
                self.emit_simple(OpCode::Equal);
                let ghost mid = *self;
                self.emit_simple(OpCode::Not);
                proof {
                    emitted_twice(
                        operand,
                        mid,
                        *self,
                        seq![opcode_byte(OpCode::Equal)],
                        seq![opcode_byte(OpCode::Not)],
                    );
                    assert(seq![opcode_byte(OpCode::Equal)] + seq![opcode_byte(OpCode::Not)]
                        =~= crate::compile::rules::operator_code(operator));
                }
            },
            TokenType::EqualEqual => self.emit_simple(OpCode::Equal),
            TokenType::Greater => self.emit_simple(OpCode::Greater),
            TokenType::GreaterEqual => {
                self.emit_simple(OpCode::Less);
                let ghost mid = *self;
                self.emit_simple(OpCode::Not);
                proof {
                    emitted_twice(
                        operand,
                        mid,
                        *self,
                        seq![opcode_byte(OpCode::Less)],
                        seq![opcode_byte(OpCode::Not)],
                    );
                    assert(seq![opcode_byte(OpCode::Less)] + seq![opcode_byte(OpCode::Not)]
                        =~= crate::compile::rules::operator_code(operator));
                }
            },
            TokenType::Less => self.emit_simple(OpCode::Less),
            TokenType::LessEqual => {
                self.emit_simple(OpCode::Greater);
                let ghost mid = *self;
                self.emit_simple(OpCode::Not);
                proof {
                    emitted_twice(
                        operand,
                        mid,
                        *self,
                        seq![opcode_byte(OpCode::Greater)],
                        seq![opcode_byte(OpCode::Not)],
                    );
                    assert(seq![opcode_byte(OpCode::Greater)] + seq![opcode_byte(OpCode::Not)]
                        =~= crate::compile::rules::operator_code(operator));
                }
            },
            TokenType::Plus => self.emit_simple(OpCode::Add),
            TokenType::Minus => self.emit_simple(OpCode::Subtract),
            TokenType::Star => self.emit_simple(OpCode::Multiply),
            _ => self.emit_simple(OpCode::Divide),
        }
        assert(within(*old(self), operand) && parsed(
            *old(self),
            operand,
            crate::compile::rules::stronger(rule_of(old(self).previous@.kind).precedence),
        ) && emitted(operand, *self, crate::compile::rules::operator_code(old(self).previous@.kind)));
    }

    /// A unary operator: the operand, then the operator's instruction.
    pub(crate) fn unary(&mut self)
        requires
            old(self).ready(),
            rule_of(old(self).previous@.kind).prefix == Some(ParseFn::Unary),
        ensures
            final(self).follows(old(self)),
            negated(*old(self), *final(self)),
        decreases old(self).measure(), 5int,
    {
        let operator_type = self.previous.get_token_type();
        self.parse_precedence(Precedence::Unary);
        let ghost operand = *self;
        match operator_type {
            TokenType::Bang => self.emit_simple(OpCode::Not),
            _ => self.emit_simple(OpCode::Negate),
        }
        assert(within(*old(self), operand) && parsed(*old(self), operand, Precedence::Unary)
            && emitted(
            operand,
            *self,
            seq![
                if old(self).previous@.kind == TokenType::Bang {
                    opcode_byte(OpCode::Not)
                } else {
                    opcode_byte(OpCode::Negate)
                },
            ],
        ));
    }

    /// An expression in parentheses.
    pub(crate) fn grouping(&mut self)
        requires
            old(self).ready(),
        ensures
            final(self).follows(old(self)),
            grouped(*old(self), *final(self)),
        decreases old(self).measure(), 5int,
    {
        self.expression();
        let ghost inner = *self;
        self.consume(TokenType::RightParen, "Expected ')' after expression.");
        assert(within(*old(self), inner) && expressed(*old(self), inner) && consumed(
            inner,
            *self,
            TokenType::RightParen,
            "Expected ')' after expression."@,
        ));
    }

    /// A variable by the name that was read last.
    pub(crate) fn variable(&mut self, can_assign: bool)
        requires
            old(self).ready(),
        ensures
            final(self).follows(old(self)),
            named(*old(self), *final(self), old(self).previous@.lexeme, can_assign),
        decreases old(self).measure(), 4int,
    {
        let name = self.previous.clone();
        self.named_variable(name, can_assign);
    }

    /// `this`: outside of a class an error, inside the local in slot 0.
    pub(crate) fn this(&mut self)
        requires
            old(self).ready(),
        ensures
            final(self).follows(old(self)),
            this_named(*old(self), *final(self)),
            old(self).class_compilers@.len() == 0 ==> final(self).had_error,
        decreases old(self).measure(), 5int,
    {
        if self.class_compilers.len() == 0 {
            self.error("Can't use 'this' outside of a class.");
        } else {
            self.variable(false);
        }
    }

    /// `super.name` and `super.name(args…)`: `this` and the superclass
    /// are pushed, and the method is bound by `GetSuper` or, with
    /// arguments, called by `SuperInvoke`. Outside of a class, and in a
    /// class without superclass, `super` is an error.
    pub(crate) fn super_(&mut self)
        requires
            old(self).ready(),
        ensures
            final(self).follows(old(self)),
            super_named(*old(self), *final(self)),
            old(self).class_compilers@.len() == 0 || !old(self).class_compilers@.last().has_superclass ==> final(self).had_error,
        decreases old(self).measure(), 5int,
    {
        let classes = self.class_compilers.len();
        if classes == 0 {
            self.error("Can't use 'super' outside of a class.");
        } else if !self.class_compilers[classes - 1].get_has_superclass() {
            self.error("Can't use 'super' in a class with no superclass.");
        }
        let ghost checked = *self;
        self.consume(TokenType::Dot, "Expected '.' after 'super'.");
        let ghost dot = *self;
        self.consume(TokenType::Identifier, "Expected superclass method name.");
        let ghost read = *self;
        let text = self.previous.get_lexeme_string();
        let name = self.identifier_constant(text);
        let ghost known = *self;
        let line = self.previous.get_line();

        self.named_variable(Token::new(TokenType::Identifier, chars_of("this"), line), false);
        let ghost this = *self;
        self.super_use(name, line, Ghost(*old(self)));
        assert(within(*old(self), checked) && within(checked, dot) && within(dot, read)
            && identified(read, known, read.previous@.lexeme, name) && within(known, this)
            && consumed(checked, dot, TokenType::Dot, "Expected '.' after 'super'."@) && consumed(
            dot,
            read,
            TokenType::Identifier,
            "Expected superclass method name."@,
        ) && named_simply(known, this, "this"@) && super_used(this, *self, *old(self), name));
    }

    /// What follows the name of a method of the superclass: with
    /// arguments the method is called by `SuperInvoke`, without it is
    /// bound by `GetSuper`; for both the superclass is pushed first.
    /// `origin` is the parser at the start of the expression.
    pub(crate) fn super_use(&mut self, name: u8, line: u32, Ghost(origin): Ghost<Parser>)
        requires
            old(self).ready(),
            within(origin, *old(self)),
        ensures
            final(self).follows(old(self)),
            super_used(*old(self), *final(self), origin, name),
        decreases old(self).measure(), 4int,
    {
        if self.matches(TokenType::LeftParen) {
            let ghost open = *self;
            let arg_count = self.argument_list();
            let ghost listed = *self;
            self.named_variable(Token::new(TokenType::Identifier, chars_of("super"), line), false);
            let ghost loaded = *self;
            self.emit_triple(OpCode::SuperInvoke, name, arg_count);
            assert(advanced(*old(self), open) && within(origin, open) && arguments(
                open,
                listed,
                arg_count,
            ) && within(origin, listed) && within(listed, loaded) && named_simply(
                listed,
                loaded,
                "super"@,
            ) && emitted_triple(loaded, *self, OpCode::SuperInvoke, name, arg_count));
        } else {
            self.named_variable(Token::new(TokenType::Identifier, chars_of("super"), line), false);
            let ghost loaded = *self;
            self.emit_pair(OpCode::GetSuper, name);
            assert(within(*old(self), loaded) && named_simply(*old(self), loaded, "super"@)
                && emitted_pair(loaded, *self, OpCode::GetSuper, name));
        }
    }

    /// Reads or, where an assignment follows and may follow, writes the
    /// variable `name`: a local of the function, else a variable that the
    /// function captures, else a global.
    pub(crate) fn named_variable(&mut self, name: Token, can_assign: bool)
        requires
            old(self).ready(),
        ensures
            final(self).follows(old(self)),
            named(*old(self), *final(self), name@.lexeme, can_assign),
            !can_assign ==> named_simply(*old(self), *final(self), name@.lexeme),
        decreases old(self).measure(), 3int,
    {
        let n = self.compilers.len();
        let (local, uninitialized) = self.compilers[n - 1].resolve(&name);
        if uninitialized {
            self.error("Can't read local variable in its own initializer.");
        }
        let ghost checked = *self;
        let (reach, operand) = if local != -1 {
            (Reach::Local, local as u8)
        } else {
            let upvalue = self.resolve_upvalue(n - 1, &name);
            let ghost searched = *self;
            let reached = if upvalue != -1 {
                (Reach::Captured, upvalue as u8)
            } else {
                let text = name.get_lexeme_string();
                let constant = self.identifier_constant(text);
                (Reach::Global, constant)
            };
            assert(captured(checked, searched, innermost(checked), name@.lexeme, upvalue as int)
                && (if upvalue != -1 {
                *self == searched && reached.0 is Captured && reached.1 == upvalue
            } else {
                reached.0 is Global && identified(searched, *self, name@.lexeme, reached.1)
            }));
            reached
        };
        let ghost known = *self;
        assert(found(checked, known, name@.lexeme, reach, operand));
        if can_assign && self.matches(TokenType::Equal) {
            let ghost value = *self;
            self.expression();
            let ghost assigned = *self;
            self.emit_pair(reach.set(), operand);
            assert(advanced(known, value) && within(value, assigned) && within(*old(self), value)
                && expressed(value, assigned) && emitted_pair(
                assigned,
                *self,
                set_code(reach),
                operand,
            ));
        } else {
            self.emit_pair(reach.get(), operand);
        }
        assert(found(checked, known, name@.lexeme, reach, operand) && within(*old(self), checked));
    }

    /// A number: the constant that holds it is pushed.
    pub(crate) fn number(&mut self)
        requires
            old(self).ready(),
        ensures
            final(self).follows(old(self)),
            constant_pushed(*old(self), *final(self), Value::Double(old(self).previous_number)),
    {
        let value = self.previous_number;
        self.emit_constant(Value::Double(value));
    }

    /// `true`, `false` and `nil`.
    pub(crate) fn literal(&mut self)
        requires
            old(self).ready(),
            rule_of(old(self).previous@.kind).prefix == Some(ParseFn::Literal),
        ensures
            final(self).follows(old(self)),
            emitted(
                *old(self),
                *final(self),
                seq![
                    match old(self).previous@.kind {
                        TokenType::True => opcode_byte(OpCode::True),
                        TokenType::False => opcode_byte(OpCode::False),
                        _ => opcode_byte(OpCode::Nil),
                    },
                ],
            ),
    {
        match self.previous.get_token_type() {
            TokenType::True => self.emit_simple(OpCode::True),
            TokenType::False => self.emit_simple(OpCode::False),
            _ => self.emit_simple(OpCode::Nil),
        }
    }

    /// A string: the constant that holds its text, the quotes taken off,
    /// is pushed.
    pub(crate) fn string(&mut self)
        requires
            old(self).ready(),
        ensures
            final(self).follows(old(self)),
            string_pushed(*old(self), *final(self)),
    {
        let text = {
            let lexeme = self.previous.get_lexeme();
            if lexeme.len() >= 2 {
                string_from_chars(&copy_range(lexeme, 1, lexeme.len() - 1))
            } else {
                String::new()
            }
        };
        let intern = self.symbol_table.intern(text);
        let ghost interned = *self;
        self.emit_constant(Value::String(intern));
        proof {
            let value = Value::String(intern);
            let (index, mid) = choose|index: u8, mid: Parser|
                #![trigger placed(interned, mid, value, index)]
                placed(interned, mid, value, index) && emitted_pair(
                    mid,
                    *self,
                    OpCode::Constant,
                    index,
                );
            assert(placed(*old(self), mid, value, index) && emitted_pair(
                mid,
                *self,
                OpCode::Constant,
                index,
            ));
            assert(constant_pushed(*old(self), *self, value));
        }
    }

    /// `a and b`: where `a` is falsy it is the result; else `b` is.
    pub(crate) fn and(&mut self)
        requires
            old(self).ready(),
        ensures
            final(self).follows(old(self)),
            and_joined(*old(self), *final(self)),
            !final(self).had_error ==> and_layout(final(self).code(), old(self).code().len() as int),
        decreases old(self).measure(), 5int,
    {
        let end_jump = self.emit_jump(OpCode::JumpIfFalse);
        let ghost jump = *self;
        self.emit_simple(OpCode::Pop);
        let ghost popped = *self;
        self.parse_precedence(Precedence::And);
        let ghost right = *self;
        self.patch_jump(end_jump);
        assert(jump_begun(*old(self), jump, OpCode::JumpIfFalse) && emitted_simple(
            jump,
            popped,
            OpCode::Pop,
        ) && within(*old(self), popped) && parsed(popped, right, Precedence::And) && jump_patched(
            right,
            *self,
            patch_place(*old(self)),
        ));
    }

    /// `a or b`: where `a` is truthy it is the result; else `b` is.
    pub(crate) fn or(&mut self)
        requires
            old(self).ready(),
        ensures
            final(self).follows(old(self)),
            or_joined(*old(self), *final(self)),
            !final(self).had_error ==> or_layout(final(self).code(), old(self).code().len() as int),
        decreases old(self).measure(), 5int,
    {
        let else_jump = self.emit_jump(OpCode::JumpIfFalse);
        let ghost first = *self;
        let end_jump = self.emit_jump(OpCode::Jump);
        let ghost second = *self;
        self.patch_jump(else_jump);
        let ghost landed = *self;
        self.emit_simple(OpCode::Pop);
        let ghost begun = *self;
        self.parse_precedence(Precedence::Or);
        let ghost right = *self;
        self.patch_jump(end_jump);
        proof {
            if !self.had_error {
                let start = old(self).code().len() as int;
                assert(!begun.had_error);
                assert(self.code()[start] == begun.code()[start]);
                assert(self.code()[start + 1] == begun.code()[start + 1]);
                assert(self.code()[start + 2] == begun.code()[start + 2]);
                assert(self.code()[start + 3] == begun.code()[start + 3]);
                assert(self.code()[start + 6] == begun.code()[start + 6]);
            }
            assert(jump_begun(*old(self), first, OpCode::JumpIfFalse) && jump_begun(
                first,
                second,
                OpCode::Jump,
            ) && jump_patched(second, landed, patch_place(*old(self))) && emitted_simple(
                landed,
                begun,
                OpCode::Pop,
            ) && within(*old(self), begun) && parsed(begun, right, Precedence::Or) && jump_patched(
                right,
                *self,
                patch_place(first),
            ));
        }
    }

    /// Calls the parsing function that a rule names.
    pub(crate) fn apply_rule(&mut self, function: ParseFn, can_assign: bool)
        requires
            old(self).ready(),
            rule_of(old(self).previous@.kind).prefix == Some(function) || rule_of(
                old(self).previous@.kind,
            ).infix == Some(function),
        ensures
            final(self).follows(old(self)),
            applied(*old(self), *final(self), function, can_assign),
        decreases old(self).measure(), 6int,
    {
        match function {
            ParseFn::Grouping => self.grouping(),
            ParseFn::Call => self.call(),
            ParseFn::Dot => self.dot(can_assign),
            ParseFn::Unary => self.unary(),
            ParseFn::Binary => self.binary(),
            ParseFn::Variable => self.variable(can_assign),
            ParseFn::String => self.string(),
            ParseFn::Number => self.number(),
            ParseFn::And => self.and(),
            ParseFn::Or => self.or(),
            ParseFn::Literal => self.literal(),
            ParseFn::Super => self.super_(),
            ParseFn::This => self.this(),
        }
    }

    /// Parses an expression of at least the given precedence: what the
    /// next token starts, by its prefix rule, and then, as long as the
    /// token that follows binds at least as strongly, what that token
    /// continues, by its infix rule. A token without prefix rule is an
    /// error, and so is an assignment to anything but a variable or a
    /// property.
    pub(crate) fn parse_precedence(&mut self, precedence: Precedence)
        requires
            old(self).ready(),
            precedence != Precedence::Lowest,
        ensures
            final(self).follows(old(self)),
            parsed(*old(self), *final(self), precedence),
            rule_of(old(self).current@.kind).prefix.is_none() ==> final(self).had_error,
            old(self).current@.kind != TokenType::Eof ==> final(self).measure() < old(self).measure(),
        decreases old(self).measure(), 0int,
    {
        self.advance();
        let ghost first = *self;
        let kind = self.previous.get_token_type();
        let parse_rule = self.rules.get(kind);
        let can_assign = precedence.at_most(Precedence::Assignment);
        match parse_rule.get_prefix() {
            Some(prefix_rule) => {
                self.apply_rule(prefix_rule, can_assign);
            },
            None => {
                self.error("Expected expression.");
            },
        }
        let ghost started = *self;
        let ghost mut states: Seq<Parser> = seq![*self];
        while precedence.at_most(self.rules.get(self.current.get_token_type()).get_precedence())
            invariant
                self.follows(old(self)),
                precedence != Precedence::Lowest,
                old(self).current@.kind != TokenType::Eof ==> self.measure() < old(self).measure(),
                rule_of(old(self).current@.kind).prefix.is_none() ==> self.had_error,
                states.len() >= 1,
                states[0] == started,
                states.last() == *self,
                within(started, *self),
                forall|i: int|
                    0 <= i < states.len() - 1 ==> within(started, #[trigger] states[i])
                        && infix_step(states[i], states[i + 1], precedence, can_assign),
            decreases self.measure(),
        {
            proof {
                crate::compile::rules_are_coherent(self.current@.kind);
            }
            let ghost start = *self;
            self.advance();
            let ghost mid = *self;
            match self.rules.get(self.previous.get_token_type()).get_infix() {
                Some(infix_rule) => {
                    self.apply_rule(infix_rule, can_assign);
                },
                None => {},
            }
            proof {
                assert(advanced(start, mid) && mid.measure() < start.measure() && (match rule_of(
                    mid.previous@.kind,
                ).infix {
                    Some(rule) => applied(mid, *self, rule, can_assign),
                    None => *self == mid,
                }));
                assert(infix_step(start, *self, precedence, can_assign));
                states = states.push(*self);
            }
        }
        let ghost rest = *self;
        proof {
            assert(infix_chain(states, started, rest, precedence, can_assign));
            assert(continued(started, rest, precedence, can_assign));
        }
        if can_assign && self.matches(TokenType::Equal) {
            let ghost mid = *self;
            self.error("Invalid assignment target.");
            assert(advanced(rest, mid) && reported(
                mid,
                *self,
                mid.previous@,
                "Invalid assignment target."@,
            ));
        }
        proof {
            assert(target_checked(rest, *self, can_assign));
            assert(advanced(*old(self), first) && within(first, started) && target_checked(
                rest,
                *self,
                can_assign,
            ) && within(*old(self), first) && continued(started, rest, precedence, can_assign));
        }
    }
}

} // verus!
