//! What declarations and statements do, as relations between the parser
//! before and after: which tokens are read, which errors are reported
//! and which code is emitted.

use vstd::prelude::*;
use crate::compile::effects::{
    calmed, class_entered, class_left, closure_made, consumed, declared, defined, emitted_pair,
    emitted_simple, function_begun, function_ended, identified, initialized, jump_begun,
    jump_patched, local_wanted, looped, parameter_counted, patch_place, return_code, scope_begun,
    scope_ended, superclass_noted, tried, variable_parsed,
};
use crate::compile::parser::{advanced, emitted, reported, Parser};
use crate::compile::rules::{expressed, named, within};
use crate::compile::CompileError;
use crate::function::{Closure, Function, FunctionType};
use crate::heap::Heap;
use crate::intern_string::SymbolTable;
use crate::opcodes::OpCode;
use crate::tokens::{TokenModel, TokenType};

verus! {

/// The token kinds at which the parser takes up its work after an error.
pub open spec fn starts_statement(kind: TokenType) -> bool {
    kind == TokenType::Class || kind == TokenType::Fun || kind == TokenType::Var || kind
        == TokenType::For || kind == TokenType::If || kind == TokenType::While || kind
        == TokenType::Print || kind == TokenType::Return
}

/// Whether the parser stands where a statement may begin after an error:
/// at the end, behind a semicolon, or before a keyword that starts a
/// statement.
pub open spec fn settled(parser: Parser) -> bool {
    parser.current@.kind == TokenType::Eof || parser.previous@.kind == TokenType::Semicolon
        || starts_statement(parser.current@.kind)
}

/// The parser has passed over tokens, none of them where a statement
/// may begin.
pub open spec fn passed_over(pre: Parser, post: Parser) -> bool
    decreases pre.measure() - post.measure(),
{
    post == pre || exists|mid: Parser|
        #![trigger advanced(mid, post)]
        {
            &&& post.measure() < mid.measure() <= pre.measure()
            &&& passed_over(pre, mid)
            &&& !settled(mid)
            &&& advanced(mid, post)
        }
}

/// The parser has recovered from an error: it has stopped panicking and
/// has passed over the tokens up to where a statement may begin.
pub open spec fn synchronized(pre: Parser, post: Parser) -> bool {
    exists|calm: Parser|
        #![trigger calmed(pre, calm)]
        calmed(pre, calm) && passed_over(calm, post) && settled(post)
}

/// An expression as a statement: its value is popped.
pub open spec fn expression_stated(pre: Parser, post: Parser) -> bool {
    exists|value: Parser, ended: Parser|
        #![trigger within(pre, value), emitted_simple(ended, post, OpCode::Pop)]
        {
            &&& within(pre, value)
            &&& expressed(pre, value)
            &&& consumed(value, ended, TokenType::Semicolon, "Expected ';' after expression."@)
            &&& emitted_simple(ended, post, OpCode::Pop)
        }
}

/// `print e;`, from behind `print` on.
pub open spec fn printed(pre: Parser, post: Parser) -> bool {
    exists|value: Parser, ended: Parser|
        #![trigger within(pre, value), emitted_simple(ended, post, OpCode::Print)]
        {
            &&& within(pre, value)
            &&& expressed(pre, value)
            &&& consumed(value, ended, TokenType::Semicolon, "Expected ';' after value."@)
            &&& emitted_simple(ended, post, OpCode::Print)
        }
}

/// `return;` and `return e;`, from behind `return` on. At the top level
/// `return` is an error, and so is a value returned from an initializer.
pub open spec fn returned(pre: Parser, post: Parser) -> bool {
    let kind = pre.top().function_builder.kind;
    exists|checked: Parser|
        #![trigger within(pre, checked)]
        {
            &&& within(pre, checked)
            &&& if kind == FunctionType::Script {
                reported(pre, checked, pre.previous@, "Can't return from top-level code."@)
            } else {
                checked == pre
            }
            &&& if checked.current@.kind == TokenType::Semicolon {
                exists|ended: Parser|
                    #![trigger advanced(checked, ended)]
                    advanced(checked, ended) && emitted(ended, post, return_code(kind))
            } else {
                exists|warned: Parser, value: Parser, ended: Parser|
                    #![trigger within(checked, warned), within(warned, value), emitted_simple(ended, post, OpCode::Return)]
                    {
                        &&& within(checked, warned)
                        &&& within(warned, value)
                        &&& if kind == FunctionType::Initializer {
                            reported(
                                checked,
                                warned,
                                checked.previous@,
                                "Cannot return a value from an initializer."@,
                            )
                        } else {
                            warned == checked
                        }
                        &&& expressed(warned, value)
                        &&& consumed(
                            value,
                            ended,
                            TokenType::Semicolon,
                            "Expected ';' after return value."@,
                        )
                        &&& emitted_simple(ended, post, OpCode::Return)
                    }
            }
        }
}

/// The value that a variable starts with: the expression behind the
/// equals sign, or `nil` where there is none.
pub open spec fn started_with(pre: Parser, post: Parser) -> bool {
    if pre.current@.kind == TokenType::Equal {
        exists|begun: Parser|
            #![trigger advanced(pre, begun)]
            advanced(pre, begun) && expressed(begun, post)
    } else {
        emitted_simple(pre, post, OpCode::Nil)
    }
}

/// varDecl, from behind `var` on: the name, the initializer or `nil`,
/// and the definition.
pub open spec fn var_declared(pre: Parser, post: Parser) -> bool {
    exists|named: Parser, valued: Parser, ended: Parser, global: u8|
        #![trigger within(pre, named), within(named, valued), defined(ended, post, global)]
        {
            &&& within(pre, named)
            &&& within(named, valued)
            &&& variable_parsed(pre, named, "Expected variable name."@, global)
            &&& started_with(named, valued)
            &&& consumed(
                valued,
                ended,
                TokenType::Semicolon,
                "Expected ';' after variable declaration."@,
            )
            &&& defined(ended, post, global)
        }
}

/// A condition in parentheses; `opening` is the complaint about a
/// missing opening parenthesis.
pub open spec fn conditioned(pre: Parser, post: Parser, opening: Seq<char>) -> bool {
    exists|open: Parser, value: Parser|
        #![trigger within(pre, open), within(open, value)]
        {
            &&& within(pre, open)
            &&& within(open, value)
            &&& consumed(pre, open, TokenType::LeftParen, opening)
            &&& expressed(open, value)
            &&& consumed(value, post, TokenType::RightParen, "Expected ')' after condition."@)
        }
}

/// The test of a condition: a jump for a false condition, whose address
/// is not known yet, and `Pop`.
pub open spec fn branched(pre: Parser, post: Parser) -> bool {
    exists|jump: Parser|
        #![trigger jump_begun(pre, jump, OpCode::JumpIfFalse)]
        jump_begun(pre, jump, OpCode::JumpIfFalse) && emitted_simple(jump, post, OpCode::Pop)
}

/// What stands between the branches of an `if`: a jump over the second
/// branch, whose address is not known yet; the landing of the jump at
/// `test`; and `Pop`.
pub open spec fn turned(pre: Parser, post: Parser, test: int) -> bool {
    exists|skip: Parser, landed: Parser|
        #![trigger jump_begun(pre, skip, OpCode::Jump), jump_patched(skip, landed, test)]
        {
            &&& jump_begun(pre, skip, OpCode::Jump)
            &&& jump_patched(skip, landed, test)
            &&& emitted_simple(landed, post, OpCode::Pop)
        }
}

/// The end of a loop: a jump back to `start`, the landing of the jump at
/// `test`, and `Pop`.
pub open spec fn repeated(pre: Parser, post: Parser, start: int, test: int) -> bool {
    exists|back: Parser, landed: Parser|
        #![trigger looped(pre, back, start), jump_patched(back, landed, test)]
        {
            &&& looped(pre, back, start)
            &&& jump_patched(back, landed, test)
            &&& emitted_simple(landed, post, OpCode::Pop)
        }
}

/// The condition of a `for` loop, up to its semicolon: where there is
/// one, a jump out of the loop for a false condition, and `Pop`. `exit`
/// is where the operands of the jump stand.
pub open spec fn for_tested(pre: Parser, post: Parser, exit: Option<int>) -> bool {
    if pre.current@.kind == TokenType::Semicolon {
        advanced(pre, post) && exit is None
    } else {
        exists|value: Parser, ended: Parser|
            #![trigger within(pre, value), branched(ended, post)]
            {
                &&& within(pre, value)
                &&& expressed(pre, value)
                &&& consumed(
                    value,
                    ended,
                    TokenType::Semicolon,
                    "Expected ';' after loop condition."@,
                )
                &&& branched(ended, post)
                &&& exit == Some(patch_place(ended))
            }
    }
}

/// The increment of a `for` loop, up to the closing parenthesis: where
/// there is one, a jump over it to the body, the increment, `Pop`, and a
/// jump back to `start`. `next` is where the body is to jump back to:
/// the increment, or `start` without one.
pub open spec fn for_stepped(pre: Parser, post: Parser, start: int, next: int) -> bool {
    if pre.current@.kind == TokenType::RightParen {
        advanced(pre, post) && next == start
    } else {
        exists|jump: Parser, value: Parser, popped: Parser, closed: Parser, back: Parser|
            #![trigger jump_begun(pre, jump, OpCode::Jump), emitted_simple(value, popped, OpCode::Pop), looped(closed, back, start)]
            {
                &&& jump_begun(pre, jump, OpCode::Jump)
                &&& expressed(jump, value)
                &&& emitted_simple(value, popped, OpCode::Pop)
                &&& consumed(
                    popped,
                    closed,
                    TokenType::RightParen,
                    "Expected ')' after for clause."@,
                )
                &&& looped(closed, back, start)
                &&& jump_patched(back, post, patch_place(pre))
                &&& next == pre.code().len() + 3
            }
    }
}

/// The initializer of a `for` loop, from behind the opening parenthesis
/// on: nothing, a variable declaration or an expression statement.
pub open spec fn for_begun(pre: Parser, post: Parser) -> bool {
    if pre.current@.kind == TokenType::Semicolon {
        advanced(pre, post)
    } else if pre.current@.kind == TokenType::Var {
        exists|begun: Parser|
            #![trigger advanced(pre, begun)]
            advanced(pre, begun) && var_declared(begun, post)
    } else {
        expression_stated(pre, post)
    }
}

/// The head of a `for` loop, from behind `for` on: a scope is opened;
/// then the parenthesis, the initializer, the condition and the
/// increment. `back` is where the body is to jump back to, and `exit`
/// where the operands stand of the jump out of the loop.
pub open spec fn for_headed(pre: Parser, post: Parser, back: int, exit: Option<int>) -> bool {
    exists|scoped: Parser, open: Parser, begun: Parser, tested: Parser|
        #![trigger scope_begun(pre, scoped), within(scoped, open), for_begun(open, begun), for_tested(begun, tested, exit)]
        {
            &&& scope_begun(pre, scoped)
            &&& within(scoped, open)
            &&& consumed(scoped, open, TokenType::LeftParen, "Expected '(' after 'for'."@)
            &&& for_begun(open, begun)
            &&& for_tested(begun, tested, exit)
            &&& for_stepped(tested, post, begun.code().len() as int, back)
        }
}

/// The landing of the jump out of a `for` loop, where the loop has a
/// condition: the jump is resolved, and `Pop` follows. `exit` is where
/// the operands of the jump stand.
pub open spec fn for_left(pre: Parser, post: Parser, exit: Option<int>) -> bool {
    if exit is Some {
        exists|landed: Parser|
            #![trigger jump_patched(pre, landed, exit->0)]
            jump_patched(pre, landed, exit->0) && emitted_simple(landed, post, OpCode::Pop)
    } else {
        post == pre
    }
}

/// The end of a `for` loop: a jump back to `back`; the landing of the
/// jump out of the loop; and the end of the scope of the loop.
pub open spec fn for_ended(pre: Parser, post: Parser, back: int, exit: Option<int>) -> bool {
    exists|jumped: Parser, left: Parser|
        #![trigger looped(pre, jumped, back), scope_ended(left, post)]
        {
            &&& looped(pre, jumped, back)
            &&& for_left(jumped, left, exit)
            &&& scope_ended(left, post)
        }
}

/// One parameter of a function, and the comma behind it if there is one
/// (`more`): the parameter is counted and becomes a local of the
/// function. More than 255 parameters are an error.
pub open spec fn parameter(pre: Parser, post: Parser, more: bool) -> bool {
    exists|counted: Parser, warned: Parser, named: Parser, known: Parser, constant: u8|
        #![trigger parameter_counted(pre, counted), within(counted, warned), defined(named, known, constant)]
        {
            &&& parameter_counted(pre, counted)
            &&& within(counted, warned)
            &&& if counted.top().function_builder.arity > 255 {
                reported(
                    counted,
                    warned,
                    counted.current@,
                    "Can't have more than 255 parameter names."@,
                )
            } else {
                warned == counted
            }
            &&& variable_parsed(warned, named, "Expected parameter name."@, constant)
            &&& defined(named, known, constant)
            &&& more == (known.current@.kind == TokenType::Comma)
            &&& tried(known, post, TokenType::Comma)
        }
}

/// Parameters of a function, one after the other, with a comma behind
/// each but the last; `more` says whether a comma follows the last one,
/// too.
pub open spec fn parameter_chain(pre: Parser, post: Parser, more: bool) -> bool
    decreases
            pre.measure() - post.measure(),
            if more {
                0int
            } else {
                1int
            },
{
    parameter(pre, post, more) || exists|mid: Parser|
        #![trigger parameter(mid, post, more)]
        {
            &&& post.measure() <= mid.measure() <= pre.measure()
            &&& more ==> post.measure() < mid.measure()
            &&& parameter_chain(pre, mid, true)
            &&& parameter(mid, post, more)
        }
}

/// The parameters of a function, up to the closing parenthesis.
pub open spec fn parameters_read(pre: Parser, post: Parser) -> bool {
    if pre.current@.kind == TokenType::RightParen {
        post == pre
    } else {
        parameter_chain(pre, post, false)
    }
}

/// The head of a function, from behind its name on: the compiler of the
/// new function is put on top of the others, a scope is opened, and the
/// parameters are read, up to the brace that opens the body.
pub open spec fn function_headed(pre: Parser, post: Parser, kind: FunctionType) -> bool {
    exists|begun: Parser, scoped: Parser, open: Parser, listed: Parser, closed: Parser|
        #![trigger function_begun(pre, begun, kind), scope_begun(begun, scoped), within(scoped, open), within(open, listed), within(listed, closed)]
        {
            &&& function_begun(pre, begun, kind)
            &&& scope_begun(begun, scoped)
            &&& within(scoped, open)
            &&& within(open, listed)
            &&& within(listed, closed)
            &&& consumed(scoped, open, TokenType::LeftParen, "Expected '(' after function name."@)
            &&& parameters_read(open, listed)
            &&& consumed(listed, closed, TokenType::RightParen, "Expected ')' after parameters."@)
            &&& consumed(
                closed,
                post,
                TokenType::LeftBrace,
                "Expected '{' before function body."@,
            )
        }
}

/// Declarations of a block, one after the other, none of them begun at
/// a closing brace or at the end.
pub open spec fn block_items(pre: Parser, post: Parser) -> bool
    decreases pre.measure() + 1, 2int, pre.measure() - post.measure(),
{
    post == pre || exists|mid: Parser|
        #![trigger within(mid, post)]
        {
            &&& within(mid, post)
            &&& post.measure() < mid.measure() <= pre.measure()
            &&& block_items(pre, mid)
            &&& mid.current@.kind != TokenType::RightBrace
            &&& mid.current@.kind != TokenType::Eof
            &&& declaration_made(mid, post)
        }
}

/// block := '{' declaration* '}', from behind the opening brace on.
pub open spec fn blocked(pre: Parser, post: Parser) -> bool
    decreases pre.measure() + 1, 3int,
{
    exists|listed: Parser|
        #![trigger within(pre, listed)]
        {
            &&& within(pre, listed)
            &&& block_items(pre, listed)
            &&& (listed.current@.kind == TokenType::RightBrace || listed.current@.kind
                == TokenType::Eof)
            &&& consumed(listed, post, TokenType::RightBrace, "Expected '}' after block."@)
        }
}

/// A function, from behind its name on: it is compiled in a compiler of
/// its own, and the instruction that makes its closure is emitted.
pub open spec fn function_made(pre: Parser, post: Parser, kind: FunctionType) -> bool
    decreases pre.measure() + 1, 4int,
{
    exists|headed: Parser, body: Parser, ended: Parser, function: Function|
        #![trigger within(pre, headed), function_ended(body, ended, function)]
        {
            &&& within(pre, headed)
            &&& function_headed(pre, headed, kind)
            &&& blocked(headed, body)
            &&& function_ended(body, ended, function)
            &&& closure_made(ended, post, function, body.top().upvalues@)
        }
}

/// The kind of the method of the name `name`: `init` is the initializer.
pub open spec fn method_kind(name: Seq<char>) -> FunctionType {
    if name == "init"@ {
        FunctionType::Initializer
    } else {
        FunctionType::Method
    }
}

/// A method: its name, then the function; defined by `Method`.
pub open spec fn method_made(pre: Parser, post: Parser) -> bool
    decreases pre.measure() + 1, 5int,
{
    exists|named: Parser, known: Parser, made: Parser, constant: u8|
        #![trigger within(pre, named), within(named, known), emitted_pair(made, post, OpCode::Method, constant)]
        {
            &&& within(pre, named)
            &&& within(named, known)
            &&& consumed(pre, named, TokenType::Identifier, "Expected method name."@)
            &&& identified(named, known, named.previous@.lexeme, constant)
            &&& function_made(known, made, method_kind(named.previous@.lexeme))
            &&& emitted_pair(made, post, OpCode::Method, constant)
        }
}

/// Methods of a class, one after the other, none of them begun at a
/// closing brace or at the end.
pub open spec fn method_chain(pre: Parser, post: Parser) -> bool
    decreases pre.measure() + 1, 6int, pre.measure() - post.measure(),
{
    post == pre || exists|mid: Parser|
        #![trigger within(mid, post)]
        {
            &&& within(mid, post)
            &&& post.measure() < mid.measure() <= pre.measure()
            &&& method_chain(pre, mid)
            &&& mid.current@.kind != TokenType::RightBrace
            &&& mid.current@.kind != TokenType::Eof
            &&& method_made(mid, post)
        }
}

/// The body of a class: its methods between braces.
pub open spec fn methods_listed(pre: Parser, post: Parser) -> bool
    decreases pre.measure() + 1, 7int,
{
    exists|open: Parser, listed: Parser|
        #![trigger within(pre, open), within(open, listed)]
        {
            &&& within(pre, open)
            &&& within(open, listed)
            &&& consumed(pre, open, TokenType::LeftBrace, "Expected '{' before class body."@)
            &&& method_chain(open, listed)
            &&& (listed.current@.kind == TokenType::RightBrace || listed.current@.kind
                == TokenType::Eof)
            &&& consumed(listed, post, TokenType::RightBrace, "Expected '}' after class body."@)
        }
}

/// The token that names the local `super`.
pub open spec fn super_token(line: u32) -> TokenModel {
    TokenModel { kind: TokenType::Identifier, lexeme: "super"@, line }
}

/// The name of the superclass, from behind `<` on: the superclass is
/// pushed. A class that names itself is an error.
pub open spec fn superclass_named(pre: Parser, post: Parser, class_name: Seq<char>) -> bool {
    exists|read: Parser, loaded: Parser|
        #![trigger within(pre, read), within(read, loaded)]
        {
            &&& within(pre, read)
            &&& within(read, loaded)
            &&& consumed(pre, read, TokenType::Identifier, "Expect superclass name."@)
            &&& named(read, loaded, read.previous@.lexeme, false)
            &&& if class_name == loaded.previous@.lexeme {
                reported(loaded, post, loaded.previous@, "A class cannot inherit from itself."@)
            } else {
                post == loaded
            }
        }
}

/// The superclass, which is on the stack, becomes the local `super` of a
/// new scope.
pub open spec fn super_bound(pre: Parser, post: Parser) -> bool {
    exists|scoped: Parser, added: Parser|
        #![trigger scope_begun(pre, scoped), defined(added, post, 0)]
        {
            &&& scope_begun(pre, scoped)
            &&& local_wanted(scoped, added, super_token(scoped.previous@.line))
            &&& defined(added, post, 0)
        }
}

/// The superclass of a class, where the class names one (`has`): the
/// superclass is pushed and becomes the local `super` of a new scope,
/// and the class is pushed and inherits its methods.
pub open spec fn inherited(pre: Parser, post: Parser, class_name: Seq<char>, has: bool) -> bool {
    if pre.current@.kind != TokenType::Less {
        post == pre && !has
    } else {
        &&& has
        &&& exists|begun: Parser, known: Parser, bound: Parser, loaded: Parser, linked: Parser|
            #![trigger advanced(pre, begun), superclass_named(begun, known, class_name), super_bound(known, bound), within(bound, loaded), superclass_noted(linked, post)]
            {
                &&& advanced(pre, begun)
                &&& superclass_named(begun, known, class_name)
                &&& super_bound(known, bound)
                &&& within(bound, loaded)
                &&& named(bound, loaded, class_name, false)
                &&& emitted_simple(loaded, linked, OpCode::Inherit)
                &&& superclass_noted(linked, post)
            }
    }
}

/// The head of a class declaration, from behind `class` on: the name,
/// which is declared as a variable; the instruction `Class`, and the
/// definition of the variable. `name` is the constant that holds the
/// name.
pub open spec fn class_headed(pre: Parser, post: Parser, name: u8) -> bool {
    exists|read: Parser, known: Parser, noted: Parser, entered: Parser, made: Parser|
        #![trigger within(pre, read), declared(known, noted), class_entered(noted, entered), emitted_pair(entered, made, OpCode::Class, name)]
        {
            &&& within(pre, read)
            &&& consumed(pre, read, TokenType::Identifier, "Expected class name."@)
            &&& identified(read, known, read.previous@.lexeme, name)
            &&& declared(known, noted)
            &&& class_entered(noted, entered)
            &&& emitted_pair(entered, made, OpCode::Class, name)
            &&& defined(made, post, name)
        }
}

/// The end of a class declaration: the class is popped, the scope of
/// `super` ends where the class has a superclass, and the parser leaves
/// the class.
pub open spec fn class_ended(pre: Parser, post: Parser, has: bool) -> bool {
    exists|popped: Parser, closed: Parser|
        #![trigger emitted_simple(pre, popped, OpCode::Pop), class_left(closed, post)]
        {
            &&& emitted_simple(pre, popped, OpCode::Pop)
            &&& if has {
                scope_ended(popped, closed)
            } else {
                closed == popped
            }
            &&& class_left(closed, post)
        }
}

/// The start of a class declaration, from behind `class` on: the class
/// is made and becomes a variable; with a superclass (`has`) it
/// inherits; then the class is pushed.
pub open spec fn class_opened(pre: Parser, post: Parser, has: bool) -> bool {
    exists|headed: Parser, based: Parser, name: u8|
        #![trigger class_headed(pre, headed, name), within(headed, based)]
        {
            &&& class_headed(pre, headed, name)
            &&& within(headed, based)
            &&& inherited(headed, based, headed.previous@.lexeme, has)
            &&& named(based, post, headed.previous@.lexeme, false)
        }
}

/// classDecl, from behind `class` on: the class is made and becomes a
/// variable; with a superclass it inherits; then the class is pushed
/// and its methods are compiled.
pub open spec fn class_declared(pre: Parser, post: Parser) -> bool
    decreases pre.measure() + 1, 8int,
{
    exists|opened: Parser, body: Parser, has: bool|
        #![trigger within(pre, opened), class_ended(body, post, has)]
        {
            &&& within(pre, opened)
            &&& class_opened(pre, opened, has)
            &&& methods_listed(opened, body)
            &&& class_ended(body, post, has)
        }
}

/// funDecl, from behind `fun` on: the name becomes a variable, which
/// counts as initialized at once, so that the function can call itself.
pub open spec fn function_declared(pre: Parser, post: Parser) -> bool
    decreases pre.measure() + 1, 8int,
{
    exists|named: Parser, known: Parser, made: Parser, global: u8|
        #![trigger within(pre, named), initialized(named, known), defined(made, post, global)]
        {
            &&& within(pre, named)
            &&& within(pre, known)
            &&& variable_parsed(pre, named, "Expected function name."@, global)
            &&& initialized(named, known)
            &&& function_made(known, made, FunctionType::Function)
            &&& defined(made, post, global)
        }
}

/// The second branch of an `if`, where there is one.
pub open spec fn else_stated(pre: Parser, post: Parser, origin: Parser) -> bool
    decreases origin.measure() + 1, 7int,
{
    if !within(origin, pre) {
        false
    } else if pre.current@.kind == TokenType::Else {
        exists|begun: Parser|
            #![trigger advanced(pre, begun)]
            advanced(pre, begun) && begun.measure() < pre.measure() && stated(begun, post)
    } else {
        post == pre
    }
}

/// `if (e) s1 [else s2]`, from behind `if` on: the condition; a jump
/// over `s1` where it is false; `s1`; a jump over `s2`; `s2`.
pub open spec fn if_stated(pre: Parser, post: Parser) -> bool
    decreases pre.measure() + 1, 8int,
{
    exists|tested: Parser, begun: Parser, first: Parser, turn: Parser, second: Parser|
        #![trigger within(pre, tested), branched(tested, begun), within(begun, first), turned(first, turn, patch_place(tested)), jump_patched(second, post, patch_place(first))]
        {
            &&& within(pre, tested)
            &&& within(pre, begun)
            &&& within(begun, first)
            &&& conditioned(pre, tested, "Expected '(' after 'if'."@)
            &&& branched(tested, begun)
            &&& stated(begun, first)
            &&& turned(first, turn, patch_place(tested))
            &&& else_stated(turn, second, pre)
            &&& jump_patched(second, post, patch_place(first))
        }
}

/// `while (e) body`, from behind `while` on: the condition with a jump
/// out of the loop where it is false; the body with a jump back to the
/// condition.
pub open spec fn while_stated(pre: Parser, post: Parser) -> bool
    decreases pre.measure() + 1, 8int,
{
    exists|tested: Parser, begun: Parser, body: Parser|
        #![trigger within(pre, tested), branched(tested, begun), repeated(body, post, pre.code().len() as int, patch_place(tested))]
        {
            &&& within(pre, tested)
            &&& within(pre, begun)
            &&& conditioned(pre, tested, "Expected '(' after 'while'."@)
            &&& branched(tested, begun)
            &&& stated(begun, body)
            &&& repeated(body, post, pre.code().len() as int, patch_place(tested))
        }
}

/// `for (init; cond; incr) body`, from behind `for` on: in a scope of
/// its own, the initializer; the condition with a jump out of the loop
/// where it is false; a jump over the increment to the body; the
/// increment with a jump back to the condition; the body with a jump
/// back to the increment.
pub open spec fn for_stated(pre: Parser, post: Parser) -> bool
    decreases pre.measure() + 1, 8int,
{
    exists|headed: Parser, body: Parser, back: int, exit: Option<int>|
        #![trigger for_headed(pre, headed, back, exit), for_ended(body, post, back, exit)]
        {
            &&& within(pre, headed)
            &&& for_headed(pre, headed, back, exit)
            &&& stated(headed, body)
            &&& for_ended(body, post, back, exit)
        }
}

/// A block as a statement, from behind its opening brace on: the
/// declarations stand in a scope of their own.
pub open spec fn block_stated(pre: Parser, post: Parser) -> bool
    decreases pre.measure() + 1, 8int,
{
    exists|scoped: Parser, closed: Parser|
        #![trigger scope_begun(pre, scoped), scope_ended(closed, post)]
        {
            &&& scope_begun(pre, scoped)
            &&& within(pre, scoped)
            &&& blocked(scoped, closed)
            &&& scope_ended(closed, post)
        }
}

/// What the statement that begins with a token of kind `kind` does, from
/// behind that token on.
pub open spec fn stated_as(pre: Parser, post: Parser, kind: TokenType) -> bool
    decreases pre.measure() + 1, 9int,
{
    match kind {
        TokenType::Print => printed(pre, post),
        TokenType::If => if_stated(pre, post),
        TokenType::While => while_stated(pre, post),
        TokenType::For => for_stated(pre, post),
        TokenType::Return => returned(pre, post),
        _ => block_stated(pre, post),
    }
}

/// Whether a statement that is no expression begins with a token of kind
/// `kind`.
pub open spec fn opens_statement(kind: TokenType) -> bool {
    kind == TokenType::Print || kind == TokenType::If || kind == TokenType::While || kind
        == TokenType::For || kind == TokenType::Return || kind == TokenType::LeftBrace
}

/// statement := exprStmt | forStmt | ifStmt | printStmt | returnStmt
/// | whileStmt | block
pub open spec fn stated(pre: Parser, post: Parser) -> bool
    decreases pre.measure(), 10int,
{
    if opens_statement(pre.current@.kind) {
        exists|begun: Parser|
            #![trigger advanced(pre, begun)]
            advanced(pre, begun) && begun.measure() < pre.measure() && stated_as(
                begun,
                post,
                pre.current@.kind,
            )
    } else {
        expression_stated(pre, post)
    }
}

/// What the declaration does that begins with the token that the parser
/// looks at.
pub open spec fn declaration_begun(pre: Parser, post: Parser) -> bool
    decreases pre.measure(), 11int,
{
    if pre.current@.kind == TokenType::Class || pre.current@.kind == TokenType::Fun
        || pre.current@.kind == TokenType::Var {
        exists|begun: Parser|
            #![trigger advanced(pre, begun)]
            advanced(pre, begun) && begun.measure() < pre.measure() && match pre.current@.kind {
                TokenType::Class => class_declared(begun, post),
                TokenType::Fun => function_declared(begun, post),
                _ => var_declared(begun, post),
            }
    } else {
        stated(pre, post)
    }
}

/// declaration := classDecl | funDecl | varDecl | statement. After an
/// error the parser recovers at the end of the declaration.
pub open spec fn declaration_made(pre: Parser, post: Parser) -> bool
    decreases pre.measure(), 12int,
{
    exists|done: Parser|
        #![trigger within(pre, done)]
        {
            &&& within(pre, done)
            &&& declaration_begun(pre, done)
            &&& if done.panic_mode {
                synchronized(done, post)
            } else {
                post == done
            }
        }
}

/// Declarations of a script, one after the other, none of them begun at
/// the end.
pub open spec fn script_items(pre: Parser, post: Parser) -> bool
    decreases pre.measure() - post.measure(),
{
    post == pre || exists|mid: Parser|
        #![trigger within(mid, post)]
        {
            &&& within(mid, post)
            &&& post.measure() < mid.measure() <= pre.measure()
            &&& script_items(pre, mid)
            &&& mid.current@.kind != TokenType::Eof
            &&& declaration_made(mid, post)
        }
}

/// The whole script: its declarations up to the end, and the end of the
/// function that holds them. Without an error the result is the closure
/// of that function, with the symbols and the heap; else the errors.
pub open spec fn compiled(
    pre: Parser,
    result: Result<(Closure, SymbolTable, Heap), Vec<CompileError>>,
) -> bool {
    exists|listed: Parser, last: Parser, done: Parser, function: Function|
        #![trigger within(pre, listed), advanced(listed, last), function_ended(last, done, function)]
        {
            &&& within(pre, listed)
            &&& script_items(pre, listed)
            &&& listed.current@.kind == TokenType::Eof
            &&& advanced(listed, last)
            &&& function_ended(last, done, function)
            &&& match result {
                Ok((closure, symbols, heap)) => {
                    &&& !done.had_error
                    &&& closure.function == function
                    &&& closure.upvalues@.len() == 0
                    &&& symbols == done.symbol_table
                    &&& heap == done.heap
                },
                Err(errors) => done.had_error && errors == done.errors,
            }
        }
}

} // verus!
