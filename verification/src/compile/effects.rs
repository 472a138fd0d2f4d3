//! What the parser's elementary operations do, as relations between the
//! parser before and after.

use vstd::prelude::*;
use crate::chunk::{first_equal, high_byte, low_byte, lined, with_constant, CodeUnit};
use crate::compile::parser::{advanced, emitted, reported, Parser};
use crate::compile::{
    declared_in_scope, locals_kept, resolved, upvalue_place, ClassCompiler, Local, Upvalue,
    MAX_LOCALS, MAX_UPVALUES,
};
use crate::function::{Function, FunctionInner, FunctionType};
use crate::intern_string::Symbol;
use crate::opcodes::{opcode_byte, OpCode};
use crate::tokens::{TokenModel, TokenType};
use crate::value::Value;

verus! {

/// The parser looks at the same tokens.
pub open spec fn same_input(pre: Parser, post: Parser) -> bool {
    &&& post.source == pre.source
    &&& post.numbers == pre.numbers
    &&& post.position == pre.position
    &&& post.current == pre.current
    &&& post.previous == pre.previous
    &&& post.current_number == pre.current_number
    &&& post.previous_number == pre.previous_number
}

/// The parser has reported the same errors.
pub open spec fn same_errors(pre: Parser, post: Parser) -> bool {
    &&& post.had_error == pre.had_error
    &&& post.panic_mode == pre.panic_mode
    &&& post.errors == pre.errors
}

/// The heap and the enclosing classes are the same.
pub open spec fn same_world(pre: Parser, post: Parser) -> bool {
    &&& post.heap == pre.heap
    &&& post.class_compilers == pre.class_compilers
}

/// The enclosing functions are the same.
pub open spec fn same_enclosing(pre: Parser, post: Parser) -> bool {
    &&& post.compilers@.len() == pre.compilers@.len()
    &&& forall|i: int|
        0 <= i < pre.compilers@.len() - 1 ==> #[trigger] post.compilers@[i] == pre.compilers@[i]
}

/// The function under construction has the same header, locals and
/// captured variables.
pub open spec fn same_function(pre: Parser, post: Parser) -> bool {
    &&& post.top().locals == pre.top().locals
    &&& post.top().upvalues == pre.top().upvalues
    &&& post.top().scope_depth == pre.top().scope_depth
    &&& post.top().function_builder.name == pre.top().function_builder.name
    &&& post.top().function_builder.arity == pre.top().function_builder.arity
    &&& post.top().function_builder.kind == pre.top().function_builder.kind
    &&& post.top().function_builder.upvalue_count == pre.top().function_builder.upvalue_count
}

/// An error at `token` was noted: while the parser panics nothing is
/// recorded; else the error is recorded and the parser panics from now
/// on.
pub open spec fn noted(pre: Parser, post: Parser, token: TokenModel, message: Seq<char>) -> bool {
    if pre.panic_mode {
        same_errors(pre, post)
    } else {
        &&& post.panic_mode
        &&& post.had_error
        &&& post.errors@.len() == pre.errors@.len() + 1
        &&& post.errors@.drop_last() == pre.errors@
        &&& post.errors@.last().line == token.line
        &&& crate::compile::parser::place_of(post.errors@.last().place, token)
        &&& post.errors@.last().message@ == message
    }
}

/// The parser has gone on to the next token where it looked at one of the
/// given kind, and has done nothing else.
pub open spec fn tried(pre: Parser, post: Parser, kind: TokenType) -> bool {
    if pre.current@.kind == kind {
        advanced(pre, post)
    } else {
        post == pre
    }
}

/// The parser has gone on to the next token where it looked at one of the
/// given kind, and has reported the error else.
pub open spec fn consumed(pre: Parser, post: Parser, kind: TokenType, message: Seq<char>) -> bool {
    if pre.current@.kind == kind {
        advanced(pre, post)
    } else {
        reported(pre, post, pre.current@, message)
    }
}

/// The opcode `opcode`, which has no operand, was appended.
pub open spec fn emitted_simple(pre: Parser, post: Parser, opcode: OpCode) -> bool {
    emitted(pre, post, seq![opcode_byte(opcode)])
}

/// The opcode `opcode` and its operand were appended.
pub open spec fn emitted_pair(pre: Parser, post: Parser, opcode: OpCode, operand: u8) -> bool {
    emitted(pre, post, seq![opcode_byte(opcode), operand])
}

/// The opcode `opcode` and its two operands were appended.
pub open spec fn emitted_triple(
    pre: Parser,
    post: Parser,
    opcode: OpCode,
    first: u8,
    second: u8,
) -> bool {
    emitted(pre, post, seq![opcode_byte(opcode), first, second])
}

/// The place of the compiler of the function under construction.
pub open spec fn innermost(parser: Parser) -> int {
    parser.compilers@.len() - 1
}

/// Where the operands stand of a jump that is appended to the code of
/// `parser`.
pub open spec fn patch_place(parser: Parser) -> int {
    parser.code().len() as int + 1
}

/// A jump whose address is not known yet was appended: the opcode and two
/// bytes of 255, which wait for their patch.
pub open spec fn jump_begun(pre: Parser, post: Parser, opcode: OpCode) -> bool {
    &&& same_input(pre, post)
    &&& same_errors(pre, post)
    &&& same_world(pre, post)
    &&& same_enclosing(pre, post)
    &&& same_function(pre, post)
    &&& post.constants() == pre.constants()
    &&& post.pending() == pre.pending().insert(patch_place(pre))
    &&& post.code() == pre.code() + seq![
        CodeUnit { byte: opcode_byte(opcode) },
        CodeUnit { byte: 255 },
        CodeUnit { byte: 255 },
    ]
    &&& post.lines() == lined(pre.lines(), pre.next_line(), 3)
}

/// The jump whose operands stand at `location` was resolved to the end of
/// the code: the operands spell the distance from behind them to the end.
/// A distance that does not fit in two bytes was reported, and the
/// operands are then 0.
pub open spec fn jump_patched(pre: Parser, post: Parser, location: int) -> bool {
    let distance = pre.code().len() - location - 2;
    let written = if distance > u16::MAX {
        0u16
    } else {
        distance as u16
    };
    &&& same_input(pre, post)
    &&& same_world(pre, post)
    &&& same_enclosing(pre, post)
    &&& same_function(pre, post)
    &&& post.constants() == pre.constants()
    &&& post.pending() == pre.pending().remove(location)
    &&& post.lines() == pre.lines()
    &&& post.code() == pre.code().update(location, CodeUnit { byte: high_byte(written) }).update(
        location + 1,
        CodeUnit { byte: low_byte(written) },
    )
    &&& if distance > u16::MAX {
        noted(pre, post, pre.previous@, "Too much code to jump over."@)
    } else {
        same_errors(pre, post)
    }
}

/// A jump back to `loop_start` was appended: `Loop` and the distance from
/// behind its operands back to `loop_start`. A distance that does not fit
/// in two bytes was reported, and the operands are then 0.
pub open spec fn looped(pre: Parser, post: Parser, loop_start: int) -> bool {
    let offset = pre.code().len() + 3 - loop_start;
    let written = if offset > u16::MAX {
        0u16
    } else {
        offset as u16
    };
    &&& same_input(pre, post)
    &&& same_world(pre, post)
    &&& same_enclosing(pre, post)
    &&& same_function(pre, post)
    &&& post.constants() == pre.constants()
    &&& post.pending() == pre.pending()
    &&& post.lines() == lined(pre.lines(), pre.next_line(), 3)
    &&& post.code() == pre.code() + seq![
        CodeUnit { byte: opcode_byte(OpCode::Loop) },
        CodeUnit { byte: high_byte(written) },
        CodeUnit { byte: low_byte(written) },
    ]
    &&& if offset > u16::MAX {
        noted(pre, post, pre.previous@, "Loop body too large."@)
    } else {
        same_errors(pre, post)
    }
}

/// The place of `value` among the constants was found or made: `index` is
/// the place, and a value that was not there is at the end now. A place
/// that does not fit in one byte was reported, and `index` is then 0.
pub open spec fn placed(pre: Parser, post: Parser, value: Value, index: u8) -> bool {
    let place = first_equal(pre.constants(), value);
    &&& same_input(pre, post)
    &&& same_world(pre, post)
    &&& same_enclosing(pre, post)
    &&& same_function(pre, post)
    &&& post.code() == pre.code()
    &&& post.pending() == pre.pending()
    &&& post.lines() == pre.lines()
    &&& post.constants() == with_constant(pre.constants(), value)
    &&& if place > u8::MAX {
        index == 0 && noted(pre, post, pre.previous@, "Too many constants in one chunk."@)
    } else {
        index == place && same_errors(pre, post)
    }
}

/// The instruction that pushes `value` was appended: `Constant` and the
/// place of the value among the constants.
pub open spec fn constant_pushed(pre: Parser, post: Parser, value: Value) -> bool {
    exists|index: u8, mid: Parser|
        #![trigger placed(pre, mid, value, index)]
        placed(pre, mid, value, index) && emitted_pair(mid, post, OpCode::Constant, index)
}

/// The constant that holds the name `name` was found or made, and `index`
/// is its place.
pub open spec fn identified(pre: Parser, post: Parser, name: Seq<char>, index: u8) -> bool {
    exists|symbol: Symbol| #[trigger] symbol@ == name && placed(pre, post, Value::String(symbol), index)
}

/// Local `local` of the function of compiler `index` was marked as
/// captured.
pub open spec fn marked(pre: Parser, post: Parser, index: int, local: int) -> bool {
    &&& same_input(pre, post)
    &&& same_errors(pre, post)
    &&& same_world(pre, post)
    &&& post.symbol_table == pre.symbol_table
    &&& post.compilers@.len() == pre.compilers@.len()
    &&& forall|i: int|
        0 <= i < pre.compilers@.len() && i != index ==> #[trigger] post.compilers@[i]
            == pre.compilers@[i]
    &&& post.compilers@[index].function_builder == pre.compilers@[index].function_builder
    &&& post.compilers@[index].upvalues == pre.compilers@[index].upvalues
    &&& post.compilers@[index].scope_depth == pre.compilers@[index].scope_depth
    &&& post.compilers@[index].locals@.len() == pre.compilers@[index].locals@.len()
    &&& forall|j: int|
        0 <= j < pre.compilers@[index].locals@.len() && j != local
            ==> #[trigger] post.compilers@[index].locals@[j] == pre.compilers@[index].locals@[j]
    &&& post.compilers@[index].locals@[local].name == pre.compilers@[index].locals@[local].name
    &&& post.compilers@[index].locals@[local].depth == pre.compilers@[index].locals@[local].depth
    &&& post.compilers@[index].locals@[local].is_captured
}

/// The function of compiler `index` captures `upvalue`, at `place`: the
/// place it had, or a new one at the end. More captured variables than a
/// function can have were reported, and `place` is then 0.
pub open spec fn upvalue_added(
    pre: Parser,
    post: Parser,
    index: int,
    upvalue: Upvalue,
    place: int,
) -> bool {
    let known = upvalue_place(
        pre.compilers@[index].upvalues@,
        upvalue,
        pre.compilers@[index].upvalues@.len() as int,
    );
    &&& same_input(pre, post)
    &&& same_world(pre, post)
    &&& post.symbol_table == pre.symbol_table
    &&& post.compilers@.len() == pre.compilers@.len()
    &&& forall|i: int|
        0 <= i < pre.compilers@.len() && i != index ==> #[trigger] post.compilers@[i]
            == pre.compilers@[i]
    &&& post.compilers@[index].locals == pre.compilers@[index].locals
    &&& post.compilers@[index].scope_depth == pre.compilers@[index].scope_depth
    &&& post.compilers@[index].function_builder.builder
        == pre.compilers@[index].function_builder.builder
    &&& post.compilers@[index].function_builder.name == pre.compilers@[index].function_builder.name
    &&& post.compilers@[index].function_builder.arity
        == pre.compilers@[index].function_builder.arity
    &&& post.compilers@[index].function_builder.kind == pre.compilers@[index].function_builder.kind
    &&& post.compilers@[index].function_builder.upvalue_count
        == post.compilers@[index].upvalues@.len()
    &&& if known >= 0 {
        &&& place == known
        &&& post.compilers@[index].upvalues == pre.compilers@[index].upvalues
        &&& same_errors(pre, post)
    } else if pre.compilers@[index].upvalues@.len() == MAX_UPVALUES {
        &&& place == 0
        &&& post.compilers@[index].upvalues == pre.compilers@[index].upvalues
        &&& noted(pre, post, pre.previous@, "Too many closures variables in function."@)
    } else {
        &&& place == pre.compilers@[index].upvalues@.len()
        &&& post.compilers@[index].upvalues@ == pre.compilers@[index].upvalues@.push(upvalue)
        &&& same_errors(pre, post)
    }
}

/// The function of compiler `depth` has what follows a search for `name`
/// in the enclosing function: with `found` at -1 nothing, else the
/// captured variable that `found` stands for.
pub open spec fn linked(
    pre: Parser,
    post: Parser,
    depth: int,
    found: int,
    is_local: bool,
    place: int,
) -> bool {
    if found == -1 {
        post == pre && place == -1
    } else {
        upvalue_added(pre, post, depth, Upvalue { index: found as u8, is_local }, place)
    }
}

/// The variable `name` was resolved as one that the function of compiler
/// `depth` captures from an enclosing function. Where the enclosing
/// function has a local of that name, the local is marked as captured and
/// the function captures its slot; else, where the enclosing function
/// itself captures the variable, the function captures that. `place` is
/// the place among the function's captured variables, or -1 where no
/// enclosing function knows the name.
pub open spec fn captured(pre: Parser, post: Parser, depth: int, name: Seq<char>, place: int) -> bool
    decreases depth,
{
    if depth < 1 || depth >= pre.compilers@.len() {
        post == pre && place == -1
    } else {
        let local = resolved(
            pre.compilers@[depth - 1].locals@,
            name,
            pre.compilers@[depth - 1].locals@.len() as int,
        );
        if local != -1 {
            exists|mid: Parser| #[trigger]
                marked(pre, mid, depth - 1, local) && linked(mid, post, depth, local, true, place)
        } else {
            exists|mid: Parser, found: int|
                #![trigger linked(mid, post, depth, found, false, place)]
                captured(pre, mid, depth - 1, name, found) && linked(
                    mid,
                    post,
                    depth,
                    found,
                    false,
                    place,
                )
        }
    }
}

/// The code of the function under construction, its constants and
/// source lines and the jumps that wait for their address are the same.
pub open spec fn same_code(pre: Parser, post: Parser) -> bool {
    &&& post.code() == pre.code()
    &&& post.constants() == pre.constants()
    &&& post.pending() == pre.pending()
    &&& post.lines() == pre.lines()
}

/// A scope was opened.
pub open spec fn scope_begun(pre: Parser, post: Parser) -> bool {
    &&& same_input(pre, post)
    &&& same_errors(pre, post)
    &&& same_world(pre, post)
    &&& same_enclosing(pre, post)
    &&& same_code(pre, post)
    &&& post.symbol_table == pre.symbol_table
    &&& post.top().locals == pre.top().locals
    &&& post.top().upvalues == pre.top().upvalues
    &&& post.top().function_builder.name == pre.top().function_builder.name
    &&& post.top().function_builder.arity == pre.top().function_builder.arity
    &&& post.top().function_builder.kind == pre.top().function_builder.kind
    &&& post.top().function_builder.upvalue_count == pre.top().function_builder.upvalue_count
    &&& post.top().scope_depth == pre.top().scope_depth + 1
}

/// The instruction that takes a local off the stack as its scope ends:
/// `CloseUpvalue` for one that was captured, `Pop` for any other.
pub open spec fn leaving(local: Local) -> CodeUnit {
    CodeUnit {
        byte: if local.is_captured {
            opcode_byte(OpCode::CloseUpvalue)
        } else {
            opcode_byte(OpCode::Pop)
        },
    }
}

/// The innermost scope was closed: its locals have left the list, and
/// for each, from the last one back, the instruction that takes it off
/// the stack was appended.
pub open spec fn scope_ended(pre: Parser, post: Parser) -> bool {
    let locals = pre.top().locals@;
    let kept = locals_kept(locals, pre.top().scope_depth - 1, locals.len() as int);
    &&& same_input(pre, post)
    &&& same_errors(pre, post)
    &&& same_world(pre, post)
    &&& same_enclosing(pre, post)
    &&& post.symbol_table == pre.symbol_table
    &&& post.top().upvalues == pre.top().upvalues
    &&& post.top().function_builder.name == pre.top().function_builder.name
    &&& post.top().function_builder.arity == pre.top().function_builder.arity
    &&& post.top().function_builder.kind == pre.top().function_builder.kind
    &&& post.top().function_builder.upvalue_count == pre.top().function_builder.upvalue_count
    &&& post.top().scope_depth == pre.top().scope_depth - 1
    &&& post.top().locals@ == locals.take(kept)
    &&& post.constants() == pre.constants()
    &&& post.pending() == pre.pending()
    &&& post.code().len() == pre.code().len() + locals.len() - kept
    &&& post.lines() == lined(pre.lines(), pre.next_line(), (locals.len() - kept) as nat)
    &&& forall|i: int| 0 <= i < pre.code().len() ==> #[trigger] post.code()[i] == pre.code()[i]
    &&& forall|k: int|
        0 <= k < locals.len() - kept ==> #[trigger] post.code()[pre.code().len() + k] == leaving(
            locals[locals.len() - 1 - k],
        )
}

/// The local `name` was added to the function under construction, not
/// yet initialized.
pub open spec fn local_added(pre: Parser, post: Parser, name: TokenModel) -> bool {
    &&& same_input(pre, post)
    &&& same_errors(pre, post)
    &&& same_world(pre, post)
    &&& same_enclosing(pre, post)
    &&& same_code(pre, post)
    &&& post.symbol_table == pre.symbol_table
    &&& post.top().upvalues == pre.top().upvalues
    &&& post.top().function_builder == pre.top().function_builder
    &&& post.top().scope_depth == pre.top().scope_depth
    &&& post.top().locals@.len() == pre.top().locals@.len() + 1
    &&& post.top().locals@.drop_last() == pre.top().locals@
    &&& post.top().locals@.last().name@ == name
    &&& post.top().locals@.last().depth == -1
    &&& !post.top().locals@.last().is_captured
}

/// A local named `name` was asked for: it was added, unless the function
/// has as many locals as it can have, which was reported.
pub open spec fn local_wanted(pre: Parser, post: Parser, name: TokenModel) -> bool {
    if pre.top().locals@.len() < MAX_LOCALS {
        local_added(pre, post, name)
    } else {
        reported(pre, post, pre.previous@, "Too many local variables in function."@)
    }
}

/// The variable that the token read last names was declared. At the top
/// level nothing happens. In a scope the variable becomes a local,
/// unless the scope has one of that name already, which was reported.
pub open spec fn declared(pre: Parser, post: Parser) -> bool {
    if pre.top().scope_depth == 0 {
        post == pre
    } else if declared_in_scope(
        pre.top().locals@,
        pre.top().scope_depth as int,
        pre.previous@.lexeme,
        pre.top().locals@.len() as int,
    ) {
        reported(
            pre,
            post,
            pre.previous@,
            "Already declared a variable with this name in this scope."@,
        )
    } else {
        local_wanted(pre, post, pre.previous@)
    }
}

/// The local that was declared last was marked as initialized: it
/// belongs to the current scope now. At the top level nothing happens.
pub open spec fn initialized(pre: Parser, post: Parser) -> bool {
    &&& same_input(pre, post)
    &&& same_errors(pre, post)
    &&& same_world(pre, post)
    &&& same_enclosing(pre, post)
    &&& same_code(pre, post)
    &&& post.symbol_table == pre.symbol_table
    &&& post.top().upvalues == pre.top().upvalues
    &&& post.top().function_builder == pre.top().function_builder
    &&& post.top().scope_depth == pre.top().scope_depth
    &&& post.top().locals@.len() == pre.top().locals@.len()
    &&& forall|i: int|
        0 <= i < pre.top().locals@.len() - 1 ==> #[trigger] post.top().locals@[i]
            == pre.top().locals@[i]
    &&& post.top().locals@.last().name == pre.top().locals@.last().name
    &&& post.top().locals@.last().is_captured == pre.top().locals@.last().is_captured
    &&& post.top().locals@.last().depth == if pre.top().scope_depth > 0 {
        pre.top().scope_depth as isize
    } else {
        pre.top().locals@.last().depth
    }
}

/// The variable that was declared last was defined: a global by the
/// instruction `DefineGlobal` with the constant `global`, a local by
/// marking it initialized.
pub open spec fn defined(pre: Parser, post: Parser, global: u8) -> bool {
    if pre.top().scope_depth == 0 {
        emitted_pair(pre, post, OpCode::DefineGlobal, global)
    } else {
        initialized(pre, post)
    }
}

/// The name of a variable was read and declared. `constant` is the
/// constant that holds the name of a global, 0 for a local.
pub open spec fn variable_parsed(pre: Parser, post: Parser, message: Seq<char>, constant: u8) -> bool {
    exists|read: Parser, known: Parser|
        #![trigger consumed(pre, read, TokenType::Identifier, message), declared(read, known)]
        {
            &&& consumed(pre, read, TokenType::Identifier, message)
            &&& declared(read, known)
            &&& if known.top().scope_depth > 0 {
                post == known && constant == 0
            } else {
                identified(known, post, known.previous@.lexeme, constant)
            }
        }
}

/// One more parameter was counted, up to 256.
pub open spec fn parameter_counted(pre: Parser, post: Parser) -> bool {
    &&& same_input(pre, post)
    &&& same_errors(pre, post)
    &&& same_world(pre, post)
    &&& same_enclosing(pre, post)
    &&& same_code(pre, post)
    &&& post.symbol_table == pre.symbol_table
    &&& post.top().locals == pre.top().locals
    &&& post.top().upvalues == pre.top().upvalues
    &&& post.top().scope_depth == pre.top().scope_depth
    &&& post.top().function_builder.name == pre.top().function_builder.name
    &&& post.top().function_builder.kind == pre.top().function_builder.kind
    &&& post.top().function_builder.upvalue_count == pre.top().function_builder.upvalue_count
    &&& post.top().function_builder.arity == if pre.top().function_builder.arity < 256 {
        pre.top().function_builder.arity + 1
    } else {
        256
    }
}

/// The compiler of a new function of kind `kind` was put on top of the
/// others. The function has the name that the token read last spells, no
/// code, no constants and no parameters yet; slot 0 of its locals is
/// reserved, under the name `this` in anything but a plain function.
pub open spec fn function_begun(pre: Parser, post: Parser, kind: FunctionType) -> bool {
    &&& same_input(pre, post)
    &&& same_errors(pre, post)
    &&& same_world(pre, post)
    &&& post.compilers@.len() == pre.compilers@.len() + 1
    &&& post.compilers@.drop_last() == pre.compilers@
    &&& post.top().scope_depth == 0
    &&& post.top().upvalues@.len() == 0
    &&& post.top().locals@.len() == 1
    &&& post.top().locals@[0].depth == 0
    &&& !post.top().locals@[0].is_captured
    &&& post.top().locals@[0].name@.lexeme == if kind != FunctionType::Function {
        "this"@
    } else {
        Seq::<char>::empty()
    }
    &&& post.top().function_builder.kind == kind
    &&& post.top().function_builder.arity == 0
    &&& post.top().function_builder.upvalue_count == 0
    &&& match post.top().function_builder.name {
        Some(name) => kind != FunctionType::Script && name@ == pre.previous@.lexeme,
        None => kind == FunctionType::Script,
    }
    &&& post.code().len() == 0
    &&& post.constants().len() == 0
    &&& post.lines().len() == 0
    &&& post.pending() == Set::<int>::empty()
}

/// The instructions that end a function: an initializer returns the
/// instance in slot 0, anything else `nil`.
pub open spec fn return_code(kind: FunctionType) -> Seq<u8> {
    if kind == FunctionType::Initializer {
        seq![opcode_byte(OpCode::GetLocal), 0u8, opcode_byte(OpCode::Return)]
    } else {
        seq![opcode_byte(OpCode::Nil), opcode_byte(OpCode::Return)]
    }
}

/// The function under construction was finished: the instructions that
/// end it were appended, its compiler has left, and the function stands
/// in the heap as `function`, behind the ones that were there.
pub open spec fn function_ended(pre: Parser, post: Parser, function: Function) -> bool {
    exists|done: Parser|
        #![trigger emitted(pre, done, return_code(pre.top().function_builder.kind))]
        {
            &&& emitted(pre, done, return_code(pre.top().function_builder.kind))
            &&& same_input(done, post)
            &&& same_errors(done, post)
            &&& post.class_compilers == done.class_compilers
            &&& post.symbol_table == done.symbol_table
            &&& post.compilers@ == done.compilers@.drop_last()
            &&& post.heap.same_objects(&done.heap)
            &&& function.index == done.heap.functions@.len()
            &&& post.heap.functions@ == done.heap.functions@.push(
                FunctionInner {
                    arity: done.top().function_builder.arity,
                    name: done.top().function_builder.name,
                    chunk: done.top().function_builder.builder.chunk,
                    kind: done.top().function_builder.kind,
                    upvalue_count: done.top().function_builder.upvalue_count,
                },
            )
        }
}

/// The operands that say what a closure captures: for each variable a
/// flag, 1 for a local of the enclosing function and 0 for a variable
/// that the enclosing function captures itself, and its index there.
pub open spec fn capture_code(upvalues: Seq<Upvalue>) -> Seq<u8>
    decreases upvalues.len(),
{
    if upvalues.len() == 0 {
        Seq::empty()
    } else {
        capture_code(upvalues.drop_last()) + seq![
            if upvalues.last().is_local {
                1u8
            } else {
                0u8
            },
            upvalues.last().index,
        ]
    }
}

/// The instruction that makes the closure of `function` was appended:
/// the opcode `Closure`, the constant that holds the function, and what
/// the closure captures.
pub open spec fn closure_made(
    pre: Parser,
    post: Parser,
    function: Function,
    upvalues: Seq<Upvalue>,
) -> bool {
    exists|index: u8, mid: Parser|
        #![trigger placed(pre, mid, Value::Function(function), index)]
        placed(pre, mid, Value::Function(function), index) && emitted(
            mid,
            post,
            seq![opcode_byte(OpCode::Closure), index] + capture_code(upvalues),
        )
}

/// The parser has entered a class: one without a superclass so far.
pub open spec fn class_entered(pre: Parser, post: Parser) -> bool {
    &&& post.class_compilers@ == pre.class_compilers@.push(ClassCompiler { has_superclass: false })
    &&& same_rest(pre, post)
}

/// The parser has left the innermost class.
pub open spec fn class_left(pre: Parser, post: Parser) -> bool {
    &&& post.class_compilers@ == pre.class_compilers@.drop_last()
    &&& same_rest(pre, post)
}

/// The innermost class was noted to have a superclass.
pub open spec fn superclass_noted(pre: Parser, post: Parser) -> bool {
    &&& post.class_compilers@ == pre.class_compilers@.drop_last().push(
        ClassCompiler { has_superclass: true },
    )
    &&& same_rest(pre, post)
}

/// Everything but the enclosing classes is the same.
pub open spec fn same_rest(pre: Parser, post: Parser) -> bool {
    &&& same_input(pre, post)
    &&& same_errors(pre, post)
    &&& post.heap == pre.heap
    &&& post.symbol_table == pre.symbol_table
    &&& post.compilers == pre.compilers
}

/// The parser has stopped panicking; nothing else has changed.
pub open spec fn calmed(pre: Parser, post: Parser) -> bool {
    &&& same_input(pre, post)
    &&& same_world(pre, post)
    &&& !post.panic_mode
    &&& post.had_error == pre.had_error
    &&& post.errors == pre.errors
    &&& post.symbol_table == pre.symbol_table
    &&& post.compilers == pre.compilers
}

} // verus!
