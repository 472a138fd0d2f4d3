//! The disassembler: chunks as text.

use vstd::prelude::*;
use crate::chunk::{address_of, line_at, Chunk};
use crate::function::Function;
use crate::heap::{shown, Heap, Shown};
use crate::opcodes::{opcode_byte, opcode_name, OpCode};
use crate::text::{decimal, decimal_chars, pad_left, padded};
use crate::tokens::{chars_of, string_from_chars};
use crate::value::{Printed, Value};

verus! {

/// The shape of an instruction in a disassembly.
#[derive(Copy, Clone, PartialEq, Eq, Debug, Structural)]
pub enum Shape {
    /// An opcode alone.
    Simple,
    /// An opcode with a slot or a count.
    Byte,
    /// An opcode with a constant.
    Constant,
    /// An opcode with a two-byte offset, forward or backward.
    Jump,
    /// An opcode with a constant and a count.
    Invoke,
    /// `Closure`: a constant and a pair of bytes for each captured
    /// variable.
    Closure,
}

/// The shape of each opcode.
pub open spec fn shape_of(opcode: OpCode) -> Shape {
    match opcode {
        OpCode::Constant
        | OpCode::DefineGlobal
        | OpCode::GetGlobal
        | OpCode::SetGlobal
        | OpCode::Class
        | OpCode::GetProperty
        | OpCode::SetProperty
        | OpCode::Method
        | OpCode::GetSuper => Shape::Constant,
        OpCode::GetLocal
        | OpCode::SetLocal
        | OpCode::GetUpvalue
        | OpCode::SetUpvalue
        | OpCode::Call => Shape::Byte,
        OpCode::Jump | OpCode::JumpIfFalse | OpCode::Loop => Shape::Jump,
        OpCode::Invoke | OpCode::SuperInvoke => Shape::Invoke,
        OpCode::Closure => Shape::Closure,
        _ => Shape::Simple,
    }
}

fn shape(opcode: OpCode) -> (shape: Shape)
    ensures
        shape == shape_of(opcode),
{
    match opcode {
        OpCode::Constant
        | OpCode::DefineGlobal
        | OpCode::GetGlobal
        | OpCode::SetGlobal
        | OpCode::Class
        | OpCode::GetProperty
        | OpCode::SetProperty
        | OpCode::Method
        | OpCode::GetSuper => Shape::Constant,
        OpCode::GetLocal
        | OpCode::SetLocal
        | OpCode::GetUpvalue
        | OpCode::SetUpvalue
        | OpCode::Call => Shape::Byte,
        OpCode::Jump | OpCode::JumpIfFalse | OpCode::Loop => Shape::Jump,
        OpCode::Invoke | OpCode::SuperInvoke => Shape::Invoke,
        OpCode::Closure => Shape::Closure,
        _ => Shape::Simple,
    }
}

/// The source line of a code unit, 0 where the chunk knows none.
pub open spec fn line_number(chunk: &Chunk, offset: int) -> u32 {
    match line_at(chunk.lines@, offset) {
        Some(line) => line,
        None => 0,
    }
}

/// A number, right-aligned in four columns.
pub open spec fn four(n: nat) -> Seq<char> {
    padded(decimal(n), 4, ' ')
}

/// What starts the line of the instruction at `offset`: the offset in
/// four digits, and the source line, or a bar where it is that of the
/// code unit before.
pub open spec fn line_start(chunk: &Chunk, offset: int) -> Seq<char> {
    padded(decimal(offset as nat), 4, '0') + " "@ + if offset > 0 && line_number(chunk, offset)
        == line_number(chunk, offset - 1) {
        "   | "@
    } else {
        four(line_number(chunk, offset) as nat) + " "@
    }
}

/// The line of a captured variable in the disassembly of `Closure`.
pub open spec fn capture_line(offset: int, is_local: u8, index: u8) -> Seq<char> {
    padded(decimal(offset as nat), 4, '0') + "    |                 "@ + if is_local != 0 {
        "local"@
    } else {
        "upvalue"@
    } + " "@ + decimal(index as nat) + "\n"@
}

/// The lines of the first `count` captured variables of the closure
/// instruction whose pairs start at `start`.
pub open spec fn capture_lines(chunk: &Chunk, start: int, count: int) -> Seq<Shown>
    decreases count,
{
    if count <= 0 {
        Seq::empty()
    } else {
        capture_lines(chunk, start, count - 1).push(
            Shown::Text(
                capture_line(
                    start + 2 * (count - 1),
                    chunk.code@[start + 2 * (count - 1)].byte,
                    chunk.code@[start + 2 * (count - 1) + 1].byte,
                ),
            ),
        )
    }
}

/// Where a jump at `offset` by `jump` leads.
pub open spec fn destination(opcode: OpCode, offset: int, jump: u16) -> nat {
    if opcode == OpCode::Loop {
        if offset + 3 >= jump {
            (offset + 3 - jump) as nat
        } else {
            0
        }
    } else {
        (offset + 3 + jump) as nat
    }
}

/// One instruction of a disassembly: its text in pieces, and where the
/// next instruction starts.
pub struct Listing {
    pub pieces: Seq<Shown>,
    pub next: int,
}

/// The disassembly of the instruction at `offset`, if one stands there
/// with all its operands and with the constant it refers to.
pub open spec fn listing(chunk: &Chunk, heap: &Heap, offset: int) -> Option<Listing> {
    if !(0 <= offset < chunk.code@.len() && chunk.code@[offset].is_opcode()) {
        None
    } else {
        let opcode = choose|op: OpCode| opcode_byte(op) == chunk.code@[offset].byte;
        let start = line_start(chunk, offset) + opcode_name(opcode);
        match shape_of(opcode) {
            Shape::Simple => Some(
                Listing { pieces: seq![Shown::Text(start + "\n"@)], next: offset + 1 },
            ),
            Shape::Byte => if offset + 1 < chunk.code@.len() {
                Some(
                    Listing {
                        pieces: seq![
                            Shown::Text(
                                start + " "@ + four(chunk.code@[offset + 1].byte as nat) + "\n"@,
                            ),
                        ],
                        next: offset + 2,
                    },
                )
            } else {
                None
            },
            Shape::Constant => if offset + 1 < chunk.code@.len() && chunk.code@[offset + 1].byte
                < chunk.constants@.len() {
                Some(
                    Listing {
                        pieces: seq![
                            Shown::Text(
                                start + " "@ + four(chunk.code@[offset + 1].byte as nat) + " '"@,
                            ),
                            shown(heap, chunk.constants@[chunk.code@[offset + 1].byte as int]),
                            Shown::Text("'\n"@),
                        ],
                        next: offset + 2,
                    },
                )
            } else {
                None
            },
            Shape::Jump => if offset + 2 < chunk.code@.len() && (opcode == OpCode::Loop || offset + 3
                + address_of(chunk.code@[offset + 1].byte, chunk.code@[offset + 2].byte)
                <= usize::MAX) {
                Some(
                    Listing {
                        pieces: seq![
                            Shown::Text(
                                start + " "@ + four(offset as nat) + " -> "@ + decimal(
                                    destination(
                                        opcode,
                                        offset,
                                        address_of(
                                            chunk.code@[offset + 1].byte,
                                            chunk.code@[offset + 2].byte,
                                        ),
                                    ),
                                ) + "\n"@,
                            ),
                        ],
                        next: offset + 3,
                    },
                )
            } else {
                None
            },
            Shape::Invoke => if offset + 2 < chunk.code@.len() && chunk.code@[offset + 1].byte
                < chunk.constants@.len() {
                Some(
                    Listing {
                        pieces: seq![
                            Shown::Text(
                                start + " ("@ + decimal(chunk.code@[offset + 2].byte as nat)
                                    + " args) "@ + four(chunk.code@[offset + 1].byte as nat)
                                    + " '"@,
                            ),
                            shown(heap, chunk.constants@[chunk.code@[offset + 1].byte as int]),
                            Shown::Text("'\n"@),
                        ],
                        next: offset + 3,
                    },
                )
            } else {
                None
            },
            Shape::Closure => if offset + 1 < chunk.code@.len() && chunk.code@[offset + 1].byte
                < chunk.constants@.len() {
                match chunk.constants@[chunk.code@[offset + 1].byte as int] {
                    Value::Function(function) => if function.valid(heap) && offset + 2 + 2
                        * function.inner(heap).upvalue_count <= chunk.code@.len() {
                        Some(
                            Listing {
                                pieces: seq![
                                    Shown::Text(
                                        start + "  "@ + four(chunk.code@[offset + 1].byte as nat)
                                            + " '"@,
                                    ),
                                    shown(heap, Value::Function(function)),
                                    Shown::Text("'\n"@),
                                ] + capture_lines(
                                    chunk,
                                    offset + 2,
                                    function.inner(heap).upvalue_count as int,
                                ),
                                next: offset + 2 + 2 * function.inner(heap).upvalue_count,
                            },
                        )
                    } else {
                        None
                    },
                    _ => None,
                }
            } else {
                None
            },
        }
    }
}

/// The disassembly of the instructions from `offset` on, up to the end of
/// the code or to the first place at which no instruction stands. `fuel`
/// bounds the number of instructions.
pub open spec fn listings(chunk: &Chunk, heap: &Heap, offset: int, fuel: nat) -> Seq<Shown>
    decreases fuel,
{
    if fuel == 0 {
        Seq::empty()
    } else {
        match listing(chunk, heap, offset) {
            Some(one) => one.pieces + listings(chunk, heap, one.next, (fuel - 1) as nat),
            None => Seq::empty(),
        }
    }
}

/// The header of a disassembly.
pub open spec fn header(name: Seq<char>) -> Seq<char> {
    "== "@ + name + " ==\n"@
}

/// What the pieces say.
pub open spec fn said(pieces: Seq<Printed>) -> Seq<Shown> {
    pieces.map_values(|piece: Printed| piece@)
}

/// Appends the characters of `text`.
fn put(out: &mut Vec<char>, text: &str)
    ensures
        final(out)@ == old(out)@ + text@,
{
    let chars = chars_of(text);
    put_chars(out, &chars);
}

/// Appends `chars`.
fn put_chars(out: &mut Vec<char>, chars: &Vec<char>)
    ensures
        final(out)@ == old(out)@ + chars@,
{
    let mut i: usize = 0;
    while i < chars.len()
        invariant
            i <= chars@.len(),
            out@ == old(out)@ + chars@.take(i as int),
        decreases chars@.len() - i,
    {
        out.push(chars[i]);
        i += 1;
        assert(out@ =~= old(out)@ + chars@.take(i as int));
    }
    assert(chars@.take(chars@.len() as int) == chars@);
}

/// Appends `n` in `width` columns, filled up with `fill`.
fn put_number(out: &mut Vec<char>, n: usize, width: usize, fill: char)
    ensures
        final(out)@ == old(out)@ + padded(decimal(n as nat), width as nat, fill),
{
    let digits = decimal_chars(n);
    let text = pad_left(&digits, width, fill);
    put_chars(out, &text);
}

/// Appends a piece.
fn add_piece(pieces: &mut Vec<Printed>, piece: Printed)
    ensures
        said(final(pieces)@) == said(old(pieces)@).push(piece@),
{
    pieces.push(piece);
    assert(said(pieces@) =~= said(old(pieces)@).push(piece@));
}

fn text_piece(chars: &Vec<char>) -> (piece: Printed)
    ensures
        piece@ == Shown::Text(chars@),
{
    Printed::Text(string_from_chars(chars))
}

impl Chunk {
    /// The source line of a code unit, 0 where the chunk knows none.
    fn line_or_zero(&self, offset: usize) -> (line: u32)
        ensures
            line == line_number(self, offset as int),
    {
        match self.line_of(offset) {
            Some(line) => line,
            None => 0,
        }
    }

    /// What starts the line of the instruction at `offset`.
    fn start_line(&self, offset: usize, opcode: OpCode) -> (out: Vec<char>)
        ensures
            out@ == line_start(self, offset as int) + opcode_name(opcode),
    {
        let mut out: Vec<char> = Vec::new();
        put_number(&mut out, offset, 4, '0');
        put(&mut out, " ");
        if offset > 0 && self.line_or_zero(offset) == self.line_or_zero(offset - 1) {
            put(&mut out, "   | ");
        } else {
            put_number(&mut out, self.line_or_zero(offset) as usize, 4, ' ');
            put(&mut out, " ");
        }
        put(&mut out, opcode.name());
        assert(out@ =~= line_start(self, offset as int) + opcode_name(opcode));
        out
    }

    /// Disassembles the instruction at `offset`: answers its text in
    /// pieces and the offset of the next instruction, or nothing where no
    /// whole instruction stands at `offset`.
    pub fn disassemble_instruction(&self, offset: usize, heap: &Heap) -> (result: Option<
        (Vec<Printed>, usize),
    >)
        ensures
            match result {
                Some((pieces, next)) => listing(self, heap, offset as int) == Some(
                    Listing { pieces: said(pieces@), next: next as int },
                ),
                None => listing(self, heap, offset as int).is_none(),
            },
    {
        let n = self.code.len();
        if offset >= n {
            return None;
        }
        let opcode = match self.code[offset].opcode() {
            Some(opcode) => opcode,
            None => {
                return None;
            },
        };
        proof {
            let chosen = choose|op: OpCode| opcode_byte(op) == self.code@[offset as int].byte;
            crate::opcodes::opcode_byte_is_injective(chosen, opcode);
        }
        let mut out = self.start_line(offset, opcode);
        let mut pieces: Vec<Printed> = Vec::new();
        match shape(opcode) {
            Shape::Simple => {
                put(&mut out, "\n");
                add_piece(&mut pieces, text_piece(&out));
                assert(said(pieces@) =~= listing(self, heap, offset as int)->0.pieces);
                Some((pieces, offset + 1))
            },
            Shape::Byte => {
                if n - offset < 2 {
                    return None;
                }
                put(&mut out, " ");
                put_number(&mut out, self.code[offset + 1].byte as usize, 4, ' ');
                put(&mut out, "\n");
                add_piece(&mut pieces, text_piece(&out));
                assert(said(pieces@) =~= listing(self, heap, offset as int)->0.pieces);
                Some((pieces, offset + 2))
            },
            Shape::Constant => {
                if n - offset < 2 {
                    return None;
                }
                let index = self.code[offset + 1].byte;
                if index as usize >= self.constants.len() {
                    return None;
                }
                put(&mut out, " ");
                put_number(&mut out, index as usize, 4, ' ');
                put(&mut out, " '");
                add_piece(&mut pieces, text_piece(&out));
                add_piece(&mut pieces, heap.display(&self.constants[index as usize]));
                add_piece(&mut pieces, Printed::Text("'\n".to_string()));
                assert(said(pieces@) =~= listing(self, heap, offset as int)->0.pieces);
                Some((pieces, offset + 2))
            },
            Shape::Jump => {
                if n - offset < 3 {
                    return None;
                }
                let high = self.code[offset + 1].byte as u16;
                let low = self.code[offset + 2].byte as u16;
                let jump = (high * 256 + low) as usize;
                let target = match opcode {
                    OpCode::Loop => {
                        if offset + 3 >= jump {
                            offset + 3 - jump
                        } else {
                            0
                        }
                    },
                    _ => {
                        if jump <= usize::MAX - offset - 3 {
                            offset + 3 + jump
                        } else {
                            return None;
                        }
                    },
                };
                put(&mut out, " ");
                put_number(&mut out, offset, 4, ' ');
                put(&mut out, " -> ");
                put_number(&mut out, target, 0, ' ');
                put(&mut out, "\n");
                add_piece(&mut pieces, text_piece(&out));
                assert(said(pieces@) =~= listing(self, heap, offset as int)->0.pieces);
                Some((pieces, offset + 3))
            },
            Shape::Invoke => {
                if n - offset < 3 {
                    return None;
                }
                let index = self.code[offset + 1].byte;
                let count = self.code[offset + 2].byte;
                if index as usize >= self.constants.len() {
                    return None;
                }
                put(&mut out, " (");
                put_number(&mut out, count as usize, 0, ' ');
                put(&mut out, " args) ");
                put_number(&mut out, index as usize, 4, ' ');
                put(&mut out, " '");
                add_piece(&mut pieces, text_piece(&out));
                add_piece(&mut pieces, heap.display(&self.constants[index as usize]));
                add_piece(&mut pieces, Printed::Text("'\n".to_string()));
                assert(said(pieces@) =~= listing(self, heap, offset as int)->0.pieces);
                Some((pieces, offset + 3))
            },
            Shape::Closure => {
                if n - offset < 2 {
                    return None;
                }
                let index = self.code[offset + 1].byte;
                if index as usize >= self.constants.len() {
                    return None;
                }
                let function = match &self.constants[index as usize] {
                    Value::Function(function) => *function,
                    _ => {
                        return None;
                    },
                };
                if function.index >= heap.functions.len() {
                    return None;
                }
                let count = heap.functions[function.index].upvalue_count;
                if count > (n - offset - 2) / 2 {
                    return None;
                }
                put(&mut out, "  ");
                put_number(&mut out, index as usize, 4, ' ');
                put(&mut out, " '");
                add_piece(&mut pieces, text_piece(&out));
                add_piece(&mut pieces, heap.display(&self.constants[index as usize]));
                add_piece(&mut pieces, Printed::Text("'\n".to_string()));
                let ghost head = said(pieces@);
                let start = offset + 2;
                let mut k: usize = 0;
                while k < count
                    invariant
                        k <= count,
                        start == offset + 2,
                        n == self.code@.len(),
                        start + 2 * count <= n,
                        said(pieces@) == head + capture_lines(self, start as int, k as int),
                    decreases count - k,
                {
                    let at = start + 2 * k;
                    let is_local = self.code[at].byte;
                    let slot = self.code[at + 1].byte;
                    let mut line: Vec<char> = Vec::new();
                    put_number(&mut line, at, 4, '0');
                    put(&mut line, "    |                 ");
                    if is_local != 0 {
                        put(&mut line, "local");
                    } else {
                        put(&mut line, "upvalue");
                    }
                    put(&mut line, " ");
                    put_number(&mut line, slot as usize, 0, ' ');
                    put(&mut line, "\n");
                    assert(line@ =~= capture_line(at as int, is_local, slot));
                    add_piece(&mut pieces, text_piece(&line));
                    k += 1;
                    assert(said(pieces@) =~= head + capture_lines(self, start as int, k as int));
                }
                assert(said(pieces@) =~= listing(self, heap, offset as int)->0.pieces);
                Some((pieces, start + 2 * count))
            },
        }
    }

    /// Disassembles the chunk under the heading `name`: the header, then
    /// the instructions in their order, up to the end of the code or to
    /// the first place at which no whole instruction stands.
    pub fn disassemble(&self, name: &str, heap: &Heap) -> (pieces: Vec<Printed>)
        ensures
            said(pieces@) == seq![Shown::Text(header(name@))] + listings(
                self,
                heap,
                0,
                self.code@.len() as nat,
            ),
    {
        let mut head: Vec<char> = Vec::new();
        put(&mut head, "== ");
        put(&mut head, name);
        put(&mut head, " ==\n");
        let mut pieces: Vec<Printed> = Vec::new();
        add_piece(&mut pieces, text_piece(&head));
        let n = self.code.len();
        let mut offset: usize = 0;
        let mut fuel: usize = n;
        let ghost first = said(pieces@);
        assert(first =~= seq![Shown::Text(header(name@))]);
        while fuel > 0
            invariant
                n == self.code@.len(),
                fuel <= n,
                first + listings(self, heap, 0, n as nat) == said(pieces@) + listings(
                    self,
                    heap,
                    offset as int,
                    fuel as nat,
                ),
            ensures
                first + listings(self, heap, 0, n as nat) == said(pieces@),
            decreases fuel,
        {
            match self.disassemble_instruction(offset, heap) {
                Some((mut more, next)) => {
                    let ghost before = said(pieces@);
                    let ghost added = said(more@);
                    pieces.append(&mut more);
                    assert(said(pieces@) =~= before + added);
                    assert(before + (added + listings(self, heap, next as int, (fuel - 1) as nat))
                        =~= before + added + listings(self, heap, next as int, (fuel - 1) as nat));
                    offset = next;
                    fuel -= 1;
                },
                None => {
                    assert(said(pieces@) + Seq::<Shown>::empty() =~= said(pieces@));
                    break ;
                },
            }
        }
        proof {
            assert(said(pieces@) + Seq::<Shown>::empty() =~= said(pieces@));
        }
        pieces
    }
}

} // verus!
