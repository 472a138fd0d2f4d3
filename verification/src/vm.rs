//! The virtual machine.
//!
//! The machine executes one instruction at a time. What it cannot do
//! itself it asks of its host: to write a line of output, to do arithmetic
//! on two numbers, to call a native function. It then pauses, and goes on
//! when the host calls it again.

use vstd::prelude::*;
use vstd::string::StringExecFns;

pub mod operators;
pub mod calls;
pub mod objects;
pub mod run;
pub mod laws;
use crate::chunk::{line_at, Chunk};

use crate::function::{ClosureRef, NativeFunction, ObjUpvalue};
use crate::heap::Heap;
use crate::intern_string::{Symbol, SymbolTable};
use crate::opcodes::{fixed_operands, opcode_byte, OpCode};
use crate::table::Table;
use crate::value::{Printed, Value};

verus! {

/// How an interpretation fails.
#[derive(PartialEq, Eq, Debug, Clone, Copy, Structural)]
pub enum InterpretResult {
    RuntimeError,
}

/// The record of a function activation.
#[derive(Clone, Copy, PartialEq, Eq, Debug, Structural)]
pub struct CallFrame {
    pub closure: ClosureRef,
    pub ip: usize,
    pub slots: usize,
}

impl CallFrame {
    pub fn new(closure: ClosureRef, ip: usize, slots: usize) -> (frame: CallFrame)
        ensures
            frame == (CallFrame { closure, ip, slots }),
    {
        CallFrame { closure, ip, slots }
    }

    pub fn get_closure(&self) -> (closure: ClosureRef)
        ensures
            closure == self.closure,
    {
        self.closure
    }

    pub fn get_ip(&self) -> (ip: usize)
        ensures
            ip == self.ip,
    {
        self.ip
    }

    pub fn set_ip(&mut self, position: usize)
        ensures
            *final(self) == (CallFrame { ip: position, ..*old(self) }),
    {
        self.ip = position;
    }

    pub fn inc_ip(&mut self, difference: usize)
        requires
            old(self).ip + difference <= usize::MAX,
        ensures
            *final(self) == (CallFrame { ip: (old(self).ip + difference) as usize, ..*old(self) }),
    {
        self.ip += difference;
    }

    pub fn dec_ip(&mut self, difference: usize)
        requires
            difference <= old(self).ip,
        ensures
            *final(self) == (CallFrame { ip: (old(self).ip - difference) as usize, ..*old(self) }),
    {
        self.ip -= difference;
    }

    pub fn get_slots(&self) -> (slots: usize)
        ensures
            slots == self.slots,
    {
        self.slots
    }
}

/// One line of a stack trace: the source line at which a function stood,
/// and the function's name (none for the script).
pub struct TraceLine {
    pub line: u32,
    pub function: Option<Symbol>,
}

/// What a run-time error leaves behind: its message and the stack trace,
/// innermost function first.
pub struct Report {
    pub message: String,
    pub trace: Vec<TraceLine>,
}

/// A line of the stack trace: `[line L] in NAME: MESSAGE`, with `script`
/// for the name of the script.
pub open spec fn trace_text(line: TraceLine, message: Seq<char>) -> Seq<char> {
    "[line "@ + crate::text::decimal(line.line as nat) + "] in "@ + match line.function {
        Some(name) => name@,
        None => "script"@,
    } + ": "@ + message
}

impl Report {
    /// The lines of the report, innermost function first.
    pub fn render(&self) -> (lines: Vec<String>)
        ensures
            lines@.len() == self.trace@.len(),
            forall|i: int|
                0 <= i < lines@.len() ==> (#[trigger] lines@[i])@ == trace_text(
                    self.trace@[i],
                    self.message@,
                ),
    {
        let mut lines: Vec<String> = Vec::new();
        let mut i: usize = 0;
        while i < self.trace.len()
            invariant
                i <= self.trace@.len(),
                lines@.len() == i,
                forall|k: int|
                    0 <= k < i ==> (#[trigger] lines@[k])@ == trace_text(
                        self.trace@[k],
                        self.message@,
                    ),
            decreases self.trace@.len() - i,
        {
            let mut text = "[line ".to_string();
            text.append(crate::text::decimal_string(self.trace[i].line as usize).as_str());
            text.append("] in ");
            match &self.trace[i].function {
                Some(name) => {
                    text.append(name.as_str());
                },
                None => {
                    text.append("script");
                },
            }
            text.append(": ");
            text.append(self.message.as_str());
            lines.push(text);
            i += 1;
        }
        lines
    }
}

/// What the machine asks of its host when it pauses.
pub enum Request {
    /// An instruction was executed; nothing is asked.
    Continue,
    /// The script has returned.
    Finished,
    /// A line of output is to be written.
    Print(Printed),
    /// The numbers are to be added, subtracted, multiplied or divided, as
    /// the opcode says, and the result handed to `resume`.
    Arithmetic(OpCode, u64, u64),
    /// The native function is to be called on the arguments, and the
    /// result handed to `resume`.
    Native(NativeFunction, Vec<Value>),
    /// A run-time error has ended the program; the report says which.
    Failed(InterpretResult),
    /// The code is not what a compiler writes: an operand is missing, a
    /// constant has the wrong kind, the stack is too short.
    Corrupt,
}

/// The number of the native function `clock`.
pub const CLOCK: usize = 0;

/// The virtual machine.
pub struct VM {
    pub frames: Vec<CallFrame>,
    pub stack: Vec<Value>,
    pub heap: Heap,
    pub symbol_table: SymbolTable,
    pub globals: Table<Value>,
    pub open_upvalues: Vec<ObjUpvalue>,
    pub init_symbol: Symbol,
    pub report: Option<Report>,
    pub awaiting: bool,
}

/// The instruction at a place in a chunk: the opcode and its operands
/// (zero where it has fewer than two), with the place of what follows.
pub struct Fetched {
    pub opcode: OpCode,
    pub first: u8,
    pub second: u8,
    pub next: int,
}

/// Decodes the instruction at `ip`, if an opcode with all its operands
/// stands there.
pub open spec fn decode(chunk: &Chunk, ip: int) -> Option<Fetched> {
    if 0 <= ip < chunk.code.len() && chunk.code[ip].is_opcode() {
        let opcode = choose|op: OpCode| opcode_byte(op) == chunk.code[ip].byte;
        let operands = fixed_operands(opcode);
        if ip + operands < chunk.code.len() {
            Some(
                Fetched {
                    opcode,
                    first: if operands >= 1 {
                        chunk.code[ip + 1].byte
                    } else {
                        0
                    },
                    second: if operands >= 2 {
                        chunk.code[ip + 2].byte
                    } else {
                        0
                    },
                    next: ip + 1 + operands,
                },
            )
        } else {
            None
        }
    } else {
        None
    }
}

impl VM {
    /// The tables of the machine are well formed.
    pub open spec fn wf(&self) -> bool {
        &&& self.heap.wf()
        &&& self.globals.wf()
    }

    /// The chunk that the innermost frame executes, if the frame, its
    /// closure and its function exist.
    pub open spec fn chunk(&self) -> Option<Chunk> {
        if self.frames.len() > 0 && self.frames@.last().closure.valid(&self.heap)
            && self.heap.closures[self.frames@.last().closure.index as int].function.valid(
            &self.heap,
        ) {
            Some(
                self.heap.functions[self.heap.closures[self.frames@.last().closure.index
                    as int].function.index as int].chunk,
            )
        } else {
            None
        }
    }

    /// The instruction that the machine executes next.
    pub open spec fn next_instruction(&self) -> Option<Fetched> {
        match self.chunk() {
            Some(chunk) => decode(&chunk, self.frames@.last().ip as int),
            None => None,
        }
    }

    /// Everything but the innermost frame's instruction pointer is as in
    /// `other`, and the pointer is at `ip`.
    pub open spec fn same_but_ip(&self, other: &VM, ip: int) -> bool {
        &&& self.frames.len() == other.frames.len()
        &&& self.frames.len() > 0
        &&& self.frames@ == other.frames@.update(
            other.frames.len() - 1,
            CallFrame { ip: ip as usize, ..other.frames@.last() },
        )
        &&& self.stack == other.stack
        &&& self.heap == other.heap
        &&& self.symbol_table == other.symbol_table
        &&& self.globals == other.globals
        &&& self.open_upvalues == other.open_upvalues
        &&& self.init_symbol == other.init_symbol
        &&& self.report == other.report
        &&& self.awaiting == other.awaiting
    }

    /// Everything but the stack is as in `other`.
    pub open spec fn same_but_stack(&self, other: &VM) -> bool {
        &&& self.frames == other.frames
        &&& self.heap == other.heap
        &&& self.symbol_table == other.symbol_table
        &&& self.globals == other.globals
        &&& self.open_upvalues == other.open_upvalues
        &&& self.init_symbol == other.init_symbol
        &&& self.report == other.report
        &&& self.awaiting == other.awaiting
    }

    /// The chunk of the innermost frame.
    pub fn current_chunk(&self) -> (chunk: Option<&Chunk>)
        ensures
            match chunk {
                Some(c) => self.chunk() == Some(*c),
                None => self.chunk().is_none(),
            },
    {
        let n = self.frames.len();
        if n == 0 {
            return None;
        }
        let closure = self.frames[n - 1].closure;
        if closure.index >= self.heap.closures.len() {
            return None;
        }
        let function = self.heap.closures[closure.index].function;
        if function.index >= self.heap.functions.len() {
            return None;
        }
        Some(&self.heap.functions[function.index].chunk)
    }

    /// Reads the next instruction and moves the instruction pointer past
    /// it. Where none can be read, nothing changes.
    pub fn fetch(&mut self) -> (fetched: Option<(OpCode, u8, u8)>)
        ensures
            match fetched {
                Some((opcode, first, second)) => {
                    &&& old(self).next_instruction() matches Some(f)
                    &&& f.opcode == opcode && f.first == first && f.second == second
                    &&& final(self).same_but_ip(old(self), f.next)
                    &&& f.next <= usize::MAX
                },
                None => old(self).next_instruction().is_none() && *final(self) == *old(self),
            },
    {
        let n = self.frames.len();
        let (opcode, first, second, next) = match self.current_chunk() {
            None => {
                return None;
            },
            Some(chunk) => {
                let ip = self.frames[n - 1].ip;
                if ip >= chunk.len() {
                    return None;
                }
                let opcode = match chunk.get_code_unit(ip).opcode() {
                    None => {
                        return None;
                    },
                    Some(opcode) => opcode,
                };
                proof {
                    let chosen = choose|op: OpCode| opcode_byte(op) == chunk.code[ip as int].byte;
                    crate::opcodes::opcode_byte_is_injective(chosen, opcode);
                }
                let operands: usize = match crate::opcodes::IndexesPerOpCode::new().get(opcode) {
                    0 => 0,
                    2 => 2,
                    _ => 1,
                };
                if operands >= chunk.len() - ip {
                    return None;
                }
                let first = if operands >= 1 {
                    chunk.get_code_unit(ip + 1).get_index()
                } else {
                    0
                };
                let second = if operands >= 2 {
                    chunk.get_code_unit(ip + 2).get_index()
                } else {
                    0
                };
                (opcode, first, second, ip + 1 + operands)
            },
        };
        self.frames[n - 1].ip = next;
        Some((opcode, first, second))
    }

    /// The trace line of a frame.
    fn trace_line(&self, frame: CallFrame) -> (line: TraceLine)
        ensures
            line == frame_trace(&self.heap, frame),
    {
        if frame.closure.index < self.heap.closures.len() {
            let function = self.heap.closures[frame.closure.index].function;
            if function.index < self.heap.functions.len() {
                let inner = &self.heap.functions[function.index];
                let line = if frame.ip >= 1 {
                    match inner.chunk.line_of(frame.ip - 1) {
                        Some(line) => line,
                        None => 0,
                    }
                } else {
                    0
                };
                let name = match &inner.name {
                    Some(name) => Some(name.clone()),
                    None => None,
                };
                return TraceLine { line, function: name };
            }
        }
        TraceLine { line: 0, function: None }
    }

    /// Ends the program with a run-time error: writes the report, and
    /// empties the value stack and the frame stack.
    pub fn runtime_error(&mut self, message: String) -> (request: Request)
        ensures
            request is Failed,
            failed(*old(self), *final(self), message@),
            old(self).wf() ==> final(self).wf(),
    {
        let mut trace: Vec<TraceLine> = Vec::new();
        let n = self.frames.len();
        let mut i: usize = 0;
        while i < n
            invariant
                *self == *old(self),
                n == self.frames.len(),
                i <= n,
                trace.len() == i,
                forall|k: int|
                    0 <= k < i ==> #[trigger] trace[k] == frame_trace(
                        &self.heap,
                        self.frames[n - 1 - k],
                    ),
            decreases n - i,
        {
            let frame = self.frames[n - 1 - i];
            let line = self.trace_line(frame);
            trace.push(line);
            i += 1;
        }
        self.report = Some(Report { message, trace });
        self.stack.clear();
        self.frames.clear();
        Request::Failed(InterpretResult::RuntimeError)
    }
}

/// The line of a stack trace that a frame gives: the source line of the
/// instruction before its instruction pointer, and its function's name.
pub open spec fn frame_trace(heap: &Heap, frame: CallFrame) -> TraceLine {
    if frame.closure.valid(heap) && heap.closures[frame.closure.index as int].function.valid(
        heap,
    ) {
        let inner = heap.functions[heap.closures[frame.closure.index as int].function.index as int];
        TraceLine {
            line: if frame.ip >= 1 {
                match line_at(inner.chunk.lines@, frame.ip - 1) {
                    Some(line) => line,
                    None => 0,
                }
            } else {
                0
            },
            function: inner.name,
        }
    } else {
        TraceLine { line: 0, function: None }
    }
}

/// A run-time error with `message` has ended the program that was in
/// state `pre`: the report holds the message and one trace line for each
/// frame, innermost first; both stacks are empty; nothing else changed.
pub open spec fn failed(pre: VM, post: VM, message: Seq<char>) -> bool {
    &&& post.stack@.len() == 0
    &&& post.frames@.len() == 0
    &&& post.heap == pre.heap
    &&& post.symbol_table == pre.symbol_table
    &&& post.globals == pre.globals
    &&& post.open_upvalues == pre.open_upvalues
    &&& post.init_symbol == pre.init_symbol
    &&& post.awaiting == pre.awaiting
    &&& post.report matches Some(report)
    &&& report.message@ == message
    &&& report.trace@.len() == pre.frames@.len()
    &&& forall|k: int|
        0 <= k < pre.frames@.len() ==> #[trigger] report.trace@[k] == frame_trace(
            &pre.heap,
            pre.frames@[pre.frames@.len() - 1 - k],
        )
}

} // verus!
