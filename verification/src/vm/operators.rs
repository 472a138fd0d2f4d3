//! Constants, variables, operators and jumps.

use vstd::prelude::*;
use vstd::string::StringExecFns;

use crate::heap::shown;
use crate::intern_string::Symbol;
use crate::opcodes::OpCode;
use crate::value::{double_less, double_negate, falsy, number_less, number_negated, values_equal, Value};
use crate::vm::{failed, Request, VM};

verus! {

/// The message for a global variable that is not defined.
pub open spec fn undefined_variable(name: Seq<char>) -> Seq<char> {
    "Undefined variable '"@ + name + "'."@
}

pub open spec fn operands_must_be_numbers() -> Seq<char> {
    "Operands must be numbers."@
}

pub open spec fn operand_must_be_a_number() -> Seq<char> {
    "Operand must be a number."@
}

pub open spec fn operands_must_add() -> Seq<char> {
    "Operands must be two numbers or two strings."@
}

/// One more value is on the stack.
pub open spec fn pushed(pre: VM, post: VM, value: Value) -> bool {
    &&& post.stack@ == pre.stack@.push(value)
    &&& post.same_but_stack(&pre)
}

/// The topmost `count` values have left the stack.
pub open spec fn popped(pre: VM, post: VM, count: int) -> bool {
    &&& count <= pre.stack@.len()
    &&& post.stack@ == pre.stack@.take(pre.stack@.len() - count)
    &&& post.same_but_stack(&pre)
}

/// The topmost `count` values have made way for `value`.
pub open spec fn replaced(pre: VM, post: VM, count: int, value: Value) -> bool {
    &&& count <= pre.stack@.len()
    &&& post.stack@ == pre.stack@.take(pre.stack@.len() - count).push(value)
    &&& post.same_but_stack(&pre)
}

/// The global `name` holds `value`; the stack is `stack`.
pub open spec fn global_set(
    pre: VM,
    post: VM,
    name: Seq<char>,
    value: Value,
    stack: Seq<Value>,
) -> bool {
    &&& post.stack@ == stack
    &&& post.globals.wf()
    &&& forall|k: Seq<char>|
        #[trigger] post.globals.lookup(k) == if k == name {
            Some(value)
        } else {
            pre.globals.lookup(k)
        }
    &&& post.frames == pre.frames
    &&& post.heap == pre.heap
    &&& post.symbol_table == pre.symbol_table
    &&& post.open_upvalues == pre.open_upvalues
    &&& post.init_symbol == pre.init_symbol
    &&& post.report == pre.report
    &&& post.awaiting == pre.awaiting
}

/// `Constant`: the constant is pushed.
pub open spec fn constant_effect(pre: VM, post: VM, index: u8, request: Request) -> bool {
    match pre.constant(index) {
        Some(value) => request is Continue && pushed(pre, post, value),
        None => request is Corrupt,
    }
}

/// `GetLocal`: the local in `slot` of the innermost frame is pushed.
pub open spec fn get_local_effect(pre: VM, post: VM, slot: u8, request: Request) -> bool {
    if pre.local_place(slot) < pre.stack@.len() {
        request is Continue && pushed(pre, post, pre.stack@[pre.local_place(slot)])
    } else {
        request is Corrupt
    }
}

/// `SetLocal`: the local in `slot` takes the value on top of the stack.
pub open spec fn set_local_effect(pre: VM, post: VM, slot: u8, request: Request) -> bool {
    if pre.local_place(slot) < pre.stack@.len() {
        &&& request is Continue
        &&& post.stack@ == pre.stack@.update(pre.local_place(slot), pre.stack@.last())
        &&& post.same_but_stack(&pre)
    } else {
        request is Corrupt
    }
}

/// `GetGlobal`: the value of the global is pushed; an undefined one is a
/// run-time error.
pub open spec fn get_global_effect(pre: VM, post: VM, index: u8, request: Request) -> bool {
    match pre.name_constant(index) {
        Some(name) => match pre.globals.lookup(name@) {
            Some(value) => request is Continue && pushed(pre, post, value),
            None => request is Failed && failed(pre, post, undefined_variable(name@)),
        },
        None => request is Corrupt,
    }
}

/// `DefineGlobal`: the global takes the value on top of the stack, which
/// leaves the stack.
pub open spec fn define_global_effect(pre: VM, post: VM, index: u8, request: Request) -> bool {
    match pre.name_constant(index) {
        Some(name) => if pre.stack@.len() > 0 {
            request is Continue && global_set(
                pre,
                post,
                name@,
                pre.stack@.last(),
                pre.stack@.drop_last(),
            )
        } else {
            request is Corrupt
        },
        None => request is Corrupt,
    }
}

/// `SetGlobal`: a defined global takes the value on top of the stack,
/// which stays there; an undefined one is a run-time error.
pub open spec fn set_global_effect(pre: VM, post: VM, index: u8, request: Request) -> bool {
    match pre.name_constant(index) {
        Some(name) => if pre.stack@.len() == 0 {
            request is Corrupt
        } else if pre.globals.lookup(name@).is_some() {
            request is Continue && global_set(pre, post, name@, pre.stack@.last(), pre.stack@)
        } else {
            request is Failed && failed(pre, post, undefined_variable(name@))
        },
        None => request is Corrupt,
    }
}

/// `Equal`: the two topmost values make way for whether they are equal.
pub open spec fn equal_effect(pre: VM, post: VM, request: Request) -> bool {
    let n = pre.stack@.len() as int;
    if n >= 2 {
        request is Continue && replaced(
            pre,
            post,
            2,
            Value::Bool(values_equal(pre.stack@[n - 2], pre.stack@[n - 1])),
        )
    } else {
        request is Corrupt
    }
}

/// `Less` and `Greater`: two numbers make way for how they compare;
/// anything else is a run-time error.
pub open spec fn compare_effect(pre: VM, post: VM, greater: bool, request: Request) -> bool {
    let n = pre.stack@.len() as int;
    if n >= 2 {
        match (pre.stack@[n - 2], pre.stack@[n - 1]) {
            (Value::Double(a), Value::Double(b)) => request is Continue && replaced(
                pre,
                post,
                2,
                Value::Bool(
                    if greater {
                        number_less(b, a)
                    } else {
                        number_less(a, b)
                    },
                ),
            ),
            _ => request is Failed && failed(pre, post, operands_must_be_numbers()),
        }
    } else {
        request is Corrupt
    }
}

/// The two topmost values have left the stack, and the machine waits for
/// the host's answer.
pub open spec fn asked(pre: VM, post: VM) -> bool {
    &&& post.stack@ == pre.stack@.take(pre.stack@.len() - 2)
    &&& post.awaiting
    &&& post.frames == pre.frames
    &&& post.heap == pre.heap
    &&& post.symbol_table == pre.symbol_table
    &&& post.globals == pre.globals
    &&& post.open_upvalues == pre.open_upvalues
    &&& post.init_symbol == pre.init_symbol
    &&& post.report == pre.report
}

/// `Subtract`, `Multiply`, `Divide`: two numbers leave the stack and the
/// host is asked for the result; anything else is a run-time error.
pub open spec fn arithmetic_effect(pre: VM, post: VM, opcode: OpCode, request: Request) -> bool {
    let n = pre.stack@.len() as int;
    if n >= 2 {
        match (pre.stack@[n - 2], pre.stack@[n - 1]) {
            (Value::Double(a), Value::Double(b)) => request == Request::Arithmetic(opcode, a, b)
                && asked(pre, post),
            _ => request is Failed && failed(pre, post, operands_must_be_numbers()),
        }
    } else {
        request is Corrupt
    }
}

/// `Add`: for two numbers the host is asked for the sum; two strings make
/// way for the string that joins them; anything else is a run-time error.
pub open spec fn add_effect(pre: VM, post: VM, request: Request) -> bool {
    let n = pre.stack@.len() as int;
    if n >= 2 {
        match (pre.stack@[n - 2], pre.stack@[n - 1]) {
            (Value::Double(a), Value::Double(b)) => request == Request::Arithmetic(
                OpCode::Add,
                a,
                b,
            ) && asked(pre, post),
            (Value::String(a), Value::String(b)) => {
                &&& request is Continue
                &&& post.stack@.len() == n - 1
                &&& post.stack@.take(n - 2) == pre.stack@.take(n - 2)
                &&& post.stack@.last() matches Value::String(joined)
                &&& joined@ == a@ + b@
                &&& post.frames == pre.frames
                &&& post.heap == pre.heap
                &&& post.globals == pre.globals
                &&& post.open_upvalues == pre.open_upvalues
                &&& post.init_symbol == pre.init_symbol
                &&& post.report == pre.report
                &&& post.awaiting == pre.awaiting
            },
            _ => request is Failed && failed(pre, post, operands_must_add()),
        }
    } else {
        request is Corrupt
    }
}

/// `Not`: the topmost value makes way for whether it is falsy.
pub open spec fn not_effect(pre: VM, post: VM, request: Request) -> bool {
    if pre.stack@.len() > 0 {
        request is Continue && replaced(pre, post, 1, Value::Bool(falsy(pre.stack@.last())))
    } else {
        request is Corrupt
    }
}

/// `Negate`: a number makes way for the number of the opposite sign;
/// anything else is a run-time error.
pub open spec fn negate_effect(pre: VM, post: VM, request: Request) -> bool {
    if pre.stack@.len() > 0 {
        match pre.stack@.last() {
            Value::Double(a) => request is Continue && replaced(
                pre,
                post,
                1,
                Value::Double(number_negated(a)),
            ),
            _ => request is Failed && failed(pre, post, operand_must_be_a_number()),
        }
    } else {
        request is Corrupt
    }
}

/// `Print`: the topmost value leaves the stack and the host is asked to
/// write it.
pub open spec fn print_effect(pre: VM, post: VM, request: Request) -> bool {
    if pre.stack@.len() > 0 {
        &&& request matches Request::Print(printed)
        &&& printed@ == shown(&pre.heap, pre.stack@.last())
        &&& popped(pre, post, 1)
    } else {
        request is Corrupt
    }
}

/// `Pop`: the topmost value leaves the stack.
pub open spec fn pop_effect(pre: VM, post: VM, request: Request) -> bool {
    if pre.stack@.len() > 0 {
        request is Continue && popped(pre, post, 1)
    } else {
        request is Corrupt
    }
}

/// `Jump` and `JumpIfFalse`: the instruction pointer moves forward by the
/// offset; with `conditional`, only where the value on top of the stack
/// is falsy.
pub open spec fn jump_effect(
    pre: VM,
    post: VM,
    offset: u16,
    conditional: bool,
    request: Request,
) -> bool {
    if pre.frames@.len() == 0 || (conditional && pre.stack@.len() == 0) {
        request is Corrupt
    } else if conditional && !falsy(pre.stack@.last()) {
        request is Continue && post == pre
    } else if pre.frames@.last().ip + offset <= usize::MAX {
        request is Continue && post.same_but_ip(&pre, pre.frames@.last().ip + offset)
    } else {
        request is Corrupt
    }
}

/// `Loop`: the instruction pointer moves back by the offset.
pub open spec fn loop_effect(pre: VM, post: VM, offset: u16, request: Request) -> bool {
    if pre.frames@.len() > 0 && offset <= pre.frames@.last().ip {
        request is Continue && post.same_but_ip(&pre, pre.frames@.last().ip - offset)
    } else {
        request is Corrupt
    }
}

impl VM {
    /// The constant at `index` in the chunk of the innermost frame.
    pub open spec fn constant(&self, index: u8) -> Option<Value> {
        match self.chunk() {
            Some(chunk) => if index < chunk.constants.len() {
                Some(chunk.constants[index as int])
            } else {
                None
            },
            None => None,
        }
    }

    /// The constant at `index`, if it is a string.
    pub open spec fn name_constant(&self, index: u8) -> Option<Symbol> {
        match self.constant(index) {
            Some(Value::String(name)) => Some(name),
            _ => None,
        }
    }

    /// The place in the stack of the local in `slot` of the innermost
    /// frame.
    pub open spec fn local_place(&self, slot: u8) -> int {
        if self.frames@.len() > 0 {
            self.frames@.last().slots + slot
        } else {
            self.stack@.len() as int
        }
    }

    pub fn read_constant(&self, index: u8) -> (value: Option<Value>)
        ensures
            value == self.constant(index),
    {
        match self.current_chunk() {
            Some(chunk) => match chunk.constant_at(index) {
                Some(value) => Some(value.clone()),
                None => None,
            },
            None => None,
        }
    }

    pub fn read_string(&self, index: u8) -> (name: Option<Symbol>)
        ensures
            name == self.name_constant(index),
    {
        match self.read_constant(index) {
            Some(Value::String(name)) => Some(name),
            _ => None,
        }
    }

    pub fn push(&mut self, value: Value)
        ensures
            pushed(*old(self), *final(self), value),
    {
        self.stack.push(value);
    }

    /// Takes `count` values off the stack.
    pub fn drop_values(&mut self, count: usize)
        requires
            count <= old(self).stack.len(),
        ensures
            popped(*old(self), *final(self), count as int),
    {
        let n = self.stack.len();
        self.stack.truncate(n - count);
    }

    /// Puts `value` in the place of the `count` topmost values.
    pub fn replace_values(&mut self, count: usize, value: Value)
        requires
            count <= old(self).stack.len(),
        ensures
            replaced(*old(self), *final(self), count as int, value),
    {
        let n = self.stack.len();
        self.stack.truncate(n - count);
        self.stack.push(value);
    }

    pub fn op_constant(&mut self, index: u8) -> (request: Request)
        ensures
            constant_effect(*old(self), *final(self), index, request),
            old(self).wf() ==> final(self).wf(),
    {
        match self.read_constant(index) {
            Some(value) => {
                self.push(value);
                Request::Continue
            },
            None => Request::Corrupt,
        }
    }

    pub fn op_get_local(&mut self, slot: u8) -> (request: Request)
        ensures
            get_local_effect(*old(self), *final(self), slot, request),
            old(self).wf() ==> final(self).wf(),
    {
        let n = self.frames.len();
        if n == 0 {
            return Request::Corrupt;
        }
        let base = self.frames[n - 1].slots;
        if base >= self.stack.len() || slot as usize >= self.stack.len() - base {
            return Request::Corrupt;
        }
        let value = self.stack[base + slot as usize].clone();
        self.push(value);
        Request::Continue
    }

    pub fn op_set_local(&mut self, slot: u8) -> (request: Request)
        ensures
            set_local_effect(*old(self), *final(self), slot, request),
            old(self).wf() ==> final(self).wf(),
    {
        let n = self.frames.len();
        if n == 0 {
            return Request::Corrupt;
        }
        let base = self.frames[n - 1].slots;
        if base >= self.stack.len() || slot as usize >= self.stack.len() - base {
            return Request::Corrupt;
        }
        let value = self.stack[self.stack.len() - 1].clone();
        self.stack[base + slot as usize] = value;
        Request::Continue
    }

    pub fn op_get_global(&mut self, index: u8) -> (request: Request)
        requires
            old(self).wf(),
        ensures
            final(self).wf(),
            get_global_effect(*old(self), *final(self), index, request),
    {
        let name = match self.read_string(index) {
            Some(name) => name,
            None => {
                return Request::Corrupt;
            },
        };
        let found = match self.globals.get(&name) {
            Some(value) => Some(value.clone()),
            None => None,
        };
        match found {
            Some(value) => {
                self.push(value);
                Request::Continue
            },
            None => {
                let mut message = "Undefined variable '".to_string();
                message.append(name.as_str());
                message.append("'.");
                self.runtime_error(message)
            },
        }
    }

    pub fn op_define_global(&mut self, index: u8) -> (request: Request)
        requires
            old(self).wf(),
        ensures
            final(self).wf(),
            define_global_effect(*old(self), *final(self), index, request),
    {
        let name = match self.read_string(index) {
            Some(name) => name,
            None => {
                return Request::Corrupt;
            },
        };
        match self.stack.pop() {
            Some(value) => {
                self.globals.insert(name, value);
                Request::Continue
            },
            None => Request::Corrupt,
        }
    }

    pub fn op_set_global(&mut self, index: u8) -> (request: Request)
        requires
            old(self).wf(),
        ensures
            final(self).wf(),
            set_global_effect(*old(self), *final(self), index, request),
    {
        let name = match self.read_string(index) {
            Some(name) => name,
            None => {
                return Request::Corrupt;
            },
        };
        if self.stack.len() == 0 {
            return Request::Corrupt;
        }
        if self.globals.find(&name).is_some() {
            let value = self.stack[self.stack.len() - 1].clone();
            self.globals.insert(name, value);
            Request::Continue
        } else {
            let mut message = "Undefined variable '".to_string();
            message.append(name.as_str());
            message.append("'.");
            self.runtime_error(message)
        }
    }

    pub fn op_equal(&mut self) -> (request: Request)
        ensures
            equal_effect(*old(self), *final(self), request),
            old(self).wf() ==> final(self).wf(),
    {
        let n = self.stack.len();
        if n < 2 {
            return Request::Corrupt;
        }
        let equal = self.stack[n - 2].equals(&self.stack[n - 1]);
        self.replace_values(2, Value::Bool(equal));
        Request::Continue
    }

    /// `Less` (`greater` false) and `Greater` (`greater` true).
    pub fn op_compare(&mut self, greater: bool) -> (request: Request)
        ensures
            compare_effect(*old(self), *final(self), greater, request),
            old(self).wf() ==> final(self).wf(),
    {
        let n = self.stack.len();
        if n < 2 {
            return Request::Corrupt;
        }
        let numbers = match (&self.stack[n - 2], &self.stack[n - 1]) {
            (Value::Double(a), Value::Double(b)) => Some((*a, *b)),
            _ => None,
        };
        match numbers {
            Some((a, b)) => {
                let result = if greater {
                    double_less(b, a)
                } else {
                    double_less(a, b)
                };
                self.replace_values(2, Value::Bool(result));
                Request::Continue
            },
            None => self.runtime_error("Operands must be numbers.".to_string()),
        }
    }

    /// `Subtract`, `Multiply` and `Divide`.
    pub fn op_arithmetic(&mut self, opcode: OpCode) -> (request: Request)
        ensures
            arithmetic_effect(*old(self), *final(self), opcode, request),
            old(self).wf() ==> final(self).wf(),
    {
        let n = self.stack.len();
        if n < 2 {
            return Request::Corrupt;
        }
        let numbers = match (&self.stack[n - 2], &self.stack[n - 1]) {
            (Value::Double(a), Value::Double(b)) => Some((*a, *b)),
            _ => None,
        };
        match numbers {
            Some((a, b)) => {
                self.stack.truncate(n - 2);
                self.awaiting = true;
                Request::Arithmetic(opcode, a, b)
            },
            None => self.runtime_error("Operands must be numbers.".to_string()),
        }
    }

    pub fn op_add(&mut self) -> (request: Request)
        ensures
            add_effect(*old(self), *final(self), request),
            old(self).wf() ==> final(self).wf(),
    {
        let n = self.stack.len();
        if n < 2 {
            return Request::Corrupt;
        }
        let numbers = match (&self.stack[n - 2], &self.stack[n - 1]) {
            (Value::Double(a), Value::Double(b)) => Some((*a, *b)),
            _ => None,
        };
        if let Some((a, b)) = numbers {
            self.stack.truncate(n - 2);
            self.awaiting = true;
            return Request::Arithmetic(OpCode::Add, a, b);
        }
        let joined = match (&self.stack[n - 2], &self.stack[n - 1]) {
            (Value::String(a), Value::String(b)) => {
                let mut text = a.as_str().to_string();
                text.append(b.as_str());
                Some(text)
            },
            _ => None,
        };
        match joined {
            Some(text) => {
                let symbol = self.symbol_table.intern(text);
                self.stack.truncate(n - 2);
                self.stack.push(Value::String(symbol));
                assert(self.stack@.take(n - 2) == old(self).stack@.take(n - 2));
                Request::Continue
            },
            None => self.runtime_error("Operands must be two numbers or two strings.".to_string()),
        }
    }

    pub fn op_not(&mut self) -> (request: Request)
        ensures
            not_effect(*old(self), *final(self), request),
            old(self).wf() ==> final(self).wf(),
    {
        let n = self.stack.len();
        if n == 0 {
            return Request::Corrupt;
        }
        let value = Value::Bool(self.stack[n - 1].is_falsy());
        self.replace_values(1, value);
        Request::Continue
    }

    pub fn op_negate(&mut self) -> (request: Request)
        ensures
            negate_effect(*old(self), *final(self), request),
            old(self).wf() ==> final(self).wf(),
    {
        let n = self.stack.len();
        if n == 0 {
            return Request::Corrupt;
        }
        let number = match &self.stack[n - 1] {
            Value::Double(a) => Some(*a),
            _ => None,
        };
        match number {
            Some(a) => {
                self.replace_values(1, Value::Double(double_negate(a)));
                Request::Continue
            },
            None => self.runtime_error("Operand must be a number.".to_string()),
        }
    }

    pub fn op_print(&mut self) -> (request: Request)
        ensures
            print_effect(*old(self), *final(self), request),
            old(self).wf() ==> final(self).wf(),
    {
        let n = self.stack.len();
        if n == 0 {
            return Request::Corrupt;
        }
        let printed = self.heap.display(&self.stack[n - 1]);
        self.drop_values(1);
        Request::Print(printed)
    }

    pub fn op_pop(&mut self) -> (request: Request)
        ensures
            pop_effect(*old(self), *final(self), request),
            old(self).wf() ==> final(self).wf(),
    {
        if self.stack.len() == 0 {
            return Request::Corrupt;
        }
        self.drop_values(1);
        Request::Continue
    }

    /// `Jump` (`conditional` false) and `JumpIfFalse` (`conditional` true).
    pub fn op_jump(&mut self, offset: u16, conditional: bool) -> (request: Request)
        ensures
            jump_effect(*old(self), *final(self), offset, conditional, request),
            old(self).wf() ==> final(self).wf(),
    {
        let n = self.frames.len();
        if n == 0 || (conditional && self.stack.len() == 0) {
            return Request::Corrupt;
        }
        if conditional && !self.stack[self.stack.len() - 1].is_falsy() {
            return Request::Continue;
        }
        let ip = self.frames[n - 1].ip;
        if offset as usize > usize::MAX - ip {
            return Request::Corrupt;
        }
        self.frames[n - 1].ip = ip + offset as usize;
        Request::Continue
    }

    pub fn op_loop(&mut self, offset: u16) -> (request: Request)
        ensures
            loop_effect(*old(self), *final(self), offset, request),
            old(self).wf() ==> final(self).wf(),
    {
        let n = self.frames.len();
        if n == 0 {
            return Request::Corrupt;
        }
        let ip = self.frames[n - 1].ip;
        if offset as usize > ip {
            return Request::Corrupt;
        }
        self.frames[n - 1].ip = ip - offset as usize;
        Request::Continue
    }
}

} // verus!
