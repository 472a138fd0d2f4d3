//! The fetch-execute cycle.

use vstd::prelude::*;
use crate::chunk::address_of;
use crate::function::{Closure, ClosureRef, NativeFunction};
use crate::heap::Heap;
use crate::intern_string::SymbolTable;
use crate::opcodes::OpCode;
use crate::table::Table;
use crate::value::Value;
use crate::vm::calls::{
    call_op_effect,
    close_upvalue_effect,
    get_upvalue_effect,
    return_effect,
    set_upvalue_effect,
};
use crate::vm::objects::{
    class_effect,
    closure_effect,
    get_property_effect,
    get_super_effect,
    inherit_effect,
    invoke_effect,
    method_effect,
    set_property_effect,
    super_invoke_effect,
};
use crate::vm::operators::{
    add_effect,
    arithmetic_effect,
    compare_effect,
    constant_effect,
    define_global_effect,
    equal_effect,
    get_global_effect,
    get_local_effect,
    jump_effect,
    loop_effect,
    negate_effect,
    not_effect,
    pop_effect,
    print_effect,
    pushed,
    set_global_effect,
    set_local_effect,
};
use crate::vm::{CallFrame, Request, CLOCK, VM};

verus! {

/// What executing one instruction does, the instruction pointer standing
/// behind the instruction and its operands.
pub open spec fn execute_effect(
    pre: VM,
    post: VM,
    opcode: OpCode,
    first: u8,
    second: u8,
    request: Request,
) -> bool {
    match opcode {
        OpCode::Constant => constant_effect(pre, post, first, request),
        OpCode::Nil => request is Continue && pushed(pre, post, Value::Nil),
        OpCode::True => request is Continue && pushed(pre, post, Value::Bool(true)),
        OpCode::False => request is Continue && pushed(pre, post, Value::Bool(false)),
        OpCode::Negate => negate_effect(pre, post, request),
        OpCode::Add => add_effect(pre, post, request),
        OpCode::Subtract | OpCode::Multiply | OpCode::Divide => arithmetic_effect(
            pre,
            post,
            opcode,
            request,
        ),
        OpCode::Not => not_effect(pre, post, request),
        OpCode::Equal => equal_effect(pre, post, request),
        OpCode::Greater => compare_effect(pre, post, true, request),
        OpCode::Less => compare_effect(pre, post, false, request),
        OpCode::Return => return_effect(pre, post, request),
        OpCode::Print => print_effect(pre, post, request),
        OpCode::Pop => pop_effect(pre, post, request),
        OpCode::DefineGlobal => define_global_effect(pre, post, first, request),
        OpCode::GetGlobal => get_global_effect(pre, post, first, request),
        OpCode::SetGlobal => set_global_effect(pre, post, first, request),
        OpCode::GetLocal => get_local_effect(pre, post, first, request),
        OpCode::SetLocal => set_local_effect(pre, post, first, request),
        OpCode::GetUpvalue => get_upvalue_effect(pre, post, first, request),
        OpCode::SetUpvalue => set_upvalue_effect(pre, post, first, request),
        OpCode::Jump => jump_effect(pre, post, address_of(first, second), false, request),
        OpCode::JumpIfFalse => jump_effect(pre, post, address_of(first, second), true, request),
        OpCode::Loop => loop_effect(pre, post, address_of(first, second), request),
        OpCode::Call => call_op_effect(pre, post, first, request),
        OpCode::Closure => closure_effect(pre, post, first, request),
        OpCode::CloseUpvalue => close_upvalue_effect(pre, post, request),
        OpCode::Class => class_effect(pre, post, first, request),
        OpCode::GetProperty => get_property_effect(pre, post, first, request),
        OpCode::SetProperty => set_property_effect(pre, post, first, request),
        OpCode::Method => method_effect(pre, post, first, request),
        OpCode::Invoke => invoke_effect(pre, post, first, second, request),
        OpCode::Inherit => inherit_effect(pre, post, request),
        OpCode::GetSuper => get_super_effect(pre, post, first, request),
        OpCode::SuperInvoke => super_invoke_effect(pre, post, first, second, request),
    }
}

/// What one step of the machine does: the next instruction is read, the
/// instruction pointer moves behind it, and the instruction is executed.
/// A machine that waits for its host, or that finds no instruction, does
/// nothing.
pub open spec fn step_effect(pre: VM, post: VM, request: Request) -> bool {
    if pre.awaiting {
        request is Corrupt && post == pre
    } else {
        match pre.next_instruction() {
            None => request is Corrupt && post == pre,
            Some(fetched) => exists|mid: VM|
                mid.same_but_ip(&pre, fetched.next) && execute_effect(
                    mid,
                    post,
                    fetched.opcode,
                    fetched.first,
                    fetched.second,
                    request,
                ),
        }
    }
}

/// The states that a run went through: it starts in `pre`, every step
/// but the last asks nothing of the host, and the last step ends in
/// `post` and asks `request`.
pub open spec fn run_of(states: Seq<VM>, pre: VM, post: VM, steps: nat, request: Request) -> bool {
    &&& steps >= 1
    &&& states.len() == steps + 1
    &&& states[0] == pre
    &&& states[steps as int] == post
    &&& forall|i: int|
        0 <= i < steps - 1 ==> step_effect(#[trigger] states[i], states[i + 1], Request::Continue)
    &&& step_effect(states[steps - 1], post, request)
}

/// The machine has taken `steps` steps from `pre` to `post`, of which
/// only the last one asked anything of the host, namely `request`.
pub open spec fn ran(pre: VM, post: VM, steps: nat, request: Request) -> bool {
    if steps == 0 {
        post == pre && request is Continue
    } else {
        exists|states: Seq<VM>| #[trigger] run_of(states, pre, post, steps, request)
    }
}

/// The machine has taken the host's answer: it waits no more, and the
/// answer is on the stack.
pub open spec fn resumed(pre: VM, post: VM, value: Value) -> bool {
    &&& post.stack@ == pre.stack@.push(value)
    &&& !post.awaiting
    &&& post.frames == pre.frames
    &&& post.heap == pre.heap
    &&& post.symbol_table == pre.symbol_table
    &&& post.globals == pre.globals
    &&& post.open_upvalues == pre.open_upvalues
    &&& post.init_symbol == pre.init_symbol
    &&& post.report == pre.report
}

impl VM {
    /// A machine that is about to run the script `closure`: the script is
    /// in slot 0 of the stack, a frame for it is open, and the native
    /// function `clock` is defined.
    pub fn new(closure: Closure, symbol_table: SymbolTable, heap: Heap) -> (vm: VM)
        requires
            heap.wf(),
            closure.function.valid(&heap),
            closure.function.inner(&heap).arity == 0,
        ensures
            vm.wf(),
            vm.heap.closures@ == heap.closures@.push(closure),
            vm.heap.same_but_closures(&heap),
            vm.stack@ == seq![Value::Closure(ClosureRef { index: heap.closures@.len() as usize })],
            vm.frames@ == seq![
                CallFrame {
                    closure: ClosureRef { index: heap.closures@.len() as usize },
                    ip: 0,
                    slots: 0,
                },
            ],
            vm.report.is_none(),
            vm.open_upvalues@.len() == 0,
            !vm.awaiting,
            vm.init_symbol@ == "init"@,
            forall|key: Seq<char>|
                #[trigger] vm.globals.lookup(key) == if key == "clock"@ {
                    Some(Value::NativeFunction(NativeFunction { id: CLOCK, arity: 0 }))
                } else {
                    None
                },
    {
        let mut symbol_table = symbol_table;
        let mut heap = heap;
        let init_symbol = symbol_table.intern("init".to_string());
        let script = heap.new_closure(closure);
        let mut vm = VM {
            frames: Vec::new(),
            stack: Vec::new(),
            heap,
            symbol_table,
            globals: Table::new(),
            open_upvalues: Vec::new(),
            init_symbol,
            report: None,
            awaiting: false,
        };
        vm.stack.push(Value::Closure(script));
        let _ = vm.call(script, 0);
        vm.define_native("clock".to_string(), NativeFunction::new(CLOCK, 0));
        assert(vm.stack@ =~= seq![Value::Closure(script)]);
        assert(vm.frames@ =~= seq![CallFrame { closure: script, ip: 0, slots: 0 }]);
        vm
    }

    /// Defines the global `name` as a native function.
    pub fn define_native(&mut self, name: String, function: NativeFunction)
        requires
            old(self).wf(),
        ensures
            final(self).wf(),
            forall|k: Seq<char>|
                #[trigger] final(self).globals.lookup(k) == if k == name@ {
                    Some(Value::NativeFunction(function))
                } else {
                    old(self).globals.lookup(k)
                },
            final(self).frames == old(self).frames,
            final(self).stack == old(self).stack,
            final(self).heap == old(self).heap,
            final(self).open_upvalues == old(self).open_upvalues,
            final(self).init_symbol == old(self).init_symbol,
            final(self).report == old(self).report,
            final(self).awaiting == old(self).awaiting,
    {
        let intern = self.symbol_table.intern(name);
        self.globals.insert(intern, Value::NativeFunction(function));
    }

    /// Executes one instruction whose opcode and operands were read.
    pub fn execute(&mut self, opcode: OpCode, first: u8, second: u8) -> (request: Request)
        requires
            old(self).wf(),
        ensures
            final(self).wf(),
            execute_effect(*old(self), *final(self), opcode, first, second, request),
    {
        match opcode {
            OpCode::Constant => self.op_constant(first),
            OpCode::Nil => {
                self.push(Value::Nil);
                Request::Continue
            },
            OpCode::True => {
                self.push(Value::Bool(true));
                Request::Continue
            },
            OpCode::False => {
                self.push(Value::Bool(false));
                Request::Continue
            },
            OpCode::Negate => self.op_negate(),
            OpCode::Add => self.op_add(),
            OpCode::Subtract => self.op_arithmetic(OpCode::Subtract),
            OpCode::Multiply => self.op_arithmetic(OpCode::Multiply),
            OpCode::Divide => self.op_arithmetic(OpCode::Divide),
            OpCode::Not => self.op_not(),
            OpCode::Equal => self.op_equal(),
            OpCode::Greater => self.op_compare(true),
            OpCode::Less => self.op_compare(false),
            OpCode::Return => self.op_return(),
            OpCode::Print => self.op_print(),
            OpCode::Pop => self.op_pop(),
            OpCode::DefineGlobal => self.op_define_global(first),
            OpCode::GetGlobal => self.op_get_global(first),
            OpCode::SetGlobal => self.op_set_global(first),
            OpCode::GetLocal => self.op_get_local(first),
            OpCode::SetLocal => self.op_set_local(first),
            OpCode::GetUpvalue => self.op_get_upvalue(first),
            OpCode::SetUpvalue => self.op_set_upvalue(first),
            OpCode::Jump => self.op_jump(short(first, second), false),
            OpCode::JumpIfFalse => self.op_jump(short(first, second), true),
            OpCode::Loop => self.op_loop(short(first, second)),
            OpCode::Call => self.op_call(first),
            OpCode::Closure => self.op_closure(first),
            OpCode::CloseUpvalue => self.op_close_upvalue(),
            OpCode::Class => self.op_class(first),
            OpCode::GetProperty => self.op_get_property(first),
            OpCode::SetProperty => self.op_set_property(first),
            OpCode::Method => self.op_method(first),
            OpCode::Invoke => self.op_invoke(first, second),
            OpCode::Inherit => self.op_inherit(),
            OpCode::GetSuper => self.op_get_super(first),
            OpCode::SuperInvoke => self.op_super_invoke(first, second),
        }
    }

    /// Reads and executes the next instruction.
    pub fn step(&mut self) -> (request: Request)
        requires
            old(self).wf(),
        ensures
            final(self).wf(),
            step_effect(*old(self), *final(self), request),
    {
        if self.awaiting {
            return Request::Corrupt;
        }
        match self.fetch() {
            None => Request::Corrupt,
            Some((opcode, first, second)) => {
                let ghost mid = *self;
                let request = self.execute(opcode, first, second);
                assert(mid.same_but_ip(old(self), old(self).next_instruction()->0.next)
                    && execute_effect(mid, *self, opcode, first, second, request));
                request
            },
        }
    }

    /// Executes instructions until one asks something of the host, but no
    /// more than `budget` of them. `Continue` says that the budget is
    /// used up.
    pub fn run(&mut self, budget: usize) -> (request: Request)
        requires
            old(self).wf(),
        ensures
            final(self).wf(),
            exists|steps: nat|
                steps <= budget && ran(*old(self), *final(self), steps, request) && (
                request is Continue ==> steps == budget),
    {
        let mut done: usize = 0;
        let ghost mut states: Seq<VM> = seq![*self];
        while done < budget
            invariant
                self.wf(),
                done <= budget,
                states.len() == done + 1,
                states[0] == *old(self),
                states[done as int] == *self,
                forall|i: int|
                    0 <= i < done ==> step_effect(
                        #[trigger] states[i],
                        states[i + 1],
                        Request::Continue,
                    ),
            decreases budget - done,
        {
            let request = self.step();
            proof {
                states = states.push(*self);
            }
            done += 1;
            match request {
                Request::Continue => {},
                other => {
                    proof {
                        assert(run_of(states, *old(self), *self, done as nat, other));
                        assert(ran(*old(self), *self, done as nat, other));
                    }
                    return other;
                },
            }
        }
        proof {
            if done > 0 {
                assert(run_of(states, *old(self), *self, done as nat, Request::Continue));
            }
            assert(ran(*old(self), *self, done as nat, Request::Continue));
        }
        Request::Continue
    }

    /// Takes the host's answer to `Arithmetic` or `Native`, and goes on
    /// for at most `budget` instructions. A machine that did not ask is
    /// left as it is.
    pub fn resume(&mut self, value: Value, budget: usize) -> (request: Request)
        requires
            old(self).wf(),
        ensures
            final(self).wf(),
            if old(self).awaiting {
                exists|mid: VM, steps: nat|
                    resumed(*old(self), mid, value) && steps <= budget && ran(
                        mid,
                        *final(self),
                        steps,
                        request,
                    ) && (request is Continue ==> steps == budget)
            } else {
                request is Corrupt && *final(self) == *old(self)
            },
    {
        if !self.awaiting {
            return Request::Corrupt;
        }
        self.awaiting = false;
        self.stack.push(value);
        let ghost mid = *self;
        let request = self.run(budget);
        proof {
            let steps = choose|steps: nat|
                steps <= budget && ran(mid, *self, steps, request) && (request is Continue ==> steps
                    == budget);
            assert(resumed(*old(self), mid, value) && steps <= budget && ran(
                mid,
                *self,
                steps,
                request,
            ) && (request is Continue ==> steps == budget));
        }
        request
    }

    /// Runs the program until it asks something of the host, but for no
    /// more than `budget` instructions.
    pub fn interpret(&mut self, budget: usize) -> (request: Request)
        requires
            old(self).wf(),
        ensures
            final(self).wf(),
            exists|steps: nat|
                steps <= budget && ran(*old(self), *final(self), steps, request) && (
                request is Continue ==> steps == budget),
    {
        self.run(budget)
    }
}

/// The address that two operand bytes spell.
fn short(high: u8, low: u8) -> (address: u16)
    ensures
        address == address_of(high, low),
{
    let high = high as u16;
    let low = low as u16;
    high * 256 + low
}

} // verus!
