//! Captured variables, calls and returns.

use vstd::prelude::*;
use vstd::string::StringExecFns;
use crate::classes::{ClazzRef, Instance, InstanceRef};
use crate::function::{Closure, ClosureRef, NativeFunction, ObjUpvalue, UpvalueLocation};
use crate::text::{decimal, decimal_string};
use crate::value::Value;
use crate::vm::operators::pushed;
use crate::vm::{failed, CallFrame, Request, VM};

verus! {

/// The message for a call with the wrong number of arguments.
pub open spec fn wrong_arity(expected: nat, got: nat) -> Seq<char> {
    "Expected "@ + decimal(expected) + " arguments, but got "@ + decimal(got) + "."@
}

pub open spec fn not_callable() -> Seq<char> {
    "Can only call functions and classes."@
}

/// Among the first `upto` open cells, the last one that stands for stack
/// slot `slot`.
pub open spec fn find_open(
    open: Seq<ObjUpvalue>,
    upvalues: Seq<UpvalueLocation>,
    slot: int,
    upto: int,
) -> Option<ObjUpvalue>
    decreases upto,
{
    if upto <= 0 || upto > open.len() {
        None
    } else {
        let cell = open[upto - 1];
        if cell.index < upvalues.len() && upvalues[cell.index as int] == UpvalueLocation::Stack(
            slot as usize,
        ) {
            Some(cell)
        } else {
            find_open(open, upvalues, slot, upto - 1)
        }
    }
}

/// Whether the cell at `index` is in the open list.
pub open spec fn is_open(open: Seq<ObjUpvalue>, index: int) -> bool {
    exists|k: int| 0 <= k < open.len() && (#[trigger] open[k]).index == index
}

/// Whether closing at `last` must close the cell: it is open, in a slot
/// at or above `last`.
pub open spec fn closes(location: UpvalueLocation, last: int) -> bool {
    location matches UpvalueLocation::Stack(slot) && slot >= last
}

/// Whether every open cell can be closed at `last`: each is a cell of the
/// heap that is still open, and each one to close stands for a slot of
/// the stack.
pub open spec fn closable(
    upvalues: Seq<UpvalueLocation>,
    open: Seq<ObjUpvalue>,
    stack: Seq<Value>,
    last: int,
) -> bool {
    forall|k: int|
        0 <= k < open.len() ==> {
            &&& (#[trigger] open[k]).index < upvalues.len()
            &&& upvalues[open[k].index as int] matches UpvalueLocation::Stack(slot)
            &&& (slot >= last ==> slot < stack.len())
        }
}

/// The cells after closing at `last`: every open cell in a slot at or
/// above `last` owns the value of its slot; every other cell is as it was.
pub open spec fn closed_upvalues(
    upvalues: Seq<UpvalueLocation>,
    open: Seq<ObjUpvalue>,
    stack: Seq<Value>,
    last: int,
) -> Seq<UpvalueLocation> {
    Seq::new(
        upvalues.len(),
        |i: int|
            if is_open(open, i) && closes(upvalues[i], last) {
                UpvalueLocation::Heap(stack[upvalues[i]->Stack_0 as int])
            } else {
                upvalues[i]
            },
    )
}

/// The open list after closing at `last`: the cells below `last`, in
/// their order.
pub open spec fn kept_open(open: Seq<ObjUpvalue>, upvalues: Seq<UpvalueLocation>, last: int) -> Seq<
    ObjUpvalue,
>
    decreases open.len(),
{
    if open.len() == 0 {
        Seq::empty()
    } else {
        let rest = kept_open(open.drop_last(), upvalues, last);
        if open.last().index < upvalues.len() && !closes(upvalues[open.last().index as int], last) {
            rest.push(open.last())
        } else {
            rest
        }
    }
}

/// Nothing but the stack, the frames, the heap and the open list differs.
pub open spec fn rest_same(pre: VM, post: VM) -> bool {
    &&& post.symbol_table == pre.symbol_table
    &&& post.globals == pre.globals
    &&& post.init_symbol == pre.init_symbol
    &&& post.report == pre.report
    &&& post.awaiting == pre.awaiting
}

/// Capturing stack slot `slot` gave `cell`: the open cell of that slot
/// where there was one, else a new open cell at the end of the open list.
pub open spec fn capture_effect(pre: VM, post: VM, slot: usize, cell: ObjUpvalue) -> bool {
    match find_open(
        pre.open_upvalues@,
        pre.heap.upvalues@,
        slot as int,
        pre.open_upvalues@.len() as int,
    ) {
        Some(found) => cell == found && post == pre,
        None => {
            &&& cell.index == pre.heap.upvalues@.len()
            &&& post.heap.upvalues@ == pre.heap.upvalues@.push(UpvalueLocation::Stack(slot))
            &&& post.heap.same_but_upvalues(&pre.heap)
            &&& post.open_upvalues@ == pre.open_upvalues@.push(cell)
            &&& post.frames == pre.frames
            &&& post.stack == pre.stack
            &&& rest_same(pre, post)
        },
    }
}

/// Closing at `last` went well (`done`), and then every open cell at or
/// above `last` is closed and has left the open list; or it could not be
/// done, and then nothing changed.
pub open spec fn close_effect(pre: VM, post: VM, last: usize, done: bool) -> bool {
    &&& done == closable(pre.heap.upvalues@, pre.open_upvalues@, pre.stack@, last as int)
    &&& if done {
        &&& post.heap.upvalues@ == closed_upvalues(
            pre.heap.upvalues@,
            pre.open_upvalues@,
            pre.stack@,
            last as int,
        )
        &&& post.heap.same_but_upvalues(&pre.heap)
        &&& post.open_upvalues@ == kept_open(pre.open_upvalues@, pre.heap.upvalues@, last as int)
        &&& post.frames == pre.frames
        &&& post.stack == pre.stack
        &&& rest_same(pre, post)
    } else {
        post == pre
    }
}

/// Calling `closure` with `count` arguments: with the right number of
/// arguments a frame is opened whose slot 0 is the callee; with another
/// number the program fails.
pub open spec fn call_effect(
    pre: VM,
    post: VM,
    closure: ClosureRef,
    count: u8,
    request: Request,
) -> bool {
    if !closure.valid(&pre.heap) || !pre.heap.closures[closure.index as int].function.valid(
        &pre.heap,
    ) || pre.stack@.len() < count + 1 {
        request is Corrupt
    } else {
        let arity = pre.heap.functions[pre.heap.closures[closure.index as int].function.index
            as int].arity;
        if arity == count {
            &&& request is Continue
            &&& post.frames@ == pre.frames@.push(
                CallFrame { closure, ip: 0, slots: (pre.stack@.len() - count - 1) as usize },
            )
            &&& post.stack == pre.stack
            &&& post.heap == pre.heap
            &&& post.open_upvalues == pre.open_upvalues
            &&& rest_same(pre, post)
        } else {
            request is Failed && failed(pre, post, wrong_arity(arity as nat, count as nat))
        }
    }
}

/// The callee's slot holds a new instance of `class`, which has no fields.
pub open spec fn instantiated(pre: VM, post: VM, class: ClazzRef, count: u8) -> bool {
    let place = pre.stack@.len() - 1 - count;
    let instance = InstanceRef { index: pre.heap.instances@.len() as usize };
    &&& post.heap.instances@.len() == pre.heap.instances@.len() + 1
    &&& post.heap.instances@.drop_last() == pre.heap.instances@
    &&& post.heap.instances@.last().clazz == class
    &&& post.heap.instances@.last().fields.wf()
    &&& forall|key: Seq<char>| post.heap.instances@.last().fields.lookup(key).is_none()
    &&& post.heap.same_but_instances(&pre.heap)
    &&& post.stack@ == pre.stack@.update(place, Value::Instance(instance))
    &&& post.frames == pre.frames
    &&& post.open_upvalues == pre.open_upvalues
    &&& rest_same(pre, post)
}

/// The callee's slot holds `value`.
pub open spec fn callee_set(pre: VM, post: VM, count: u8, value: Value) -> bool {
    &&& post.stack@ == pre.stack@.update(pre.stack@.len() - 1 - count, value)
    &&& post.same_but_stack(&pre)
}

/// The callee and its `count` arguments have left the stack, and the
/// machine waits for the host's answer.
pub open spec fn native_asked(pre: VM, post: VM, count: u8) -> bool {
    &&& post.stack@ == pre.stack@.take(pre.stack@.len() - count - 1)
    &&& post.awaiting
    &&& post.frames == pre.frames
    &&& post.heap == pre.heap
    &&& post.symbol_table == pre.symbol_table
    &&& post.globals == pre.globals
    &&& post.open_upvalues == pre.open_upvalues
    &&& post.init_symbol == pre.init_symbol
    &&& post.report == pre.report
}

/// Calling the value `callee`, which stands below its `count` arguments.
///
/// - A closure is called.
/// - For a native function of that many arguments the host is asked.
/// - A class makes an instance, which takes the callee's slot; the
///   class's `init`, if it has one, is called; without one, any argument
///   is a run-time error.
/// - A bound method is called with its receiver in the callee's slot.
/// - Anything else is a run-time error.
pub open spec fn call_value_effect(
    pre: VM,
    post: VM,
    callee: Value,
    count: u8,
    request: Request,
) -> bool {
    if pre.stack@.len() < count + 1 {
        request is Corrupt
    } else {
        match callee {
            Value::Function(_) => request is Corrupt,
            Value::Closure(closure) => call_effect(pre, post, closure, count, request),
            Value::NativeFunction(function) => if function.arity == count {
                &&& request matches Request::Native(asked, arguments)
                &&& asked == function
                &&& arguments@ == pre.stack@.skip(pre.stack@.len() - count)
                &&& native_asked(pre, post, count)
            } else {
                request is Failed && failed(
                    pre,
                    post,
                    wrong_arity(function.arity as nat, count as nat),
                )
            },
            Value::Class(class) => if !class.valid(&pre.heap) {
                request is Corrupt
            } else {
                match pre.heap.classes[class.index as int].methods.lookup(pre.init_symbol@) {
                    Some(init) => exists|mid: VM|
                        instantiated(pre, mid, class, count) && call_effect(
                            mid,
                            post,
                            init,
                            count,
                            request,
                        ),
                    None => if count == 0 {
                        request is Continue && instantiated(pre, post, class, count)
                    } else {
                        exists|mid: VM|
                            instantiated(pre, mid, class, count) && request is Failed && failed(
                                mid,
                                post,
                                wrong_arity(0, count as nat),
                            )
                    },
                }
            },
            Value::BoundMethod(bound) => if !bound.valid(&pre.heap) {
                request is Corrupt
            } else {
                exists|mid: VM|
                    callee_set(
                        pre,
                        mid,
                        count,
                        pre.heap.bound_methods[bound.index as int].receiver,
                    ) && call_effect(
                        mid,
                        post,
                        pre.heap.bound_methods[bound.index as int].method,
                        count,
                        request,
                    )
            },
            _ => request is Failed && failed(pre, post, not_callable()),
        }
    }
}

/// `Call`: the value below the `count` arguments is called.
pub open spec fn call_op_effect(pre: VM, post: VM, count: u8, request: Request) -> bool {
    if pre.stack@.len() < count + 1 {
        request is Corrupt
    } else {
        call_value_effect(pre, post, pre.stack@[pre.stack@.len() - 1 - count], count, request)
    }
}

/// The cell of the captured variable in `slot` of the innermost frame's
/// closure.
pub open spec fn upvalue_cell(pre: VM, slot: u8) -> Option<ObjUpvalue> {
    if pre.frames@.len() > 0 && pre.frames@.last().closure.valid(&pre.heap) && slot
        < pre.heap.closures[pre.frames@.last().closure.index as int].upvalues@.len()
        && pre.heap.closures[pre.frames@.last().closure.index as int].upvalues@[slot as int].valid(
        &pre.heap,
    ) {
        Some(pre.heap.closures[pre.frames@.last().closure.index as int].upvalues@[slot as int])
    } else {
        None
    }
}

/// `GetUpvalue`: the value of the captured variable is pushed: that of
/// its stack slot while the cell is open, the cell's own once it is
/// closed.
pub open spec fn get_upvalue_effect(pre: VM, post: VM, slot: u8, request: Request) -> bool {
    match upvalue_cell(pre, slot) {
        Some(cell) => match pre.heap.upvalues@[cell.index as int] {
            UpvalueLocation::Stack(place) => if place < pre.stack@.len() {
                request is Continue && pushed(pre, post, pre.stack@[place as int])
            } else {
                request is Corrupt
            },
            UpvalueLocation::Heap(value) => request is Continue && pushed(pre, post, value),
        },
        None => request is Corrupt,
    }
}

/// `SetUpvalue`: the captured variable takes the value on top of the
/// stack: in its stack slot while the cell is open, in the cell once it
/// is closed.
pub open spec fn set_upvalue_effect(pre: VM, post: VM, slot: u8, request: Request) -> bool {
    match upvalue_cell(pre, slot) {
        Some(cell) => if pre.stack@.len() == 0 {
            request is Corrupt
        } else {
            match pre.heap.upvalues@[cell.index as int] {
                UpvalueLocation::Stack(place) => if place < pre.stack@.len() {
                    &&& request is Continue
                    &&& post.stack@ == pre.stack@.update(place as int, pre.stack@.last())
                    &&& post.same_but_stack(&pre)
                } else {
                    request is Corrupt
                },
                UpvalueLocation::Heap(_) => {
                    &&& request is Continue
                    &&& post.heap.upvalues@ == pre.heap.upvalues@.update(
                        cell.index as int,
                        UpvalueLocation::Heap(pre.stack@.last()),
                    )
                    &&& post.heap.same_but_upvalues(&pre.heap)
                    &&& post.stack == pre.stack
                    &&& post.frames == pre.frames
                    &&& post.open_upvalues == pre.open_upvalues
                    &&& rest_same(pre, post)
                },
            }
        },
        None => request is Corrupt,
    }
}

/// `CloseUpvalue`: the cells of the topmost slot are closed, and its
/// value leaves the stack.
pub open spec fn close_upvalue_effect(pre: VM, post: VM, request: Request) -> bool {
    let n = pre.stack@.len() as int;
    if n > 0 && closable(pre.heap.upvalues@, pre.open_upvalues@, pre.stack@, n - 1) {
        &&& request is Continue
        &&& post.heap.upvalues@ == closed_upvalues(
            pre.heap.upvalues@,
            pre.open_upvalues@,
            pre.stack@,
            n - 1,
        )
        &&& post.heap.same_but_upvalues(&pre.heap)
        &&& post.open_upvalues@ == kept_open(pre.open_upvalues@, pre.heap.upvalues@, n - 1)
        &&& post.stack@ == pre.stack@.drop_last()
        &&& post.frames == pre.frames
        &&& rest_same(pre, post)
    } else {
        request is Corrupt
    }
}

/// `Return`: the result leaves the stack, the innermost frame ends and
/// the cells of its slots are closed. Where it was the last frame, the
/// script itself leaves the stack and the program has finished; else the
/// frame's slots make way for the result.
pub open spec fn return_effect(pre: VM, post: VM, request: Request) -> bool {
    if pre.stack@.len() == 0 || pre.frames@.len() == 0 {
        request is Corrupt
    } else {
        let value = pre.stack@.last();
        let frame = pre.frames@.last();
        let stack = pre.stack@.drop_last();
        if !closable(pre.heap.upvalues@, pre.open_upvalues@, stack, frame.slots as int) {
            request is Corrupt
        } else {
            &&& post.heap.upvalues@ == closed_upvalues(
                pre.heap.upvalues@,
                pre.open_upvalues@,
                stack,
                frame.slots as int,
            )
            &&& post.heap.same_but_upvalues(&pre.heap)
            &&& post.open_upvalues@ == kept_open(
                pre.open_upvalues@,
                pre.heap.upvalues@,
                frame.slots as int,
            )
            &&& post.frames@ == pre.frames@.drop_last()
            &&& rest_same(pre, post)
            &&& if pre.frames@.len() == 1 {
                &&& request is Finished
                &&& post.stack@ == if stack.len() > 0 {
                    stack.drop_last()
                } else {
                    stack
                }
            } else {
                &&& request is Continue
                &&& post.stack@ == if frame.slots <= stack.len() {
                    stack.take(frame.slots as int).push(value)
                } else {
                    stack.push(value)
                }
            }
        }
    }
}

impl VM {
    /// The open cell for stack slot `slot`: the one there is, or a new
    /// one.
    pub fn capture_upvalue(&mut self, slot: usize) -> (cell: ObjUpvalue)
        ensures
            capture_effect(*old(self), *final(self), slot, cell),
            old(self).wf() ==> final(self).wf(),
    {
        let mut i = self.open_upvalues.len();
        while i > 0
            invariant
                *self == *old(self),
                i <= self.open_upvalues.len(),
                find_open(
                    self.open_upvalues@,
                    self.heap.upvalues@,
                    slot as int,
                    self.open_upvalues@.len() as int,
                ) == find_open(self.open_upvalues@, self.heap.upvalues@, slot as int, i as int),
            decreases i,
        {
            let cell = self.open_upvalues[i - 1];
            if cell.index < self.heap.upvalues.len() {
                let here = match &self.heap.upvalues[cell.index] {
                    UpvalueLocation::Stack(place) => *place == slot,
                    UpvalueLocation::Heap(_) => false,
                };
                if here {
                    return cell;
                }
            }
            i -= 1;
        }
        let cell = self.heap.new_upvalue(UpvalueLocation::Stack(slot));
        self.open_upvalues.push(cell);
        cell
    }

    /// Whether every open cell can be closed at `last`.
    fn can_close(&self, last: usize) -> (can: bool)
        ensures
            can == closable(self.heap.upvalues@, self.open_upvalues@, self.stack@, last as int),
    {
        let mut k: usize = 0;
        while k < self.open_upvalues.len()
            invariant
                k <= self.open_upvalues.len(),
                forall|j: int|
                    0 <= j < k ==> {
                        &&& (#[trigger] self.open_upvalues@[j]).index < self.heap.upvalues@.len()
                        &&& self.heap.upvalues@[self.open_upvalues@[j].index as int] matches UpvalueLocation::Stack(
                        slot)
                        &&& (slot >= last ==> slot < self.stack@.len())
                    },
            decreases self.open_upvalues.len() - k,
        {
            let cell = self.open_upvalues[k];
            if cell.index >= self.heap.upvalues.len() {
                return false;
            }
            match &self.heap.upvalues[cell.index] {
                UpvalueLocation::Stack(slot) => {
                    if *slot >= last && *slot >= self.stack.len() {
                        return false;
                    }
                },
                UpvalueLocation::Heap(_) => {
                    return false;
                },
            }
            k += 1;
        }
        true
    }

    /// Closes every open cell whose slot is at or above `last`: the cell
    /// takes the value of its slot for its own and leaves the open list.
    pub fn close_upvalues(&mut self, last: usize) -> (done: bool)
        ensures
            close_effect(*old(self), *final(self), last, done),
            old(self).wf() ==> final(self).wf(),
    {
        if !self.can_close(last) {
            return false;
        }
        let ghost before = self.heap.upvalues@;
        let ghost open = self.open_upvalues@;
        let ghost goal = closed_upvalues(before, open, self.stack@, last as int);
        let mut kept: Vec<ObjUpvalue> = Vec::new();
        let n = self.open_upvalues.len();
        let mut k: usize = 0;
        while k < n
            invariant
                k <= n,
                n == open.len(),
                self.open_upvalues@ == open,
                self.stack == old(self).stack,
                self.frames == old(self).frames,
                rest_same(*old(self), *self),
                self.heap.same_but_upvalues(&old(self).heap),
                before == old(self).heap.upvalues@,
                open == old(self).open_upvalues@,
                goal == closed_upvalues(before, open, self.stack@, last as int),
                closable(before, open, self.stack@, last as int),
                kept@ == kept_open(open.take(k as int), before, last as int),
                self.heap.upvalues@.len() == before.len(),
                forall|i: int|
                    0 <= i < before.len() ==> #[trigger] self.heap.upvalues@[i] == if is_open(
                        open.take(k as int),
                        i,
                    ) && closes(before[i], last as int) {
                        goal[i]
                    } else {
                        before[i]
                    },
            decreases n - k,
        {
            let cell = self.open_upvalues[k];
            assert(open[k as int] == cell);
            assert(cell.index < before.len());
            assert(open.take(k + 1).drop_last() == open.take(k as int));
            assert(open.take(k + 1).last() == cell);
            let (to_close, keep) = match &self.heap.upvalues[cell.index] {
                UpvalueLocation::Stack(slot) => if *slot >= last {
                    (Some(*slot), false)
                } else {
                    (None, true)
                },
                UpvalueLocation::Heap(_) => (None, false),
            };
            assert(is_open(open, cell.index as int));
            assert(is_open(open.take(k + 1), cell.index as int)) by {
                assert(open.take(k + 1)[k as int].index == cell.index);
            }
            match to_close {
                Some(slot) => {
                    assert(before[cell.index as int] == UpvalueLocation::Stack(slot));
                    let value = self.stack[slot].clone();
                    self.heap.upvalues[cell.index] = UpvalueLocation::Heap(value);
                },
                None => {
                    if keep {
                        kept.push(cell);
                    }
                },
            }
            proof {
                assert forall|i: int| 0 <= i < before.len() implies #[trigger] self.heap.upvalues@[i]
                    == if is_open(open.take(k + 1), i) && closes(before[i], last as int) {
                    goal[i]
                } else {
                    before[i]
                } by {
                    if is_open(open.take(k + 1), i) {
                        let j = choose|j: int|
                            0 <= j < open.take(k + 1).len() && (#[trigger] open.take(
                                k + 1,
                            )[j]).index == i;
                        if j < k {
                            assert(open.take(k as int)[j].index == i);
                            assert(is_open(open.take(k as int), i));
                        } else {
                            assert(i == cell.index);
                        }
                        assert(open[j].index == i);
                        assert(is_open(open, i));
                    } else {
                        if is_open(open.take(k as int), i) {
                            let j = choose|j: int|
                                0 <= j < open.take(k as int).len() && (#[trigger] open.take(
                                    k as int,
                                )[j]).index == i;
                            assert(open.take(k + 1)[j].index == i);
                        }
                    }
                }
            }
            k += 1;
        }
        proof {
            assert(open.take(n as int) == open);
            assert(self.heap.upvalues@ =~= goal);
        }
        self.open_upvalues = kept;
        true
    }

    /// Opens a frame for `closure`, whose `count` arguments are on the
    /// stack above the callee.
    pub fn call(&mut self, closure: ClosureRef, count: u8) -> (request: Request)
        ensures
            call_effect(*old(self), *final(self), closure, count, request),
            old(self).wf() ==> final(self).wf(),
    {
        if closure.index >= self.heap.closures.len() {
            return Request::Corrupt;
        }
        let function = self.heap.closures[closure.index].function;
        if function.index >= self.heap.functions.len() || self.stack.len() < count as usize + 1 {
            return Request::Corrupt;
        }
        let arity = self.heap.functions[function.index].arity;
        if arity == count as usize {
            let slots = self.stack.len() - count as usize - 1;
            self.frames.push(CallFrame::new(closure, 0, slots));
            Request::Continue
        } else {
            let message = arity_message(arity, count);
            self.runtime_error(message)
        }
    }

    /// Puts a new instance of `class` into the callee's slot.
    fn instantiate(&mut self, class: ClazzRef, count: u8)
        requires
            old(self).wf(),
            old(self).stack@.len() >= count + 1,
        ensures
            final(self).wf(),
            instantiated(*old(self), *final(self), class, count),
    {
        let instance = self.heap.new_instance(Instance::new(class));
        let n = self.stack.len();
        self.stack[n - 1 - count as usize] = Value::Instance(instance);
        assert(self.heap.instances@.drop_last() == old(self).heap.instances@);
    }

    /// Calls the value `callee`, whose `count` arguments are on the stack
    /// above it.
    pub fn call_value(&mut self, callee: Value, count: u8) -> (request: Request)
        requires
            old(self).wf(),
        ensures
            final(self).wf(),
            call_value_effect(*old(self), *final(self), callee, count, request),
    {
        let n = self.stack.len();
        if n < count as usize + 1 {
            return Request::Corrupt;
        }
        match callee {
            Value::Function(_) => Request::Corrupt,
            Value::Closure(closure) => self.call(closure, count),
            Value::NativeFunction(function) => {
                if count as usize == function.arity {
                    let arguments = self.stack.split_off(n - count as usize);
                    self.stack.truncate(n - count as usize - 1);
                    self.awaiting = true;
                    assert(arguments@ =~= old(self).stack@.skip(n - count));
                    assert(self.stack@ =~= old(self).stack@.take(n - count - 1));
                    Request::Native(function, arguments)
                } else {
                    let message = arity_message(function.arity, count);
                    self.runtime_error(message)
                }
            },
            Value::Class(class) => {
                if class.index >= self.heap.classes.len() {
                    return Request::Corrupt;
                }
                let init = self.heap.classes[class.index].get_method(&self.init_symbol);
                self.instantiate(class, count);
                let ghost mid = *self;
                match init {
                    Some(init) => {
                        let request = self.call(init, count);
                        assert(instantiated(*old(self), mid, class, count) && call_effect(
                            mid,
                            *self,
                            init,
                            count,
                            request,
                        ));
                        request
                    },
                    None => {
                        if count == 0 {
                            Request::Continue
                        } else {
                            let message = arity_message(0, count);
                            let request = self.runtime_error(message);
                            assert(instantiated(*old(self), mid, class, count) && request is Failed
                                && failed(mid, *self, wrong_arity(0, count as nat)));
                            request
                        }
                    },
                }
            },
            Value::BoundMethod(bound) => {
                if bound.index >= self.heap.bound_methods.len() {
                    return Request::Corrupt;
                }
                let receiver = self.heap.bound_methods[bound.index].receiver.clone();
                let method = self.heap.bound_methods[bound.index].method;
                self.stack[n - 1 - count as usize] = receiver;
                let ghost mid = *self;
                assert(callee_set(
                    *old(self),
                    mid,
                    count,
                    old(self).heap.bound_methods[bound.index as int].receiver,
                ));
                let request = self.call(method, count);
                assert(callee_set(
                    *old(self),
                    mid,
                    count,
                    old(self).heap.bound_methods[bound.index as int].receiver,
                ) && call_effect(mid, *self, method, count, request));
                request
            },
            _ => self.runtime_error("Can only call functions and classes.".to_string()),
        }
    }

    pub fn op_call(&mut self, count: u8) -> (request: Request)
        requires
            old(self).wf(),
        ensures
            final(self).wf(),
            call_op_effect(*old(self), *final(self), count, request),
    {
        let n = self.stack.len();
        if n < count as usize + 1 {
            return Request::Corrupt;
        }
        let callee = self.stack[n - 1 - count as usize].clone();
        self.call_value(callee, count)
    }

    /// The cell of the captured variable in `slot`.
    fn read_upvalue_cell(&self, slot: u8) -> (cell: Option<ObjUpvalue>)
        ensures
            cell == upvalue_cell(*self, slot),
    {
        let n = self.frames.len();
        if n == 0 {
            return None;
        }
        let closure = self.frames[n - 1].closure;
        if closure.index >= self.heap.closures.len() {
            return None;
        }
        if slot as usize >= self.heap.closures[closure.index].upvalues.len() {
            return None;
        }
        let cell = self.heap.closures[closure.index].upvalues[slot as usize];
        if cell.index >= self.heap.upvalues.len() {
            return None;
        }
        Some(cell)
    }

    pub fn op_get_upvalue(&mut self, slot: u8) -> (request: Request)
        ensures
            get_upvalue_effect(*old(self), *final(self), slot, request),
            old(self).wf() ==> final(self).wf(),
    {
        let cell = match self.read_upvalue_cell(slot) {
            Some(cell) => cell,
            None => {
                return Request::Corrupt;
            },
        };
        let value = match &self.heap.upvalues[cell.index] {
            UpvalueLocation::Stack(place) => {
                if *place < self.stack.len() {
                    Some(self.stack[*place].clone())
                } else {
                    None
                }
            },
            UpvalueLocation::Heap(value) => Some(value.clone()),
        };
        match value {
            Some(value) => {
                self.push(value);
                Request::Continue
            },
            None => Request::Corrupt,
        }
    }

    pub fn op_set_upvalue(&mut self, slot: u8) -> (request: Request)
        ensures
            set_upvalue_effect(*old(self), *final(self), slot, request),
            old(self).wf() ==> final(self).wf(),
    {
        let cell = match self.read_upvalue_cell(slot) {
            Some(cell) => cell,
            None => {
                return Request::Corrupt;
            },
        };
        let n = self.stack.len();
        if n == 0 {
            return Request::Corrupt;
        }
        let value = self.stack[n - 1].clone();
        let place = match &self.heap.upvalues[cell.index] {
            UpvalueLocation::Stack(place) => Some(*place),
            UpvalueLocation::Heap(_) => None,
        };
        match place {
            Some(place) => {
                if place < n {
                    self.stack[place] = value;
                    Request::Continue
                } else {
                    Request::Corrupt
                }
            },
            None => {
                self.heap.upvalues[cell.index] = UpvalueLocation::Heap(value);
                Request::Continue
            },
        }
    }

    pub fn op_close_upvalue(&mut self) -> (request: Request)
        ensures
            close_upvalue_effect(*old(self), *final(self), request),
            old(self).wf() ==> final(self).wf(),
    {
        let n = self.stack.len();
        if n == 0 {
            return Request::Corrupt;
        }
        if !self.close_upvalues(n - 1) {
            return Request::Corrupt;
        }
        self.stack.truncate(n - 1);
        Request::Continue
    }

    pub fn op_return(&mut self) -> (request: Request)
        ensures
            return_effect(*old(self), *final(self), request),
            old(self).wf() ==> final(self).wf(),
    {
        if self.stack.len() == 0 || self.frames.len() == 0 {
            return Request::Corrupt;
        }
        let frame = self.frames[self.frames.len() - 1];
        let depth = self.frames.len();
        let value = self.stack[self.stack.len() - 1].clone();
        self.stack.truncate(self.stack.len() - 1);
        if !self.close_upvalues(frame.slots) {
            self.stack.push(value);
            assert(self.stack@ == old(self).stack@);
            return Request::Corrupt;
        }
        self.frames.truncate(depth - 1);
        if depth == 1 {
            let n = self.stack.len();
            if n > 0 {
                self.stack.truncate(n - 1);
            }
            Request::Finished
        } else {
            if frame.slots <= self.stack.len() {
                self.stack.truncate(frame.slots);
            }
            self.stack.push(value);
            Request::Continue
        }
    }
}

/// The message for a call with `count` arguments where `arity` are
/// expected.
fn arity_message(arity: usize, count: u8) -> (message: String)
    ensures
        message@ == wrong_arity(arity as nat, count as nat),
{
    let mut message = "Expected ".to_string();
    message.append(decimal_string(arity).as_str());
    message.append(" arguments, but got ");
    message.append(decimal_string(count as usize).as_str());
    message.append(".");
    message
}

} // verus!
