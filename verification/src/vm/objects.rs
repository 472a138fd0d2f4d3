//! Closures, classes, instances and methods.

use vstd::prelude::*;
use vstd::string::StringExecFns;
use crate::classes::{BoundMethod, BoundMethodRef, Clazz, ClazzRef};
use crate::function::{Closure, ClosureRef, Function, ObjUpvalue, UpvalueLocation};
use crate::intern_string::Symbol;
use crate::table::Table;
use crate::value::Value;
use crate::vm::calls::{call_effect, call_value_effect, callee_set, find_open, rest_same};
use crate::vm::operators::{popped, replaced};
use crate::vm::{failed, CallFrame, Request, VM};

verus! {

/// The message for a property that an instance and its class lack.
pub open spec fn undefined_property(name: Seq<char>) -> Seq<char> {
    "Undefined property '"@ + name + "'."@
}

pub open spec fn only_instances_have_properties() -> Seq<char> {
    "Only instances have properties."@
}

pub open spec fn only_instances_have_methods() -> Seq<char> {
    "Only instances have methods."@
}

pub open spec fn superclass_must_be_a_class() -> Seq<char> {
    "Superclass must be a class."@
}

/// `Class`: a new class of the given name, without methods, is pushed.
pub open spec fn class_effect(pre: VM, post: VM, index: u8, request: Request) -> bool {
    match pre.name_constant(index) {
        Some(name) => {
            &&& request is Continue
            &&& post.heap.classes@.len() == pre.heap.classes@.len() + 1
            &&& post.heap.classes@.drop_last() == pre.heap.classes@
            &&& post.heap.classes@.last().name == name
            &&& post.heap.classes@.last().methods.wf()
            &&& forall|key: Seq<char>| post.heap.classes@.last().methods.lookup(key).is_none()
            &&& post.heap.same_but_classes(&pre.heap)
            &&& post.stack@ == pre.stack@.push(
                Value::Class(ClazzRef { index: pre.heap.classes@.len() as usize }),
            )
            &&& post.frames == pre.frames
            &&& post.open_upvalues == pre.open_upvalues
            &&& rest_same(pre, post)
        },
        None => request is Corrupt,
    }
}

/// Binding the method `name` of `class` to the value on top of the stack:
/// the value makes way for a new bound method of which it is the
/// receiver; a class without that method is a run-time error.
pub open spec fn bind_effect(
    pre: VM,
    post: VM,
    class: ClazzRef,
    name: Symbol,
    request: Request,
) -> bool {
    if !class.valid(&pre.heap) || pre.stack@.len() == 0 {
        request is Corrupt
    } else {
        match pre.heap.classes@[class.index as int].methods.lookup(name@) {
            Some(method) => {
                &&& request is Continue
                &&& post.heap.bound_methods@ == pre.heap.bound_methods@.push(
                    BoundMethod { receiver: pre.stack@.last(), method },
                )
                &&& post.heap.same_but_bound_methods(&pre.heap)
                &&& post.stack@ == pre.stack@.drop_last().push(
                    Value::BoundMethod(
                        BoundMethodRef { index: pre.heap.bound_methods@.len() as usize },
                    ),
                )
                &&& post.frames == pre.frames
                &&& post.open_upvalues == pre.open_upvalues
                &&& rest_same(pre, post)
            },
            None => request is Failed && failed(pre, post, undefined_property(name@)),
        }
    }
}

/// Invoking the method `name` of `class` with `count` arguments: the
/// method is called; a class without it is a run-time error.
pub open spec fn invoke_from_class_effect(
    pre: VM,
    post: VM,
    class: ClazzRef,
    name: Symbol,
    count: u8,
    request: Request,
) -> bool {
    if !class.valid(&pre.heap) {
        request is Corrupt
    } else {
        match pre.heap.classes@[class.index as int].methods.lookup(name@) {
            Some(method) => call_effect(pre, post, method, count, request),
            None => request is Failed && failed(pre, post, undefined_property(name@)),
        }
    }
}

/// `GetProperty`: the instance on top of the stack makes way for its
/// field of that name or, where it has none, for the method of that name
/// bound to it. Anything but an instance is a run-time error.
pub open spec fn get_property_effect(pre: VM, post: VM, index: u8, request: Request) -> bool {
    match pre.name_constant(index) {
        Some(name) => if pre.stack@.len() == 0 {
            request is Corrupt
        } else {
            match pre.stack@.last() {
                Value::Instance(instance) => if !instance.valid(&pre.heap) {
                    request is Corrupt
                } else {
                    match pre.heap.instances@[instance.index as int].fields.lookup(name@) {
                        Some(value) => request is Continue && replaced(pre, post, 1, value),
                        None => bind_effect(
                            pre,
                            post,
                            pre.heap.instances@[instance.index as int].clazz,
                            name,
                            request,
                        ),
                    }
                },
                _ => request is Failed && failed(pre, post, only_instances_have_properties()),
            }
        },
        None => request is Corrupt,
    }
}

/// `SetProperty`: the field of that name of the instance below the top
/// takes the value on top; both make way for the value. Anything but an
/// instance is a run-time error.
pub open spec fn set_property_effect(pre: VM, post: VM, index: u8, request: Request) -> bool {
    let n = pre.stack@.len() as int;
    match pre.name_constant(index) {
        Some(name) => if n < 2 {
            request is Corrupt
        } else {
            match pre.stack@[n - 2] {
                Value::Instance(instance) => if !instance.valid(&pre.heap) {
                    request is Corrupt
                } else {
                    let i = instance.index as int;
                    &&& request is Continue
                    &&& post.heap.instances@.len() == pre.heap.instances@.len()
                    &&& forall|j: int|
                        0 <= j < pre.heap.instances@.len() && j != i
                            ==> #[trigger] post.heap.instances@[j] == pre.heap.instances@[j]
                    &&& post.heap.instances@[i].clazz == pre.heap.instances@[i].clazz
                    &&& post.heap.instances@[i].fields.wf()
                    &&& forall|k: Seq<char>|
                        #[trigger] post.heap.instances@[i].fields.lookup(k) == if k == name@ {
                            Some(pre.stack@[n - 1])
                        } else {
                            pre.heap.instances@[i].fields.lookup(k)
                        }
                    &&& post.heap.same_but_instances(&pre.heap)
                    &&& post.stack@ == pre.stack@.take(n - 2).push(pre.stack@[n - 1])
                    &&& post.frames == pre.frames
                    &&& post.open_upvalues == pre.open_upvalues
                    &&& rest_same(pre, post)
                },
                _ => request is Failed && failed(pre, post, only_instances_have_properties()),
            }
        },
        None => request is Corrupt,
    }
}

/// The methods of a class, by name.
pub type Methods = spec_fn(Seq<char>) -> Option<ClosureRef>;

/// The methods of a class after it was given `method` under `name`: that
/// method under that name, and under every other name what it had.
pub open spec fn defined(methods: Methods, name: Seq<char>, method: ClosureRef) -> Methods {
    |k: Seq<char>|
        if k == name {
            Some(method)
        } else {
            methods(k)
        }
}

/// The methods of a class after it has inherited from `parent`: every
/// method of `parent`, and its own under the names that `parent` lacks.
pub open spec fn inherited(parent: Methods, own: Methods) -> Methods {
    |k: Seq<char>|
        match parent(k) {
            Some(method) => Some(method),
            None => own(k),
        }
}

/// The methods of class `class` are those of before, but for `changed`,
/// which says what each name gives now; every other class is as before.
pub open spec fn methods_changed(
    pre: VM,
    post: VM,
    class: ClazzRef,
    changed: spec_fn(Seq<char>) -> Option<ClosureRef>,
) -> bool {
    let i = class.index as int;
    &&& post.heap.classes@.len() == pre.heap.classes@.len()
    &&& forall|j: int|
        0 <= j < pre.heap.classes@.len() && j != i ==> #[trigger] post.heap.classes@[j]
            == pre.heap.classes@[j]
    &&& post.heap.classes@[i].name == pre.heap.classes@[i].name
    &&& post.heap.classes@[i].methods.wf()
    &&& forall|k: Seq<char>| #[trigger] post.heap.classes@[i].methods.lookup(k) == changed(k)
    &&& post.heap.same_but_classes(&pre.heap)
    &&& post.stack@ == pre.stack@.drop_last()
    &&& post.frames == pre.frames
    &&& post.open_upvalues == pre.open_upvalues
    &&& rest_same(pre, post)
}

/// `Method`: the class below the top gets the closure on top as its
/// method of that name, in place of one it had; the closure leaves the
/// stack.
pub open spec fn method_effect(pre: VM, post: VM, index: u8, request: Request) -> bool {
    let n = pre.stack@.len() as int;
    match pre.name_constant(index) {
        Some(name) => if n < 2 {
            request is Corrupt
        } else {
            match (pre.stack@[n - 2], pre.stack@[n - 1]) {
                (Value::Class(class), Value::Closure(method)) => if class.valid(&pre.heap) {
                    request is Continue && methods_changed(
                        pre,
                        post,
                        class,
                        defined(
                            |k: Seq<char>| pre.heap.classes@[class.index as int].methods.lookup(k),
                            name@,
                            method,
                        ),
                    )
                } else {
                    request is Corrupt
                },
                _ => request is Corrupt,
            }
        },
        None => request is Corrupt,
    }
}

/// `Inherit`: the class on top gets every method of the class below it,
/// in place of its own of the same name, and leaves the stack. A
/// superclass that is no class is a run-time error.
pub open spec fn inherit_effect(pre: VM, post: VM, request: Request) -> bool {
    let n = pre.stack@.len() as int;
    if n < 2 {
        request is Corrupt
    } else {
        match pre.stack@[n - 2] {
            Value::Class(superclass) => match pre.stack@[n - 1] {
                Value::Class(subclass) => if superclass.valid(&pre.heap) && subclass.valid(
                    &pre.heap,
                ) {
                    request is Continue && methods_changed(
                        pre,
                        post,
                        subclass,
                        inherited(
                            |k: Seq<char>|
                                pre.heap.classes@[superclass.index as int].methods.lookup(k),
                            |k: Seq<char>|
                                pre.heap.classes@[subclass.index as int].methods.lookup(k),
                        ),
                    )
                } else {
                    request is Corrupt
                },
                _ => request is Corrupt,
            },
            _ => request is Failed && failed(pre, post, superclass_must_be_a_class()),
        }
    }
}

/// `Invoke`: the instance below the `count` arguments is asked for
/// `name`. A field of that name takes the instance's place and is called;
/// else the method of that name of the instance's class is called.
/// Anything but an instance is a run-time error.
pub open spec fn invoke_effect(pre: VM, post: VM, index: u8, count: u8, request: Request) -> bool {
    let n = pre.stack@.len() as int;
    match pre.name_constant(index) {
        Some(name) => if n < count + 1 {
            request is Corrupt
        } else {
            match pre.stack@[n - 1 - count] {
                Value::Instance(instance) => if !instance.valid(&pre.heap) {
                    request is Corrupt
                } else {
                    match pre.heap.instances@[instance.index as int].fields.lookup(name@) {
                        Some(value) => exists|mid: VM|
                            callee_set(pre, mid, count, value) && call_value_effect(
                                mid,
                                post,
                                value,
                                count,
                                request,
                            ),
                        None => invoke_from_class_effect(
                            pre,
                            post,
                            pre.heap.instances@[instance.index as int].clazz,
                            name,
                            count,
                            request,
                        ),
                    }
                },
                _ => request is Failed && failed(pre, post, only_instances_have_methods()),
            }
        },
        None => request is Corrupt,
    }
}

/// `GetSuper`: the superclass leaves the stack, and its method of that
/// name is bound to the value below it.
pub open spec fn get_super_effect(pre: VM, post: VM, index: u8, request: Request) -> bool {
    match pre.name_constant(index) {
        Some(name) => if pre.stack@.len() == 0 {
            request is Corrupt
        } else {
            match pre.stack@.last() {
                Value::Class(superclass) => exists|mid: VM|
                    popped(pre, mid, 1) && bind_effect(mid, post, superclass, name, request),
                _ => request is Failed && failed(pre, post, superclass_must_be_a_class()),
            }
        },
        None => request is Corrupt,
    }
}

/// `SuperInvoke`: the superclass leaves the stack, and its method of that
/// name is called with the `count` arguments below it.
pub open spec fn super_invoke_effect(
    pre: VM,
    post: VM,
    index: u8,
    count: u8,
    request: Request,
) -> bool {
    match pre.name_constant(index) {
        Some(name) => if pre.stack@.len() == 0 {
            request is Corrupt
        } else {
            match pre.stack@.last() {
                Value::Class(superclass) => exists|mid: VM|
                    popped(pre, mid, 1) && invoke_from_class_effect(
                        mid,
                        post,
                        superclass,
                        name,
                        count,
                        request,
                    ),
                _ => request is Failed && failed(pre, post, superclass_must_be_a_class()),
            }
        },
        None => request is Corrupt,
    }
}

/// What capturing the variables of a new closure has come to.
pub struct Capturing {
    /// The cells captured so far.
    pub cells: Seq<ObjUpvalue>,
    /// The cells of the heap.
    pub upvalues: Seq<UpvalueLocation>,
    /// The open list.
    pub open: Seq<ObjUpvalue>,
    /// Whether every pair of operands could be read and followed.
    pub ok: bool,
}

/// The state of capturing after `count` of the pairs of operands that
/// follow the instruction pointer. A pair is a flag and an index. With
/// the flag set, the local in that slot of the innermost frame is
/// captured: its open cell is shared where there is one, else a new open
/// cell is made. Without the flag, the cell at that index of the
/// innermost frame's closure is shared.
pub open spec fn capturing(pre: VM, count: int) -> Capturing
    decreases count,
{
    if count <= 0 {
        Capturing {
            cells: Seq::empty(),
            upvalues: pre.heap.upvalues@,
            open: pre.open_upvalues@,
            ok: pre.chunk().is_some(),
        }
    } else {
        let before = capturing(pre, count - 1);
        let chunk = pre.chunk()->0;
        let frame = pre.frames@.last();
        let at = frame.ip + 2 * (count - 1);
        if !before.ok || at + 1 >= chunk.code@.len() {
            Capturing { ok: false, ..before }
        } else {
            let index = chunk.code@[at + 1].byte;
            if chunk.code@[at].byte != 0 {
                let slot = frame.slots + index;
                if slot > usize::MAX {
                    Capturing { ok: false, ..before }
                } else {
                    match find_open(before.open, before.upvalues, slot, before.open.len() as int) {
                        Some(cell) => Capturing { cells: before.cells.push(cell), ..before },
                        None => {
                            let cell = ObjUpvalue { index: before.upvalues.len() as usize };
                            Capturing {
                                cells: before.cells.push(cell),
                                upvalues: before.upvalues.push(
                                    UpvalueLocation::Stack(slot as usize),
                                ),
                                open: before.open.push(cell),
                                ok: true,
                            }
                        },
                    }
                }
            } else {
                let own = pre.heap.closures@[frame.closure.index as int].upvalues@;
                if index < own.len() {
                    Capturing { cells: before.cells.push(own[index as int]), ..before }
                } else {
                    Capturing { ok: false, ..before }
                }
            }
        }
    }
}

/// `Closure`: a closure of the function constant is made and pushed. It
/// captures as many variables as the function says, each as the pair of
/// operands in its place tells; the instruction pointer moves past the
/// pairs.
pub open spec fn closure_effect(pre: VM, post: VM, index: u8, request: Request) -> bool {
    match pre.constant(index) {
        Some(Value::Function(function)) => if function.valid(&pre.heap) {
            let count = pre.heap.functions@[function.index as int].upvalue_count as int;
            let done = capturing(pre, count);
            if done.ok {
                &&& request is Continue
                &&& post.heap.upvalues@ == done.upvalues
                &&& post.open_upvalues@ == done.open
                &&& post.heap.closures@.len() == pre.heap.closures@.len() + 1
                &&& post.heap.closures@.drop_last() == pre.heap.closures@
                &&& post.heap.closures@.last().function == function
                &&& post.heap.closures@.last().upvalues@ == done.cells
                &&& post.heap.functions == pre.heap.functions
                &&& post.heap.classes == pre.heap.classes
                &&& post.heap.instances == pre.heap.instances
                &&& post.heap.bound_methods == pre.heap.bound_methods
                &&& post.stack@ == pre.stack@.push(
                    Value::Closure(ClosureRef { index: pre.heap.closures@.len() as usize }),
                )
                &&& post.frames@ == pre.frames@.update(
                    pre.frames@.len() - 1,
                    CallFrame {
                        ip: (pre.frames@.last().ip + 2 * count) as usize,
                        ..pre.frames@.last()
                    },
                )
                &&& rest_same(pre, post)
            } else {
                request is Corrupt
            }
        } else {
            request is Corrupt
        },
        _ => request is Corrupt,
    }
}

/// Copies the entries of a method table.
fn copy_methods(table: &Table<ClosureRef>) -> (copy: Vec<(Symbol, ClosureRef)>)
    ensures
        copy@.len() == table.entries@.len(),
        forall|i: int|
            0 <= i < copy@.len() ==> (#[trigger] copy@[i]).0@ == table.entries@[i].0@ && copy@[i].1
                == table.entries@[i].1,
{
    let mut copy: Vec<(Symbol, ClosureRef)> = Vec::new();
    let mut i: usize = 0;
    while i < table.entries.len()
        invariant
            i <= table.entries.len(),
            copy@.len() == i,
            forall|k: int|
                0 <= k < i ==> (#[trigger] copy@[k]).0@ == table.entries@[k].0@ && copy@[k].1
                    == table.entries@[k].1,
        decreases table.entries.len() - i,
    {
        let name = table.entries[i].0.clone();
        let method = table.entries[i].1;
        copy.push((name, method));
        i += 1;
    }
    copy
}

impl VM {
    pub fn op_class(&mut self, index: u8) -> (request: Request)
        requires
            old(self).wf(),
        ensures
            final(self).wf(),
            class_effect(*old(self), *final(self), index, request),
    {
        let name = match self.read_string(index) {
            Some(name) => name,
            None => {
                return Request::Corrupt;
            },
        };
        let class = self.heap.new_class(Clazz::new(name));
        self.stack.push(Value::Class(class));
        assert(self.heap.classes@.drop_last() == old(self).heap.classes@);
        Request::Continue
    }

    /// Binds the method `name` of `class` to the value on top of the
    /// stack.
    pub fn bind_method(&mut self, class: ClazzRef, name: Symbol) -> (request: Request)
        requires
            old(self).wf(),
        ensures
            final(self).wf(),
            bind_effect(*old(self), *final(self), class, name, request),
    {
        let n = self.stack.len();
        if class.index >= self.heap.classes.len() || n == 0 {
            return Request::Corrupt;
        }
        match self.heap.classes[class.index].get_method(&name) {
            Some(method) => {
                let receiver = self.stack[n - 1].clone();
                let bound = self.heap.new_bound_method(BoundMethod::new(receiver, method));
                self.stack.truncate(n - 1);
                self.stack.push(Value::BoundMethod(bound));
                Request::Continue
            },
            None => {
                let message = property_message(&name);
                self.runtime_error(message)
            },
        }
    }

    /// Calls the method `name` of `class` with the `count` arguments on
    /// the stack.
    pub fn invoke_from_class(&mut self, class: ClazzRef, name: &Symbol, count: u8) -> (request:
        Request)
        requires
            old(self).wf(),
        ensures
            final(self).wf(),
            invoke_from_class_effect(*old(self), *final(self), class, *name, count, request),
    {
        if class.index >= self.heap.classes.len() {
            return Request::Corrupt;
        }
        match self.heap.classes[class.index].get_method(name) {
            Some(method) => self.call(method, count),
            None => {
                let message = property_message(name);
                self.runtime_error(message)
            },
        }
    }

    pub fn op_get_property(&mut self, index: u8) -> (request: Request)
        requires
            old(self).wf(),
        ensures
            final(self).wf(),
            get_property_effect(*old(self), *final(self), index, request),
    {
        let name = match self.read_string(index) {
            Some(name) => name,
            None => {
                return Request::Corrupt;
            },
        };
        let n = self.stack.len();
        if n == 0 {
            return Request::Corrupt;
        }
        let instance = match &self.stack[n - 1] {
            Value::Instance(instance) => Some(*instance),
            _ => None,
        };
        match instance {
            Some(instance) => {
                if instance.index >= self.heap.instances.len() {
                    return Request::Corrupt;
                }
                let field = match self.heap.instances[instance.index].get_value(&name) {
                    Some(value) => Some(value.clone()),
                    None => None,
                };
                match field {
                    Some(value) => {
                        self.replace_values(1, value);
                        Request::Continue
                    },
                    None => {
                        let class = self.heap.instances[instance.index].clazz;
                        self.bind_method(class, name)
                    },
                }
            },
            None => self.runtime_error("Only instances have properties.".to_string()),
        }
    }

    pub fn op_set_property(&mut self, index: u8) -> (request: Request)
        requires
            old(self).wf(),
        ensures
            final(self).wf(),
            set_property_effect(*old(self), *final(self), index, request),
    {
        let name = match self.read_string(index) {
            Some(name) => name,
            None => {
                return Request::Corrupt;
            },
        };
        let n = self.stack.len();
        if n < 2 {
            return Request::Corrupt;
        }
        let instance = match &self.stack[n - 2] {
            Value::Instance(instance) => Some(*instance),
            _ => None,
        };
        match instance {
            Some(instance) => {
                if instance.index >= self.heap.instances.len() {
                    return Request::Corrupt;
                }
                let value = self.stack[n - 1].clone();
                self.heap.instances[instance.index].set_value(name, value.clone());
                self.stack.truncate(n - 2);
                self.stack.push(value);
                Request::Continue
            },
            None => self.runtime_error("Only instances have properties.".to_string()),
        }
    }

    pub fn op_method(&mut self, index: u8) -> (request: Request)
        requires
            old(self).wf(),
        ensures
            final(self).wf(),
            method_effect(*old(self), *final(self), index, request),
    {
        let name = match self.read_string(index) {
            Some(name) => name,
            None => {
                return Request::Corrupt;
            },
        };
        let n = self.stack.len();
        if n < 2 {
            return Request::Corrupt;
        }
        let pair = match (&self.stack[n - 2], &self.stack[n - 1]) {
            (Value::Class(class), Value::Closure(method)) => Some((*class, *method)),
            _ => None,
        };
        match pair {
            Some((class, method)) => {
                if class.index >= self.heap.classes.len() {
                    return Request::Corrupt;
                }
                self.heap.classes[class.index].set_method(name, method);
                self.stack.truncate(n - 1);
                Request::Continue
            },
            None => Request::Corrupt,
        }
    }

    pub fn op_inherit(&mut self) -> (request: Request)
        requires
            old(self).wf(),
        ensures
            final(self).wf(),
            inherit_effect(*old(self), *final(self), request),
    {
        let n = self.stack.len();
        if n < 2 {
            return Request::Corrupt;
        }
        let superclass = match &self.stack[n - 2] {
            Value::Class(class) => *class,
            _ => {
                return self.runtime_error("Superclass must be a class.".to_string());
            },
        };
        let subclass = match &self.stack[n - 1] {
            Value::Class(class) => *class,
            _ => {
                return Request::Corrupt;
            },
        };
        if superclass.index >= self.heap.classes.len() || subclass.index
            >= self.heap.classes.len() {
            return Request::Corrupt;
        }
        let methods = copy_methods(&self.heap.classes[superclass.index].methods);
        let ghost parent = old(self).heap.classes@[superclass.index as int].methods;
        let ghost child = old(self).heap.classes@[subclass.index as int].methods;
        let mut i: usize = 0;
        while i < methods.len()
            invariant
                i <= methods.len(),
                old(self).wf(),
                self.wf(),
                subclass.valid(&self.heap),
                superclass.valid(&old(self).heap),
                methods@.len() == parent.entries@.len(),
                parent.wf(),
                parent == old(self).heap.classes@[superclass.index as int].methods,
                child == old(self).heap.classes@[subclass.index as int].methods,
                forall|k: int|
                    0 <= k < methods@.len() ==> (#[trigger] methods@[k]).0@ == parent.entries@[k].0@
                        && methods@[k].1 == parent.entries@[k].1,
                self.heap.classes@.len() == old(self).heap.classes@.len(),
                forall|j: int|
                    0 <= j < self.heap.classes@.len() && j != subclass.index
                        ==> #[trigger] self.heap.classes@[j] == old(self).heap.classes@[j],
                self.heap.classes@[subclass.index as int].name == old(
                    self,
                ).heap.classes@[subclass.index as int].name,
                self.heap.same_but_classes(&old(self).heap),
                self.stack == old(self).stack,
                self.frames == old(self).frames,
                self.open_upvalues == old(self).open_upvalues,
                rest_same(*old(self), *self),
                forall|key: Seq<char>|
                    #[trigger] self.heap.classes@[subclass.index as int].methods.lookup(key) == if (
                    exists|k: int| 0 <= k < i && (#[trigger] parent.entries@[k]).0@ == key) {
                        parent.lookup(key)
                    } else {
                        child.lookup(key)
                    },
            decreases methods.len() - i,
        {
            let name = methods[i].0.clone();
            let method = methods[i].1;
            let ghost before = self.heap.classes@[subclass.index as int].methods;
            self.heap.classes[subclass.index].set_method(name, method);
            proof {
                parent.lookup_at(i as int);
                assert forall|key: Seq<char>| #[trigger]
                    self.heap.classes@[subclass.index as int].methods.lookup(key) == if (exists|
                        k: int,
                    |
                        0 <= k < i + 1 && (#[trigger] parent.entries@[k]).0@ == key) {
                        parent.lookup(key)
                    } else {
                        child.lookup(key)
                    } by {
                    if key == name@ {
                        assert(parent.entries@[i as int].0@ == key);
                    } else {
                        assert(self.heap.classes@[subclass.index as int].methods.lookup(key)
                            == before.lookup(key));
                        if exists|k: int| 0 <= k < i + 1 && (#[trigger] parent.entries@[k]).0@ == key {
                            let k = choose|k: int|
                                0 <= k < i + 1 && (#[trigger] parent.entries@[k]).0@ == key;
                            assert(k < i);
                        }
                    }
                }
            }
            i += 1;
        }
        self.stack.truncate(n - 1);
        proof {
            let sub = self.heap.classes@[subclass.index as int].methods;
            assert forall|key: Seq<char>| #[trigger] sub.lookup(key) == (match parent.lookup(key) {
                Some(method) => Some(method),
                None => child.lookup(key),
            }) by {
                if parent.contains(key) {
                    let k = parent.index_of(key);
                    assert(parent.entries@[k].0@ == key);
                } else {
                }
            }
        }
        Request::Continue
    }

    pub fn op_invoke(&mut self, index: u8, count: u8) -> (request: Request)
        requires
            old(self).wf(),
        ensures
            final(self).wf(),
            invoke_effect(*old(self), *final(self), index, count, request),
    {
        let name = match self.read_string(index) {
            Some(name) => name,
            None => {
                return Request::Corrupt;
            },
        };
        let n = self.stack.len();
        if n < count as usize + 1 {
            return Request::Corrupt;
        }
        let instance = match &self.stack[n - 1 - count as usize] {
            Value::Instance(instance) => Some(*instance),
            _ => None,
        };
        match instance {
            Some(instance) => {
                if instance.index >= self.heap.instances.len() {
                    return Request::Corrupt;
                }
                let field = match self.heap.instances[instance.index].get_value(&name) {
                    Some(value) => Some(value.clone()),
                    None => None,
                };
                match field {
                    Some(value) => {
                        self.stack[n - 1 - count as usize] = value.clone();
                        let ghost mid = *self;
                        let request = self.call_value(value, count);
                        assert(callee_set(*old(self), mid, count, value) && call_value_effect(
                            mid,
                            *self,
                            value,
                            count,
                            request,
                        ));
                        request
                    },
                    None => {
                        let class = self.heap.instances[instance.index].clazz;
                        self.invoke_from_class(class, &name, count)
                    },
                }
            },
            None => self.runtime_error("Only instances have methods.".to_string()),
        }
    }

    pub fn op_get_super(&mut self, index: u8) -> (request: Request)
        requires
            old(self).wf(),
        ensures
            final(self).wf(),
            get_super_effect(*old(self), *final(self), index, request),
    {
        let name = match self.read_string(index) {
            Some(name) => name,
            None => {
                return Request::Corrupt;
            },
        };
        let n = self.stack.len();
        if n == 0 {
            return Request::Corrupt;
        }
        let superclass = match &self.stack[n - 1] {
            Value::Class(class) => Some(*class),
            _ => None,
        };
        match superclass {
            Some(superclass) => {
                self.drop_values(1);
                let ghost mid = *self;
                let request = self.bind_method(superclass, name);
                assert(popped(*old(self), mid, 1) && bind_effect(
                    mid,
                    *self,
                    superclass,
                    name,
                    request,
                ));
                request
            },
            None => self.runtime_error("Superclass must be a class.".to_string()),
        }
    }

    pub fn op_super_invoke(&mut self, index: u8, count: u8) -> (request: Request)
        requires
            old(self).wf(),
        ensures
            final(self).wf(),
            super_invoke_effect(*old(self), *final(self), index, count, request),
    {
        let name = match self.read_string(index) {
            Some(name) => name,
            None => {
                return Request::Corrupt;
            },
        };
        let n = self.stack.len();
        if n == 0 {
            return Request::Corrupt;
        }
        let superclass = match &self.stack[n - 1] {
            Value::Class(class) => Some(*class),
            _ => None,
        };
        match superclass {
            Some(superclass) => {
                self.drop_values(1);
                let ghost mid = *self;
                let request = self.invoke_from_class(superclass, &name, count);
                assert(popped(*old(self), mid, 1) && invoke_from_class_effect(
                    mid,
                    *self,
                    superclass,
                    name,
                    count,
                    request,
                ));
                request
            },
            None => self.runtime_error("Superclass must be a class.".to_string()),
        }
    }

    pub fn op_closure(&mut self, index: u8) -> (request: Request)
        requires
            old(self).wf(),
        ensures
            final(self).wf(),
            closure_effect(*old(self), *final(self), index, request),
    {
        let function = match self.read_constant(index) {
            Some(Value::Function(function)) => function,
            _ => {
                return Request::Corrupt;
            },
        };
        if function.index >= self.heap.functions.len() {
            return Request::Corrupt;
        }
        let depth = self.frames.len();
        if depth == 0 {
            return Request::Corrupt;
        }
        let frame = self.frames[depth - 1];
        if frame.closure.index >= self.heap.closures.len() {
            return Request::Corrupt;
        }
        let count = self.heap.functions[function.index].upvalue_count;
        let mut closure = Closure::new(function);
        let mut at = frame.ip;
        let mut i: usize = 0;
        while i < count
            invariant
                old(self).wf(),
                self.wf(),
                i <= count,
                depth == self.frames.len(),
                depth > 0,
                frame == self.frames@[depth - 1],
                frame.closure.valid(&self.heap),
                function.valid(&self.heap),
                old(self).chunk().is_some(),
                at == frame.ip + 2 * i,
                closure.function == function,
                self.frames == old(self).frames,
                self.stack == old(self).stack,
                self.heap.functions == old(self).heap.functions,
                self.heap.closures == old(self).heap.closures,
                self.heap.classes == old(self).heap.classes,
                self.heap.instances == old(self).heap.instances,
                self.heap.bound_methods == old(self).heap.bound_methods,
                rest_same(*old(self), *self),
                old(self).constant(index) == Some(Value::Function(function)),
                count == old(self).heap.functions@[function.index as int].upvalue_count,
                capturing(*old(self), i as int).ok,
                capturing(*old(self), i as int).cells =~= closure.upvalues@,
                capturing(*old(self), i as int).upvalues =~= self.heap.upvalues@,
                capturing(*old(self), i as int).open =~= self.open_upvalues@,
            decreases count - i,
        {
            proof {
                assert(self.chunk() == old(self).chunk());
                assert(self.frames@.last() == old(self).frames@.last());
            }
            let ghost before = capturing(*old(self), i as int);
            let ghost after = capturing(*old(self), i + 1);
            let pair = match self.current_chunk() {
                Some(chunk) => {
                    if at < chunk.len() && at + 1 < chunk.len() {
                        Some((chunk.get_code_unit(at).byte, chunk.get_code_unit(at + 1).byte))
                    } else {
                        None
                    }
                },
                None => None,
            };
            let (is_local, index) = match pair {
                Some(pair) => pair,
                None => {
                    proof {
                        assert(!after.ok);
                        capturing_stays_failed(*old(self), i + 1, count as int);
                    }
                    return Request::Corrupt;
                },
            };
            if is_local != 0 {
                if index as usize > usize::MAX - frame.slots {
                    proof {
                        assert(!after.ok);
                        capturing_stays_failed(*old(self), i + 1, count as int);
                    }
                    return Request::Corrupt;
                }
                let cell = self.capture_upvalue(frame.slots + index as usize);
                closure.push_upvalue(cell);
            } else {
                if index as usize >= self.heap.closures[frame.closure.index].upvalues.len() {
                    proof {
                        assert(!after.ok);
                        capturing_stays_failed(*old(self), i + 1, count as int);
                    }
                    return Request::Corrupt;
                }
                let cell = self.heap.closures[frame.closure.index].upvalues[index as usize];
                closure.push_upvalue(cell);
            }
            proof {
                assert(after.ok);
                assert(after.cells =~= closure.upvalues@);
                assert(after.upvalues =~= self.heap.upvalues@);
                assert(after.open =~= self.open_upvalues@);
            }
            at += 2;
            i += 1;
        }
        let made = self.heap.new_closure(closure);
        self.stack.push(Value::Closure(made));
        self.frames[depth - 1].ip = at;
        assert(self.heap.closures@.drop_last() == old(self).heap.closures@);
        Request::Continue
    }
}

/// Once capturing has failed, it stays failed.
pub proof fn capturing_stays_failed(pre: VM, failed_at: int, count: int)
    requires
        0 <= failed_at <= count,
        !capturing(pre, failed_at).ok,
    ensures
        !capturing(pre, count).ok,
    decreases count - failed_at,
{
    if failed_at < count {
        capturing_stays_failed(pre, failed_at + 1, count);
    }
}

/// The message for the missing property `name`.
fn property_message(name: &Symbol) -> (message: String)
    ensures
        message@ == undefined_property(name@),
{
    let mut message = "Undefined property '".to_string();
    message.append(name.as_str());
    message.append("'.");
    message
}

} // verus!
