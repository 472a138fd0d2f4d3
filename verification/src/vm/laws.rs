//! What holds of captured variables and of method tables.

use vstd::prelude::*;
use crate::classes::ClazzRef;
use crate::function::{ClosureRef, ObjUpvalue, UpvalueLocation};
use crate::value::Value;
use crate::vm::calls::{call_effect, capture_effect, close_effect, find_open, get_upvalue_effect, is_open, set_upvalue_effect, upvalue_cell};
use crate::vm::objects::{defined, inherit_effect, inherited, invoke_from_class_effect, method_effect, super_invoke_effect, Methods};
use crate::vm::operators::popped;
use crate::vm::{Request, VM};

verus! {

/// Capturing a stack slot twice gives the same cell: however many
/// closures capture a variable, they share one cell.
pub proof fn captures_share_one_cell(
    pre: VM,
    mid: VM,
    post: VM,
    slot: usize,
    first: ObjUpvalue,
    second: ObjUpvalue,
)
    requires
        capture_effect(pre, mid, slot, first),
        capture_effect(mid, post, slot, second),
    ensures
        first == second,
        post == mid,
        mid.heap.upvalues@[first.index as int] == UpvalueLocation::Stack(slot),
        is_open(mid.open_upvalues@, first.index as int),
{
    found_cell_is_open(pre.open_upvalues@, pre.heap.upvalues@, slot as int, pre.open_upvalues@.len() as int);
    match find_open(
        pre.open_upvalues@,
        pre.heap.upvalues@,
        slot as int,
        pre.open_upvalues@.len() as int,
    ) {
        Some(found) => {},
        None => {
            let n = mid.open_upvalues@.len() as int;
            assert(mid.open_upvalues@[n - 1] == first);
            assert(find_open(mid.open_upvalues@, mid.heap.upvalues@, slot as int, n) == Some(first));
        },
    }
}

/// A cell that was found for a slot is in the open list and stands for
/// that slot.
pub proof fn found_cell_is_open(
    open: Seq<ObjUpvalue>,
    upvalues: Seq<UpvalueLocation>,
    slot: int,
    upto: int,
)
    requires
        0 <= upto <= open.len(),
    ensures
        find_open(open, upvalues, slot, upto) matches Some(cell) ==> is_open(open, cell.index as int)
            && cell.index < upvalues.len() && upvalues[cell.index as int]
            == UpvalueLocation::Stack(slot as usize),
    decreases upto,
{
    if upto > 0 {
        let cell = open[upto - 1];
        if cell.index < upvalues.len() && upvalues[cell.index as int] == UpvalueLocation::Stack(
            slot as usize,
        ) {
            assert(open[upto - 1].index == cell.index);
        } else {
            found_cell_is_open(open, upvalues, slot, upto - 1);
        }
    }
}

/// While a captured variable lives on the stack, a value written through
/// one closure is what any closure that shares the cell reads, and what
/// the enclosing function reads in the variable's slot.
pub proof fn a_write_through_an_open_cell_is_seen(
    pre: VM,
    written: VM,
    read: VM,
    writer: u8,
    reader: u8,
    wrote: Request,
    got: Request,
    cell: ObjUpvalue,
    place: usize,
)
    requires
        pre.stack@.len() > 0,
        upvalue_cell(pre, writer) == Some(cell),
        pre.heap.upvalues@[cell.index as int] == UpvalueLocation::Stack(place),
        place < pre.stack@.len(),
        set_upvalue_effect(pre, written, writer, wrote),
        upvalue_cell(written, reader) == Some(cell),
        get_upvalue_effect(written, read, reader, got),
    ensures
        wrote is Continue,
        got is Continue,
        written.stack@[place as int] == pre.stack@.last(),
        read.stack@.last() == pre.stack@.last(),
{
}

/// Closing keeps the value: a cell that is closed owns what its stack
/// slot held at that moment.
pub proof fn closing_keeps_the_value(pre: VM, post: VM, last: usize, cell: ObjUpvalue, place: usize)
    requires
        close_effect(pre, post, last, true),
        is_open(pre.open_upvalues@, cell.index as int),
        cell.index < pre.heap.upvalues@.len(),
        pre.heap.upvalues@[cell.index as int] == UpvalueLocation::Stack(place),
        place >= last,
    ensures
        post.heap.upvalues@[cell.index as int] == UpvalueLocation::Heap(pre.stack@[place as int]),
{
}

/// Once a cell is closed, what is read through it does not depend on the
/// stack: two machines with the same heap read the same value, whatever
/// their stacks hold.
pub proof fn a_closed_cell_does_not_depend_on_the_stack(
    one: VM,
    other: VM,
    after_one: VM,
    after_other: VM,
    slot: u8,
    got_one: Request,
    got_other: Request,
    cell: ObjUpvalue,
    value: Value,
)
    requires
        upvalue_cell(one, slot) == Some(cell),
        upvalue_cell(other, slot) == Some(cell),
        one.heap.upvalues@[cell.index as int] == UpvalueLocation::Heap(value),
        other.heap.upvalues@[cell.index as int] == UpvalueLocation::Heap(value),
        get_upvalue_effect(one, after_one, slot, got_one),
        get_upvalue_effect(other, after_other, slot, got_other),
    ensures
        got_one is Continue,
        got_other is Continue,
        after_one.stack@.last() == value,
        after_other.stack@.last() == value,
{
}

/// A value written through a closed cell is what is read through it
/// afterwards, and the stack stays as it is.
pub proof fn a_write_through_a_closed_cell_is_seen(
    pre: VM,
    written: VM,
    read: VM,
    writer: u8,
    reader: u8,
    wrote: Request,
    got: Request,
    cell: ObjUpvalue,
)
    requires
        pre.stack@.len() > 0,
        upvalue_cell(pre, writer) == Some(cell),
        pre.heap.upvalues@[cell.index as int] is Heap,
        set_upvalue_effect(pre, written, writer, wrote),
        upvalue_cell(written, reader) == Some(cell),
        get_upvalue_effect(written, read, reader, got),
    ensures
        wrote is Continue,
        got is Continue,
        written.stack@ == pre.stack@,
        read.stack@.last() == pre.stack@.last(),
{
}

/// After a class has inherited, it has every method of its superclass;
/// a method defined afterwards takes the place of the inherited one of
/// its name and leaves every other method as it is.
pub proof fn inherited_methods_are_there_until_shadowed(
    parent: Methods,
    own: Methods,
    name: Seq<char>,
    method: ClosureRef,
)
    ensures
        forall|k: Seq<char>|
            parent(k).is_some() ==> #[trigger] inherited(parent, own)(k) == parent(k),
        defined(inherited(parent, own), name, method)(name) == Some(method),
        forall|k: Seq<char>|
            k != name ==> #[trigger] defined(inherited(parent, own), name, method)(k) == inherited(
                parent,
                own,
            )(k),
{
}

/// At the moment of `Inherit`, the class on top of the stack gets every
/// method of the class below it.
pub proof fn inherit_copies_every_method(
    pre: VM,
    post: VM,
    request: Request,
    superclass: ClazzRef,
    subclass: ClazzRef,
)
    requires
        pre.stack@.len() >= 2,
        pre.stack@[pre.stack@.len() - 2] == Value::Class(superclass),
        pre.stack@[pre.stack@.len() - 1] == Value::Class(subclass),
        superclass.valid(&pre.heap),
        subclass.valid(&pre.heap),
        inherit_effect(pre, post, request),
    ensures
        request is Continue,
        forall|k: Seq<char>|
            pre.heap.classes@[superclass.index as int].methods.lookup(k).is_some()
                ==> #[trigger] post.heap.classes@[subclass.index as int].methods.lookup(k)
                == pre.heap.classes@[superclass.index as int].methods.lookup(k),
        forall|k: Seq<char>|
            pre.heap.classes@[superclass.index as int].methods.lookup(k).is_none()
                ==> #[trigger] post.heap.classes@[subclass.index as int].methods.lookup(k)
                == pre.heap.classes@[subclass.index as int].methods.lookup(k),
{
}

/// `Method` gives the class its method under the name, in place of an
/// inherited one, and leaves its other methods as they are.
pub proof fn method_shadows_the_inherited_one(
    pre: VM,
    post: VM,
    index: u8,
    request: Request,
    class: ClazzRef,
    method: ClosureRef,
)
    requires
        pre.stack@.len() >= 2,
        pre.stack@[pre.stack@.len() - 2] == Value::Class(class),
        pre.stack@[pre.stack@.len() - 1] == Value::Closure(method),
        class.valid(&pre.heap),
        pre.name_constant(index).is_some(),
        method_effect(pre, post, index, request),
    ensures
        request is Continue,
        post.heap.classes@[class.index as int].methods.lookup(pre.name_constant(index)->0@)
            == Some(method),
        forall|k: Seq<char>|
            k != pre.name_constant(index)->0@ ==> #[trigger] post.heap.classes@[class.index
                as int].methods.lookup(k) == pre.heap.classes@[class.index as int].methods.lookup(
                k,
            ),
{
}

/// In a hierarchy of three classes, where the first defines a method, the
/// second inherits it and the third overrides it: the third class gives
/// the overriding method, and the second class, which is what `super`
/// stands for in the third, gives the method of the first.
pub proof fn an_override_wins_and_super_sees_the_inherited_method(
    first: Methods,
    second_own: Methods,
    third_own: Methods,
    name: Seq<char>,
    inherited_one: ClosureRef,
    overriding: ClosureRef,
)
    requires
        first(name) == Some(inherited_one),
        second_own(name).is_none(),
    ensures
        ({
            let second = inherited(first, second_own);
            let third = defined(inherited(second, third_own), name, overriding);
            &&& third(name) == Some(overriding)
            &&& second(name) == Some(inherited_one)
        }),
{
}

/// `SuperInvoke` calls the method of the class on top of the stack,
/// whatever the class of the receiver is.
pub proof fn super_invoke_calls_the_method_of_the_superclass(
    pre: VM,
    post: VM,
    index: u8,
    count: u8,
    request: Request,
    superclass: ClazzRef,
    method: ClosureRef,
)
    requires
        pre.stack@.len() > 0,
        pre.stack@.last() == Value::Class(superclass),
        superclass.valid(&pre.heap),
        pre.name_constant(index) matches Some(name) && pre.heap.classes@[superclass.index
            as int].methods.lookup(name@) == Some(method),
        super_invoke_effect(pre, post, index, count, request),
    ensures
        exists|mid: VM| popped(pre, mid, 1) && call_effect(mid, post, method, count, request),
{
    let name = pre.name_constant(index)->0;
    let mid = choose|mid: VM|
        popped(pre, mid, 1) && invoke_from_class_effect(
            mid,
            post,
            superclass,
            name,
            count,
            request,
        );
    assert(popped(pre, mid, 1) && call_effect(mid, post, method, count, request));
}

} // verus!
