//! Functions, closures and captured variables.

use vstd::prelude::*;
use crate::chunk::{Chunk, ChunkBuilder};
use crate::heap::Heap;
use crate::intern_string::Symbol;
use crate::value::Value;

verus! {

/// What a function was declared as.
#[derive(Copy, Clone, PartialEq, Eq, Debug, Structural)]
pub enum FunctionType {
    Function,
    Script,
    Method,
    Initializer,
}

/// A reference to a compiled function in the heap.
#[derive(Copy, Clone, PartialEq, Eq, Debug, Structural)]
pub struct Function {
    pub index: usize,
}

/// A compiled function: immutable once built.
pub struct FunctionInner {
    pub arity: usize,
    pub name: Option<Symbol>,
    pub chunk: Chunk,
    pub kind: FunctionType,
    pub upvalue_count: usize,
}

impl FunctionInner {
    pub fn new(
        name: Option<Symbol>,
        arity: usize,
        chunk: Chunk,
        upvalue_count: usize,
        kind: FunctionType,
    ) -> (function: FunctionInner)
        ensures
            function.name == name,
            function.arity == arity,
            function.chunk == chunk,
            function.upvalue_count == upvalue_count,
            function.kind == kind,
    {
        FunctionInner { arity, name, chunk, kind, upvalue_count }
    }

    pub fn get_arity(&self) -> (arity: usize)
        ensures
            arity == self.arity,
    {
        self.arity
    }

    pub fn get_name(&self) -> (name: Option<&Symbol>)
        ensures
            match name {
                Some(n) => self.name == Some(*n),
                None => self.name.is_none(),
            },
    {
        self.name.as_ref()
    }

    pub fn get_chunk(&self) -> (chunk: &Chunk)
        ensures
            *chunk == self.chunk,
    {
        &self.chunk
    }

    pub fn get_kind(&self) -> (kind: FunctionType)
        ensures
            kind == self.kind,
    {
        self.kind
    }

    pub fn get_upvalue_count(&self) -> (count: usize)
        ensures
            count == self.upvalue_count,
    {
        self.upvalue_count
    }
}

impl Function {
    /// Whether the reference points into `heap`.
    pub open spec fn valid(&self, heap: &Heap) -> bool {
        self.index < heap.functions.len()
    }

    /// The function referred to.
    pub open spec fn inner(&self, heap: &Heap) -> FunctionInner {
        heap.functions[self.index as int]
    }

    pub fn get_name<'a>(&self, heap: &'a Heap) -> (name: Option<&'a Symbol>)
        requires
            self.valid(heap),
        ensures
            match name {
                Some(n) => self.inner(heap).name == Some(*n),
                None => self.inner(heap).name.is_none(),
            },
    {
        heap.functions[self.index].get_name()
    }

    pub fn get_arity(&self, heap: &Heap) -> (arity: usize)
        requires
            self.valid(heap),
        ensures
            arity == self.inner(heap).arity,
    {
        heap.functions[self.index].arity
    }

    pub fn get_chunk<'a>(&self, heap: &'a Heap) -> (chunk: &'a Chunk)
        requires
            self.valid(heap),
        ensures
            *chunk == self.inner(heap).chunk,
    {
        &heap.functions[self.index].chunk
    }

    pub fn get_upvalue_count(&self, heap: &Heap) -> (count: usize)
        requires
            self.valid(heap),
        ensures
            count == self.inner(heap).upvalue_count,
    {
        heap.functions[self.index].upvalue_count
    }

    pub fn get_kind(&self, heap: &Heap) -> (kind: FunctionType)
        requires
            self.valid(heap),
        ensures
            kind == self.inner(heap).kind,
    {
        heap.functions[self.index].kind
    }
}

/// A function under construction: its header and the builder of its chunk.
pub struct FunctionBuilder {
    pub name: Option<Symbol>,
    pub arity: usize,
    pub kind: FunctionType,
    pub builder: ChunkBuilder,
    pub upvalue_count: usize,
}

impl FunctionBuilder {
    pub fn new(name: Option<Symbol>, arity: usize, kind: FunctionType) -> (function: FunctionBuilder)
        ensures
            function.name == name,
            function.arity == arity,
            function.kind == kind,
            function.upvalue_count == 0,
            function.builder.wf(),
            function.builder.chunk.code@.len() == 0,
            function.builder.chunk.constants@.len() == 0,
            function.builder.chunk.lines@.len() == 0,
            function.builder.required_indexes == 0,
            function.builder.patch_count == 0,
            function.builder.pending@ == Set::<int>::empty(),
    {
        FunctionBuilder { name, arity, kind, builder: ChunkBuilder::new(), upvalue_count: 0 }
    }

    pub fn get_name(&self) -> (name: Option<&Symbol>)
        ensures
            match name {
                Some(n) => self.name == Some(*n),
                None => self.name.is_none(),
            },
    {
        self.name.as_ref()
    }

    pub fn get_arity(&self) -> (arity: usize)
        ensures
            arity == self.arity,
    {
        self.arity
    }

    pub fn get_kind(&self) -> (kind: FunctionType)
        ensures
            kind == self.kind,
    {
        self.kind
    }

    pub fn set_kind(&mut self, kind: FunctionType)
        ensures
            *final(self) == (FunctionBuilder { kind, ..*old(self) }),
    {
        self.kind = kind;
    }

    pub fn inc_arity(&mut self, amount: usize)
        requires
            old(self).arity + amount <= usize::MAX,
        ensures
            *final(self) == (FunctionBuilder {
                arity: (old(self).arity + amount) as usize,
                ..*old(self)
            }),
    {
        self.arity += amount;
    }

    pub fn set_name(&mut self, name: Symbol)
        ensures
            *final(self) == (FunctionBuilder { name: Some(name), ..*old(self) }),
    {
        self.name = Some(name);
    }

    pub fn get_upvalue_count(&self) -> (count: usize)
        ensures
            count == self.upvalue_count,
    {
        self.upvalue_count
    }

    pub fn inc_upvalue_count(&mut self)
        requires
            old(self).upvalue_count < usize::MAX,
        ensures
            *final(self) == (FunctionBuilder {
                upvalue_count: (old(self).upvalue_count + 1) as usize,
                ..*old(self)
            }),
    {
        self.upvalue_count += 1;
    }

    /// Finishes the function and stores it in the heap.
    pub fn build(self, heap: &mut Heap) -> (function: Function)
        requires
            self.builder.wf(),
            self.builder.required_indexes == 0,
            self.builder.patch_count == 0,
        ensures
            function.index == old(heap).functions.len(),
            final(heap).functions@ == old(heap).functions@.push(
                FunctionInner {
                    arity: self.arity,
                    name: self.name,
                    chunk: self.builder.chunk,
                    kind: self.kind,
                    upvalue_count: self.upvalue_count,
                },
            ),
            final(heap).same_objects(old(heap)),
            self.builder.chunk.wf(),
            self.builder.chunk.structured(),
    {
        let chunk = self.builder.build();
        heap.new_function(
            FunctionInner::new(self.name, self.arity, chunk, self.upvalue_count, self.kind),
        )
    }
}

/// A function of the host, known by a number, with the number of
/// arguments it takes.
#[derive(Copy, Clone, PartialEq, Eq, Debug, Structural)]
pub struct NativeFunction {
    pub id: usize,
    pub arity: usize,
}

impl NativeFunction {
    pub fn new(id: usize, arity: usize) -> (function: NativeFunction)
        ensures
            function.id == id,
            function.arity == arity,
    {
        NativeFunction { id, arity }
    }

    pub fn get_arity(&self) -> (arity: usize)
        ensures
            arity == self.arity,
    {
        self.arity
    }
}

/// A reference to a cell that holds a captured variable.
#[derive(Copy, Clone, PartialEq, Eq, Debug, Structural)]
pub struct ObjUpvalue {
    pub index: usize,
}

/// Where a captured variable lives: open, in a slot of the value stack, or
/// closed, with a value of its own.
#[derive(Debug)]
pub enum UpvalueLocation {
    Stack(usize),
    Heap(Value),
}

impl Clone for UpvalueLocation {
    fn clone(&self) -> (r: UpvalueLocation)
        ensures
            r == *self,
    {
        match self {
            UpvalueLocation::Stack(slot) => UpvalueLocation::Stack(*slot),
            UpvalueLocation::Heap(value) => UpvalueLocation::Heap(value.clone()),
        }
    }
}

impl ObjUpvalue {
    pub open spec fn valid(&self, heap: &Heap) -> bool {
        self.index < heap.upvalues.len()
    }

    /// Makes a new cell.
    pub fn new(heap: &mut Heap, location: UpvalueLocation) -> (cell: ObjUpvalue)
        ensures
            cell.index == old(heap).upvalues.len(),
            final(heap).upvalues@ == old(heap).upvalues@.push(location),
            final(heap).same_but_upvalues(old(heap)),
    {
        heap.new_upvalue(location)
    }

    pub fn get_location(&self, heap: &Heap) -> (location: UpvalueLocation)
        requires
            self.valid(heap),
        ensures
            location == heap.upvalues[self.index as int],
    {
        heap.upvalues[self.index].clone()
    }

    /// Gives a closed cell a new value.
    pub fn set_location_value(&self, heap: &mut Heap, value: Value)
        requires
            self.valid(old(heap)),
            old(heap).upvalues[self.index as int] is Heap,
        ensures
            final(heap).upvalues@ == old(heap).upvalues@.update(
                self.index as int,
                UpvalueLocation::Heap(value),
            ),
            final(heap).same_but_upvalues(old(heap)),
    {
        heap.upvalues[self.index] = UpvalueLocation::Heap(value);
    }

    pub fn set_location(&self, heap: &mut Heap, location: UpvalueLocation)
        requires
            self.valid(old(heap)),
        ensures
            final(heap).upvalues@ == old(heap).upvalues@.update(self.index as int, location),
            final(heap).same_but_upvalues(old(heap)),
    {
        heap.upvalues[self.index] = location;
    }
}

/// A reference to a closure in the heap.
#[derive(Copy, Clone, PartialEq, Eq, Debug, Structural)]
pub struct ClosureRef {
    pub index: usize,
}

impl ClosureRef {
    pub open spec fn valid(&self, heap: &Heap) -> bool {
        self.index < heap.closures.len()
    }
}

/// A closure: a function with the cells of the variables it captured.
#[derive(Debug)]
pub struct Closure {
    pub function: Function,
    pub upvalues: Vec<ObjUpvalue>,
}

impl Closure {
    pub fn new(function: Function) -> (closure: Closure)
        ensures
            closure.function == function,
            closure.upvalues@.len() == 0,
    {
        Closure { function, upvalues: Vec::new() }
    }

    pub fn get_function(&self) -> (function: Function)
        ensures
            function == self.function,
    {
        self.function
    }

    pub fn push_upvalue(&mut self, value: ObjUpvalue)
        ensures
            final(self).function == old(self).function,
            final(self).upvalues@ == old(self).upvalues@.push(value),
    {
        self.upvalues.push(value);
    }

    pub fn get_upvalue_at(&self, index: usize) -> (cell: ObjUpvalue)
        requires
            index < self.upvalues.len(),
        ensures
            cell == self.upvalues[index as int],
    {
        self.upvalues[index]
    }

    /// The number of variables that the closure's function captures.
    pub fn upvalue_count(&self, heap: &Heap) -> (count: usize)
        requires
            self.function.valid(heap),
        ensures
            count == self.function.inner(heap).upvalue_count,
    {
        self.function.get_upvalue_count(heap)
    }
}

} // verus!
