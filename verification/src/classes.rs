//! Classes, instances and bound methods.

use vstd::prelude::*;
use crate::function::ClosureRef;
use crate::heap::Heap;
use crate::intern_string::Symbol;
use crate::table::Table;
use crate::value::Value;

verus! {

/// A class: its name and its methods by name.
pub struct Clazz {
    pub name: Symbol,
    pub methods: Table<ClosureRef>,
}

impl Clazz {
    pub fn new(name: Symbol) -> (clazz: Clazz)
        ensures
            clazz.name == name,
            clazz.methods.wf(),
            forall|key: Seq<char>| clazz.methods.lookup(key).is_none(),
    {
        Clazz { name, methods: Table::new() }
    }

    pub fn get_name(&self) -> (name: &Symbol)
        ensures
            *name == self.name,
    {
        &self.name
    }

    /// Defines or redefines the method `name`.
    pub fn set_method(&mut self, name: Symbol, value: ClosureRef)
        requires
            old(self).methods.wf(),
        ensures
            final(self).methods.wf(),
            final(self).name == old(self).name,
            forall|k: Seq<char>|
                #[trigger] final(self).methods.lookup(k) == if k == name@ {
                    Some(value)
                } else {
                    old(self).methods.lookup(k)
                },
    {
        self.methods.insert(name, value);
    }

    pub fn get_method(&self, name: &Symbol) -> (method: Option<ClosureRef>)
        requires
            self.methods.wf(),
        ensures
            method == self.methods.lookup(name@),
    {
        match self.methods.get(name) {
            Some(m) => Some(*m),
            None => None,
        }
    }

    pub fn get_methods(&self) -> (methods: &Table<ClosureRef>)
        ensures
            *methods == self.methods,
    {
        &self.methods
    }
}

/// A reference to a class in the heap.
#[derive(Copy, Clone, PartialEq, Eq, Debug, Structural)]
pub struct ClazzRef {
    pub index: usize,
}

impl ClazzRef {
    pub open spec fn valid(&self, heap: &Heap) -> bool {
        self.index < heap.classes.len()
    }

    /// Stores a class in the heap.
    pub fn new(heap: &mut Heap, clazz: Clazz) -> (class: ClazzRef)
        ensures
            class.index == old(heap).classes.len(),
            final(heap).classes@ == old(heap).classes@.push(clazz),
            final(heap).same_but_classes(old(heap)),
    {
        heap.new_class(clazz)
    }

    pub fn get_clazz<'a>(&self, heap: &'a Heap) -> (clazz: &'a Clazz)
        requires
            self.valid(heap),
        ensures
            *clazz == heap.classes[self.index as int],
    {
        &heap.classes[self.index]
    }
}

/// An instance: its class and its fields by name.
pub struct Instance {
    pub clazz: ClazzRef,
    pub fields: Table<Value>,
}

impl Instance {
    pub fn new(clazz: ClazzRef) -> (instance: Instance)
        ensures
            instance.clazz == clazz,
            instance.fields.wf(),
            forall|key: Seq<char>| instance.fields.lookup(key).is_none(),
    {
        Instance { clazz, fields: Table::new() }
    }

    pub fn get_value(&self, property: &Symbol) -> (value: Option<&Value>)
        requires
            self.fields.wf(),
        ensures
            match value {
                Some(v) => self.fields.lookup(property@) == Some(*v),
                None => self.fields.lookup(property@).is_none(),
            },
    {
        self.fields.get(property)
    }

    pub fn set_value(&mut self, name: Symbol, value: Value)
        requires
            old(self).fields.wf(),
        ensures
            final(self).fields.wf(),
            final(self).clazz == old(self).clazz,
            forall|k: Seq<char>|
                #[trigger] final(self).fields.lookup(k) == if k == name@ {
                    Some(value)
                } else {
                    old(self).fields.lookup(k)
                },
    {
        self.fields.insert(name, value);
    }

    pub fn get_clazz_ref(&self) -> (clazz: ClazzRef)
        ensures
            clazz == self.clazz,
    {
        self.clazz
    }
}

/// A reference to an instance in the heap.
#[derive(Copy, Clone, PartialEq, Eq, Debug, Structural)]
pub struct InstanceRef {
    pub index: usize,
}

impl InstanceRef {
    pub open spec fn valid(&self, heap: &Heap) -> bool {
        self.index < heap.instances.len()
    }

    /// Stores an instance in the heap.
    pub fn new(heap: &mut Heap, instance: Instance) -> (r: InstanceRef)
        ensures
            r.index == old(heap).instances.len(),
            final(heap).instances@ == old(heap).instances@.push(instance),
            final(heap).same_but_instances(old(heap)),
    {
        heap.new_instance(instance)
    }

    pub fn get_instance<'a>(&self, heap: &'a Heap) -> (instance: &'a Instance)
        requires
            self.valid(heap),
        ensures
            *instance == heap.instances[self.index as int],
    {
        &heap.instances[self.index]
    }
}

/// A method together with the instance it was taken from.
pub struct BoundMethod {
    pub receiver: Value,
    pub method: ClosureRef,
}

impl BoundMethod {
    pub fn new(receiver: Value, method: ClosureRef) -> (bound: BoundMethod)
        ensures
            bound.receiver == receiver,
            bound.method == method,
    {
        BoundMethod { receiver, method }
    }

    pub fn get_closure(&self) -> (method: ClosureRef)
        ensures
            method == self.method,
    {
        self.method
    }

    pub fn get_receiver(&self) -> (receiver: &Value)
        ensures
            *receiver == self.receiver,
    {
        &self.receiver
    }
}

/// A reference to a bound method in the heap.
#[derive(Copy, Clone, PartialEq, Eq, Debug, Structural)]
pub struct BoundMethodRef {
    pub index: usize,
}

impl BoundMethodRef {
    pub open spec fn valid(&self, heap: &Heap) -> bool {
        self.index < heap.bound_methods.len()
    }
}

} // verus!
