//! The heap: every object that values refer to.

use vstd::prelude::*;
use vstd::string::StringExecFns;
use crate::value::{Printed, Value};
use crate::classes::{BoundMethod, BoundMethodRef, Clazz, ClazzRef, Instance, InstanceRef};
use crate::function::{Closure, ClosureRef, Function, FunctionInner, ObjUpvalue, UpvalueLocation};

verus! {

/// The objects of a program, each kind in a list of its own. A reference
/// is the position of its object. Objects are added at the end, never
/// removed: a reference stays good, and two references are the same
/// object exactly when they are equal.
pub struct Heap {
    pub functions: Vec<FunctionInner>,
    pub closures: Vec<Closure>,
    pub upvalues: Vec<UpvalueLocation>,
    pub classes: Vec<Clazz>,
    pub instances: Vec<Instance>,
    pub bound_methods: Vec<BoundMethod>,
}

/// What a piece of output says: text, or a number by its bits.
pub enum Shown {
    Text(Seq<char>),
    Number(u64),
}

impl View for Printed {
    type V = Shown;

    open spec fn view(&self) -> Shown {
        match self {
            Printed::Text(text) => Shown::Text(text@),
            Printed::Number(bits) => Shown::Number(*bits),
        }
    }
}

/// How a function shows: `<fn NAME>`, or `<fn <script>>` for the script.
pub open spec fn function_text(heap: &Heap, function: Function) -> Seq<char> {
    if function.valid(heap) {
        match function.inner(heap).name {
            Some(name) => "<fn "@ + name@ + ">"@,
            None => "<fn <script>>"@,
        }
    } else {
        Seq::empty()
    }
}

/// A closure shows as its function.
pub open spec fn closure_text(heap: &Heap, closure: ClosureRef) -> Seq<char> {
    if closure.valid(heap) {
        function_text(heap, heap.closures[closure.index as int].function)
    } else {
        Seq::empty()
    }
}

/// A class shows as its name.
pub open spec fn class_text(heap: &Heap, class: ClazzRef) -> Seq<char> {
    if class.valid(heap) {
        heap.classes[class.index as int].name@
    } else {
        Seq::empty()
    }
}

/// How a value shows in output. A reference that points nowhere shows as
/// nothing.
pub open spec fn shown(heap: &Heap, value: Value) -> Shown {
    match value {
        Value::Nil => Shown::Text("nil"@),
        Value::Bool(b) => Shown::Text(
            if b {
                "true"@
            } else {
                "false"@
            },
        ),
        Value::Double(bits) => Shown::Number(bits),
        Value::String(text) => Shown::Text(text@),
        Value::Function(function) => Shown::Text(function_text(heap, function)),
        Value::NativeFunction(_) => Shown::Text("<native fn>"@),
        Value::Closure(closure) => Shown::Text(closure_text(heap, closure)),
        Value::Class(class) => Shown::Text(class_text(heap, class)),
        Value::Instance(instance) => Shown::Text(
            if instance.valid(heap) {
                class_text(heap, heap.instances[instance.index as int].clazz) + " instance"@
            } else {
                Seq::empty()
            },
        ),
        Value::BoundMethod(bound) => Shown::Text(
            if bound.valid(heap) {
                closure_text(heap, heap.bound_methods[bound.index as int].method)
            } else {
                Seq::empty()
            },
        ),
    }
}

impl Heap {
    fn function_string(&self, function: Function) -> (text: String)
        ensures
            text@ == function_text(self, function),
    {
        if function.index < self.functions.len() {
            match &self.functions[function.index].name {
                Some(name) => {
                    let mut text = "<fn ".to_string();
                    text.append(name.as_str());
                    text.append(">");
                    text
                },
                None => "<fn <script>>".to_string(),
            }
        } else {
            String::new()
        }
    }

    fn closure_string(&self, closure: ClosureRef) -> (text: String)
        ensures
            text@ == closure_text(self, closure),
    {
        if closure.index < self.closures.len() {
            self.function_string(self.closures[closure.index].function)
        } else {
            String::new()
        }
    }

    fn class_string(&self, class: ClazzRef) -> (text: String)
        ensures
            text@ == class_text(self, class),
    {
        if class.index < self.classes.len() {
            self.classes[class.index].name.as_str().to_string()
        } else {
            String::new()
        }
    }

    /// How `value` shows in output.
    pub fn display(&self, value: &Value) -> (printed: Printed)
        ensures
            printed@ == shown(self, *value),
    {
        match value {
            Value::Nil => Printed::Text("nil".to_string()),
            Value::Bool(b) => Printed::Text(
                if *b {
                    "true".to_string()
                } else {
                    "false".to_string()
                },
            ),
            Value::Double(bits) => Printed::Number(*bits),
            Value::String(text) => Printed::Text(text.as_str().to_string()),
            Value::Function(function) => Printed::Text(self.function_string(*function)),
            Value::NativeFunction(_) => Printed::Text("<native fn>".to_string()),
            Value::Closure(closure) => Printed::Text(self.closure_string(*closure)),
            Value::Class(class) => Printed::Text(self.class_string(*class)),
            Value::Instance(instance) => {
                if instance.index < self.instances.len() {
                    let mut text = self.class_string(self.instances[instance.index].clazz);
                    text.append(" instance");
                    Printed::Text(text)
                } else {
                    Printed::Text(String::new())
                }
            },
            Value::BoundMethod(bound) => {
                if bound.index < self.bound_methods.len() {
                    Printed::Text(self.closure_string(self.bound_methods[bound.index].method))
                } else {
                    Printed::Text(String::new())
                }
            },
        }
    }


    /// Every table in the heap is well formed.
    pub open spec fn wf(&self) -> bool {
        &&& forall|i: int| 0 <= i < self.classes.len() ==> (#[trigger] self.classes[i]).methods.wf()
        &&& forall|i: int|
            0 <= i < self.instances.len() ==> (#[trigger] self.instances[i]).fields.wf()
    }

    /// The chunk of every function is well formed and a sequence of whole
    /// instructions.
    pub open spec fn structured(&self) -> bool {
        forall|i: int|
            0 <= i < self.functions@.len() ==> (#[trigger] self.functions@[i]).chunk.wf()
                && self.functions@[i].chunk.structured()
    }

    /// Nothing but the functions differs from `other`.
    pub open spec fn same_objects(&self, other: &Heap) -> bool {
        &&& self.closures == other.closures
        &&& self.upvalues == other.upvalues
        &&& self.classes == other.classes
        &&& self.instances == other.instances
        &&& self.bound_methods == other.bound_methods
    }

    pub open spec fn same_but_upvalues(&self, other: &Heap) -> bool {
        &&& self.functions == other.functions
        &&& self.closures == other.closures
        &&& self.classes == other.classes
        &&& self.instances == other.instances
        &&& self.bound_methods == other.bound_methods
    }

    pub open spec fn same_but_closures(&self, other: &Heap) -> bool {
        &&& self.functions == other.functions
        &&& self.upvalues == other.upvalues
        &&& self.classes == other.classes
        &&& self.instances == other.instances
        &&& self.bound_methods == other.bound_methods
    }

    pub open spec fn same_but_classes(&self, other: &Heap) -> bool {
        &&& self.functions == other.functions
        &&& self.closures == other.closures
        &&& self.upvalues == other.upvalues
        &&& self.instances == other.instances
        &&& self.bound_methods == other.bound_methods
    }

    pub open spec fn same_but_instances(&self, other: &Heap) -> bool {
        &&& self.functions == other.functions
        &&& self.closures == other.closures
        &&& self.upvalues == other.upvalues
        &&& self.classes == other.classes
        &&& self.bound_methods == other.bound_methods
    }

    pub open spec fn same_but_bound_methods(&self, other: &Heap) -> bool {
        &&& self.functions == other.functions
        &&& self.closures == other.closures
        &&& self.upvalues == other.upvalues
        &&& self.classes == other.classes
        &&& self.instances == other.instances
    }

    /// An empty heap.
    pub fn new() -> (heap: Heap)
        ensures
            heap.wf(),
            heap.functions@.len() == 0,
            heap.closures@.len() == 0,
            heap.upvalues@.len() == 0,
            heap.classes@.len() == 0,
            heap.instances@.len() == 0,
            heap.bound_methods@.len() == 0,
    {
        Heap {
            functions: Vec::new(),
            closures: Vec::new(),
            upvalues: Vec::new(),
            classes: Vec::new(),
            instances: Vec::new(),
            bound_methods: Vec::new(),
        }
    }

    pub fn new_function(&mut self, function: FunctionInner) -> (r: Function)
        ensures
            r.index == old(self).functions.len(),
            final(self).functions@ == old(self).functions@.push(function),
            final(self).same_objects(old(self)),
    {
        self.functions.push(function);
        Function { index: self.functions.len() - 1 }
    }

    pub fn new_closure(&mut self, closure: Closure) -> (r: ClosureRef)
        ensures
            r.index == old(self).closures.len(),
            final(self).closures@ == old(self).closures@.push(closure),
            final(self).same_but_closures(old(self)),
    {
        self.closures.push(closure);
        ClosureRef { index: self.closures.len() - 1 }
    }

    pub fn new_upvalue(&mut self, location: UpvalueLocation) -> (r: ObjUpvalue)
        ensures
            r.index == old(self).upvalues.len(),
            final(self).upvalues@ == old(self).upvalues@.push(location),
            final(self).same_but_upvalues(old(self)),
    {
        self.upvalues.push(location);
        ObjUpvalue { index: self.upvalues.len() - 1 }
    }

    pub fn new_class(&mut self, clazz: Clazz) -> (r: ClazzRef)
        ensures
            r.index == old(self).classes.len(),
            final(self).classes@ == old(self).classes@.push(clazz),
            final(self).same_but_classes(old(self)),
    {
        self.classes.push(clazz);
        ClazzRef { index: self.classes.len() - 1 }
    }

    pub fn new_instance(&mut self, instance: Instance) -> (r: InstanceRef)
        ensures
            r.index == old(self).instances.len(),
            final(self).instances@ == old(self).instances@.push(instance),
            final(self).same_but_instances(old(self)),
    {
        self.instances.push(instance);
        InstanceRef { index: self.instances.len() - 1 }
    }

    pub fn new_bound_method(&mut self, bound: BoundMethod) -> (r: BoundMethodRef)
        ensures
            r.index == old(self).bound_methods.len(),
            final(self).bound_methods@ == old(self).bound_methods@.push(bound),
            final(self).same_but_bound_methods(old(self)),
    {
        self.bound_methods.push(bound);
        BoundMethodRef { index: self.bound_methods.len() - 1 }
    }
}

} // verus!
