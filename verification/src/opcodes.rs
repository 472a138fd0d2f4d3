//! The instruction set of the virtual machine.

use vstd::prelude::*;

verus! {

/// Number of opcodes; every opcode is encoded as a byte below this bound.
pub const OPCODE_COUNT: u8 = 37;

/// Marker returned by [`required_indexes`] for an opcode whose operand list
/// has a variable length.
pub const VARIABLE_INDEXES: u8 = 255;

/// One instruction of the virtual machine. Each opcode occupies one byte of
/// code and is followed by its operand bytes.
#[derive(Copy, Clone, PartialEq, Eq, Debug, Structural)]
pub enum OpCode {
    Constant,
    Nil,
    True,
    False,
    Negate,
    Add,
    Subtract,
    Multiply,
    Divide,
    Not,
    Equal,
    Greater,
    Less,
    Return,
    Print,
    Pop,
    DefineGlobal,
    GetGlobal,
    SetGlobal,
    GetLocal,
    SetLocal,
    GetUpvalue,
    SetUpvalue,
    Jump,
    JumpIfFalse,
    Loop,
    Call,
    Closure,
    CloseUpvalue,
    Class,
    GetProperty,
    SetProperty,
    Method,
    Invoke,
    Inherit,
    GetSuper,
    SuperInvoke,
}

/// The byte that encodes an opcode: its position in the instruction set.
pub open spec fn opcode_byte(op: OpCode) -> u8 {
    match op {
        OpCode::Constant => 0,
        OpCode::Nil => 1,
        OpCode::True => 2,
        OpCode::False => 3,
        OpCode::Negate => 4,
        OpCode::Add => 5,
        OpCode::Subtract => 6,
        OpCode::Multiply => 7,
        OpCode::Divide => 8,
        OpCode::Not => 9,
        OpCode::Equal => 10,
        OpCode::Greater => 11,
        OpCode::Less => 12,
        OpCode::Return => 13,
        OpCode::Print => 14,
        OpCode::Pop => 15,
        OpCode::DefineGlobal => 16,
        OpCode::GetGlobal => 17,
        OpCode::SetGlobal => 18,
        OpCode::GetLocal => 19,
        OpCode::SetLocal => 20,
        OpCode::GetUpvalue => 21,
        OpCode::SetUpvalue => 22,
        OpCode::Jump => 23,
        OpCode::JumpIfFalse => 24,
        OpCode::Loop => 25,
        OpCode::Call => 26,
        OpCode::Closure => 27,
        OpCode::CloseUpvalue => 28,
        OpCode::Class => 29,
        OpCode::GetProperty => 30,
        OpCode::SetProperty => 31,
        OpCode::Method => 32,
        OpCode::Invoke => 33,
        OpCode::Inherit => 34,
        OpCode::GetSuper => 35,
        OpCode::SuperInvoke => 36,
    }
}

/// How many operand bytes the builder expects after an opcode. `Closure`
/// answers [`VARIABLE_INDEXES`]: a constant index followed by one pair of
/// bytes per captured variable.
pub open spec fn required_indexes(op: OpCode) -> u8 {
    match op {
        OpCode::Constant
        | OpCode::DefineGlobal
        | OpCode::GetGlobal
        | OpCode::SetGlobal
        | OpCode::GetLocal
        | OpCode::SetLocal
        | OpCode::GetUpvalue
        | OpCode::SetUpvalue
        | OpCode::Call
        | OpCode::Class
        | OpCode::GetProperty
        | OpCode::SetProperty
        | OpCode::Method
        | OpCode::GetSuper => 1,
        OpCode::Jump | OpCode::JumpIfFalse | OpCode::Loop | OpCode::Invoke | OpCode::SuperInvoke => 2,
        OpCode::Closure => VARIABLE_INDEXES,
        _ => 0,
    }
}

/// How many operand bytes always follow an opcode in finished code. For
/// `Closure` this counts the constant index only; the capture pairs come on
/// top of it.
pub open spec fn fixed_operands(op: OpCode) -> nat {
    if op == OpCode::Closure {
        1
    } else {
        required_indexes(op) as nat
    }
}

impl OpCode {
    /// Encodes the opcode as a byte.
    pub fn to_byte(self) -> (b: u8)
        ensures
            b == opcode_byte(self),
            b < OPCODE_COUNT,
    {
        match self {
            OpCode::Constant => 0,
            OpCode::Nil => 1,
            OpCode::True => 2,
            OpCode::False => 3,
            OpCode::Negate => 4,
            OpCode::Add => 5,
            OpCode::Subtract => 6,
            OpCode::Multiply => 7,
            OpCode::Divide => 8,
            OpCode::Not => 9,
            OpCode::Equal => 10,
            OpCode::Greater => 11,
            OpCode::Less => 12,
            OpCode::Return => 13,
            OpCode::Print => 14,
            OpCode::Pop => 15,
            OpCode::DefineGlobal => 16,
            OpCode::GetGlobal => 17,
            OpCode::SetGlobal => 18,
            OpCode::GetLocal => 19,
            OpCode::SetLocal => 20,
            OpCode::GetUpvalue => 21,
            OpCode::SetUpvalue => 22,
            OpCode::Jump => 23,
            OpCode::JumpIfFalse => 24,
            OpCode::Loop => 25,
            OpCode::Call => 26,
            OpCode::Closure => 27,
            OpCode::CloseUpvalue => 28,
            OpCode::Class => 29,
            OpCode::GetProperty => 30,
            OpCode::SetProperty => 31,
            OpCode::Method => 32,
            OpCode::Invoke => 33,
            OpCode::Inherit => 34,
            OpCode::GetSuper => 35,
            OpCode::SuperInvoke => 36,
        }
    }

    /// Decodes a byte. Every byte below [`OPCODE_COUNT`] is the code of
    /// exactly one opcode; any other byte is none.
    pub fn from_byte(b: u8) -> (r: Option<OpCode>)
        ensures
            b < OPCODE_COUNT <==> r.is_some(),
            r matches Some(op) ==> opcode_byte(op) == b,
    {
        match b {
            0 => Some(OpCode::Constant),
            1 => Some(OpCode::Nil),
            2 => Some(OpCode::True),
            3 => Some(OpCode::False),
            4 => Some(OpCode::Negate),
            5 => Some(OpCode::Add),
            6 => Some(OpCode::Subtract),
            7 => Some(OpCode::Multiply),
            8 => Some(OpCode::Divide),
            9 => Some(OpCode::Not),
            10 => Some(OpCode::Equal),
            11 => Some(OpCode::Greater),
            12 => Some(OpCode::Less),
            13 => Some(OpCode::Return),
            14 => Some(OpCode::Print),
            15 => Some(OpCode::Pop),
            16 => Some(OpCode::DefineGlobal),
            17 => Some(OpCode::GetGlobal),
            18 => Some(OpCode::SetGlobal),
            19 => Some(OpCode::GetLocal),
            20 => Some(OpCode::SetLocal),
            21 => Some(OpCode::GetUpvalue),
            22 => Some(OpCode::SetUpvalue),
            23 => Some(OpCode::Jump),
            24 => Some(OpCode::JumpIfFalse),
            25 => Some(OpCode::Loop),
            26 => Some(OpCode::Call),
            27 => Some(OpCode::Closure),
            28 => Some(OpCode::CloseUpvalue),
            29 => Some(OpCode::Class),
            30 => Some(OpCode::GetProperty),
            31 => Some(OpCode::SetProperty),
            32 => Some(OpCode::Method),
            33 => Some(OpCode::Invoke),
            34 => Some(OpCode::Inherit),
            35 => Some(OpCode::GetSuper),
            36 => Some(OpCode::SuperInvoke),
            _ => None,
        }
    }

    /// The name under which the opcode appears in a disassembly.
    pub fn name(self) -> (s: &'static str)
        ensures
            s@ == opcode_name(self),
    {
        match self {
            OpCode::Constant => "Constant",
            OpCode::Nil => "Nil",
            OpCode::True => "True",
            OpCode::False => "False",
            OpCode::Negate => "Negate",
            OpCode::Add => "Add",
            OpCode::Subtract => "Subtract",
            OpCode::Multiply => "Multiply",
            OpCode::Divide => "Divide",
            OpCode::Not => "Not",
            OpCode::Equal => "Equal",
            OpCode::Greater => "Greater",
            OpCode::Less => "Less",
            OpCode::Return => "Return",
            OpCode::Print => "Print",
            OpCode::Pop => "Pop",
            OpCode::DefineGlobal => "DefineGlobal",
            OpCode::GetGlobal => "GetGlobal",
            OpCode::SetGlobal => "SetGlobal",
            OpCode::GetLocal => "GetLocal",
            OpCode::SetLocal => "SetLocal",
            OpCode::GetUpvalue => "GetUpvalue",
            OpCode::SetUpvalue => "SetUpvalue",
            OpCode::Jump => "Jump",
            OpCode::JumpIfFalse => "JumpIfFalse",
            OpCode::Loop => "Loop",
            OpCode::Call => "Call",
            OpCode::Closure => "Closure",
            OpCode::CloseUpvalue => "CloseUpvalue",
            OpCode::Class => "Class",
            OpCode::GetProperty => "GetProperty",
            OpCode::SetProperty => "SetProperty",
            OpCode::Method => "Method",
            OpCode::Invoke => "Invoke",
            OpCode::Inherit => "Inherit",
            OpCode::GetSuper => "GetSuper",
            OpCode::SuperInvoke => "SuperInvoke",
        }
    }
}

/// The text of an opcode's name.
pub open spec fn opcode_name(op: OpCode) -> Seq<char> {
    match op {
        OpCode::Constant => "Constant"@,
        OpCode::Nil => "Nil"@,
        OpCode::True => "True"@,
        OpCode::False => "False"@,
        OpCode::Negate => "Negate"@,
        OpCode::Add => "Add"@,
        OpCode::Subtract => "Subtract"@,
        OpCode::Multiply => "Multiply"@,
        OpCode::Divide => "Divide"@,
        OpCode::Not => "Not"@,
        OpCode::Equal => "Equal"@,
        OpCode::Greater => "Greater"@,
        OpCode::Less => "Less"@,
        OpCode::Return => "Return"@,
        OpCode::Print => "Print"@,
        OpCode::Pop => "Pop"@,
        OpCode::DefineGlobal => "DefineGlobal"@,
        OpCode::GetGlobal => "GetGlobal"@,
        OpCode::SetGlobal => "SetGlobal"@,
        OpCode::GetLocal => "GetLocal"@,
        OpCode::SetLocal => "SetLocal"@,
        OpCode::GetUpvalue => "GetUpvalue"@,
        OpCode::SetUpvalue => "SetUpvalue"@,
        OpCode::Jump => "Jump"@,
        OpCode::JumpIfFalse => "JumpIfFalse"@,
        OpCode::Loop => "Loop"@,
        OpCode::Call => "Call"@,
        OpCode::Closure => "Closure"@,
        OpCode::CloseUpvalue => "CloseUpvalue"@,
        OpCode::Class => "Class"@,
        OpCode::GetProperty => "GetProperty"@,
        OpCode::SetProperty => "SetProperty"@,
        OpCode::Method => "Method"@,
        OpCode::Invoke => "Invoke"@,
        OpCode::Inherit => "Inherit"@,
        OpCode::GetSuper => "GetSuper"@,
        OpCode::SuperInvoke => "SuperInvoke"@,
    }
}

/// Decoding inverts encoding: two opcodes with the same byte are the same
/// opcode.
pub proof fn opcode_byte_is_injective(a: OpCode, b: OpCode)
    requires
        opcode_byte(a) == opcode_byte(b),
    ensures
        a == b,
{
}

/// Answers how many operand bytes each opcode asks for.
pub struct IndexesPerOpCode {}

impl IndexesPerOpCode {
    /// The table. It holds nothing: `get` answers by the opcode alone.
    pub fn new() -> (table: Self) {
        IndexesPerOpCode {  }
    }

    /// The number of operand bytes that `opcode` asks of the builder.
    pub fn get(&self, opcode: OpCode) -> (n: u8)
        ensures
            n == required_indexes(opcode),
    {
        match opcode {
            OpCode::Constant
            | OpCode::DefineGlobal
            | OpCode::GetGlobal
            | OpCode::SetGlobal
            | OpCode::GetLocal
            | OpCode::SetLocal
            | OpCode::GetUpvalue
            | OpCode::SetUpvalue
            | OpCode::Call
            | OpCode::Class
            | OpCode::GetProperty
            | OpCode::SetProperty
            | OpCode::Method
            | OpCode::GetSuper => 1,
            OpCode::Jump
            | OpCode::JumpIfFalse
            | OpCode::Loop
            | OpCode::Invoke
            | OpCode::SuperInvoke => 2,
            OpCode::Closure => VARIABLE_INDEXES,
            _ => 0,
        }
    }
}

} // verus!
