//! A bytecode compiler and stack-based virtual machine for the Lox language.
//!
//! Source text is scanned into tokens, compiled in a single pass into chunks
//! of bytecode, and executed by a stack machine with closures, classes and
//! single inheritance.

use vstd::prelude::*;

pub mod opcodes;
pub mod tokens;
pub mod scanner;
pub mod intern_string;
pub mod table;
pub mod text;
pub mod value;
pub mod chunk;
pub mod function;
pub mod classes;
pub mod heap;
pub mod disassemble;
pub mod vm;
pub mod compile;

verus! {

/// Why a program did not run to its end.
#[derive(Copy, Clone, PartialEq, Eq, Debug, Structural)]
pub enum Error {
    /// The source could not be read.
    IO,
    /// The source does not compile.
    Compile,
    /// The program failed while it ran.
    Run,
}

/// The exit code of the process for each kind of failure.
pub open spec fn error_code(error: Error) -> u8 {
    match error {
        Error::IO => 74,
        Error::Compile => 65,
        Error::Run => 70,
    }
}

impl Error {
    pub fn get_error_code(&self) -> (code: u8)
        ensures
            code == error_code(*self),
    {
        match self {
            Error::IO => 74,
            Error::Compile => 65,
            Error::Run => 70,
        }
    }
}

/// The three sinks of a run: the compiler's diagnostics, the program's
/// output and the program's errors.
pub struct Output<C, VO, VE> {
    pub compiler_output: C,
    pub vm_out: VO,
    pub vm_err: VE,
}

impl<C, VO, VE> Output<C, VO, VE> {
    pub fn new(compiler_output: C, vm_out: VO, vm_err: VE) -> (output: Self)
        ensures
            output.compiler_output == compiler_output,
            output.vm_out == vm_out,
            output.vm_err == vm_err,
    {
        Output { compiler_output, vm_out, vm_err }
    }

    pub fn decompose(self) -> (sinks: (C, VO, VE))
        ensures
            sinks == (self.compiler_output, self.vm_out, self.vm_err),
    {
        (self.compiler_output, self.vm_out, self.vm_err)
    }
}

} // verus!
