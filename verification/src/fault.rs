//! The ways in which a hosted program, or its host, can go wrong.

use vstd::prelude::*;

verus! {

/// Why the machine cannot go on. A fault is fatal: the machine never recovers
/// from one, and the host is expected to stop the whole machine.
#[derive(Clone, Copy, Debug, PartialEq, Eq, Structural)]
pub enum Fault {
    /// A function was named that the module does not have.
    UnknownFunction,
    /// An instruction needs more values than the stack holds.
    StackUnderflow,
    /// The stack would grow beyond the size its function allows.
    StackOverflow,
    /// `Add` or `Mul` met a value that is no integer, or `Send` a target that
    /// is no pid.
    TypeMismatch,
    /// The result of `Add` or `Mul` does not fit a signed 64-bit integer.
    ArithmeticOverflow,
    /// The program counter points past the last instruction of its function.
    OutOfProgram,
    /// The outermost function returned with values left on its stack.
    NonEmptyExit,
    /// A process was started with a number of arguments that its function
    /// does not take.
    ArgCountMismatch,
    /// A message was addressed to a pid that no living process has.
    UnknownPid,
    /// Every pid has been handed out.
    PidsExhausted,
    /// The process was driven out of turn: stepped while it waits for its
    /// host or after it has exited, answered without having asked, or taken
    /// off the books before it has exited.
    OutOfTurn,
}

} // verus!
