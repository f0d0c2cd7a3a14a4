//! Programs: instructions, functions and the module that names them.

use crate::data::Value;
use std::sync::Arc;
use vstd::hash_map::StringHashMap;
use vstd::prelude::*;

verus! {

/// A program instruction.
#[derive(Clone, Copy, Debug)]
pub enum Instruction {
    /// Pop the top-most item of the stack and print it.
    Print,
    /// Push a literal value.
    PushLiteral(Value),
    /// Duplicate the i'th item from the top of the stack.
    Dup(usize),
    /// Discard the top item on the stack.
    Pop,
    /// Swap the top item on the stack with the i'th item from the top of the stack.
    Swap(usize),
    /// Jump, unconditionally, to an instruction in this function.
    Jump(usize),
    /// Pop the value off the stack and jump if it is equal to the given value.
    JumpIfEqual(usize, Value),
    /// Call another function, handing it its arguments from the top of the stack.
    Call(&'static str),
    /// Return to the calling function, pushing this function's stack onto
    /// the caller's stack.
    Return,
    /// Add the top two values on the stack, leaving the sum.
    Add,
    /// Multiply the top two values on the stack, leaving the product.
    Mul,
    /// Spawn a new process running the named function, consuming its arguments
    /// from the stack, and push the new process's pid.
    Spawn(&'static str),
    /// Wait for a message and push its name and then its value.
    Receive,
    /// Send a message with the given name; the stack ends in `[pid, value]`.
    Send(&'static str),
}

/// What a [`Function`] is: how many arguments it starts with, how deep its
/// stack may grow, and its instructions.
pub struct FunctionView {
    pub arg_count: nat,
    pub stack_size: nat,
    pub instructions: Seq<Instruction>,
}

impl FunctionView {
    /// The stack has room for the arguments. A function of which this does
    /// not hold can be stored in a module, but it can never be entered.
    pub open spec fn well_formed(self) -> bool {
        self.arg_count <= self.stack_size
    }
}

#[derive(Debug)]
struct FunctionInner {
    arg_count: usize,
    stack_size: usize,
    instructions: Vec<Instruction>,
}

/// A collection of instructions that can be executed. When begun, the stack
/// holds `arg_count` values, and it can grow to at most `stack_size` values.
///
/// A function is immutable and cheap to clone: all clones share one record.
#[derive(Debug)]
pub struct Function(Arc<FunctionInner>);

/// `Arc::clone` hands out one more handle on the allocation the given handle
/// points to, so the new handle points to the same value as the old one.
#[verifier::external_body]
pub(crate) fn share<T>(handle: &Arc<T>) -> (other: Arc<T>)
    ensures
        other == *handle,
{
    Arc::clone(handle)
}

impl View for Function {
    type V = FunctionView;

    closed spec fn view(&self) -> FunctionView {
        FunctionView {
            arg_count: self.0.arg_count as nat,
            stack_size: self.0.stack_size as nat,
            instructions: self.0.instructions@,
        }
    }
}

impl Clone for Function {
    /// One more handle on the same function.
    fn clone(&self) -> (other: Function)
        ensures
            other == *self,
    {
        Function(share(&self.0))
    }
}

impl Function {
    /// A function that starts with `arg_count` values on its stack, lets the
    /// stack grow to `stack_size` values, and executes `instructions`.
    pub fn new(arg_count: usize, stack_size: usize, instructions: Vec<Instruction>) -> (function:
        Function)
        ensures
            function@ == (FunctionView {
                arg_count: arg_count as nat,
                stack_size: stack_size as nat,
                instructions: instructions@,
            }),
    {
        Function(Arc::new(FunctionInner { arg_count, stack_size, instructions }))
    }

    /// The number of values on the stack when the function begins.
    pub fn arg_count(&self) -> (count: usize)
        ensures
            count == self@.arg_count,
    {
        self.0.arg_count
    }

    /// The number of values that the stack may hold at most.
    pub fn stack_size(&self) -> (size: usize)
        ensures
            size == self@.stack_size,
    {
        self.0.stack_size
    }

    /// The instructions, in the order in which they are written.
    pub fn instructions(&self) -> (instructions: &[Instruction])
        ensures
            instructions@ == self@.instructions,
    {
        self.0.instructions.as_slice()
    }
}

/// A module represents a set of named functions.
pub struct Module {
    functions: StringHashMap<Function>,
}

impl View for Module {
    type V = Map<Seq<char>, FunctionView>;

    closed spec fn view(&self) -> Map<Seq<char>, FunctionView> {
        self.functions@.map_values(|f: Function| f@)
    }
}

impl Default for Module {
    /// The module without functions.
    fn default() -> (module: Module)
        ensures
            module@ == Map::<Seq<char>, FunctionView>::empty(),
    {
        Module { functions: StringHashMap::new() }
    }
}

impl Module {
    /// Add a new function to this module. A function added earlier under the
    /// same name is replaced.
    pub fn add_function(&mut self, name: &str, function: Function)
        ensures
            final(self)@ == old(self)@.insert(name@, function@),
    {
        self.functions.insert(name.to_owned(), function);
    }

    /// The function of that name, if the module has one.
    pub fn get_function(&self, name: &str) -> (found: Option<Function>)
        ensures
            match found {
                Some(function) => self@.contains_key(name@) && function@ == self@[name@],
                None => !self@.contains_key(name@),
            },
    {
        match self.functions.get(name) {
            Some(function) => Some(function.clone()),
            None => None,
        }
    }
}

} // verus!
