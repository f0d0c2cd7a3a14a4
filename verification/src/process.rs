//! The process engine: one process, executed one instruction at a time.
//!
//! A [`Process`] never waits and never touches another process. Whatever needs the
//! outside world is handed to the host as an [`Action`]: the host prints, spawns,
//! waits for a message or delivers one, and answers with [`Process::spawned`] or
//! [`Process::received`] where an answer is due.

use crate::data::{Message, Value};
use crate::fault::Fault;
use crate::laws;
use crate::program::{Function, Instruction, Module};
use crate::semantics;
use crate::semantics::{ActionView, FrameView, ProcessView, Status};
use vstd::prelude::*;

verus! {

/// What a process asks of its host after an instruction.
#[derive(Debug)]
pub enum Action {
    /// Nothing: step again.
    Continue,
    /// Show this value.
    Print(Value),
    /// Start a process running the named function on these arguments, and
    /// answer with [`Process::spawned`].
    Spawn { name: &'static str, args: Vec<Value> },
    /// Take the next message from this process's mailbox, waiting for one if
    /// need be, and answer with [`Process::received`].
    Receive,
    /// Deliver this message to the mailbox of that process, waiting for room
    /// if need be.
    Send { pid: u64, message: Message },
    /// Forget this process: it has ended.
    Exit,
}

impl View for Action {
    type V = ActionView;

    open spec fn view(&self) -> ActionView {
        match *self {
            Action::Continue => ActionView::Continue,
            Action::Print(value) => ActionView::Print(value),
            Action::Spawn { name, args } => ActionView::Spawn { name, args: args@ },
            Action::Receive => ActionView::Receive,
            Action::Send { pid, message } => ActionView::Send { pid, message },
            Action::Exit => ActionView::Exit,
        }
    }
}

struct Frame {
    function: Function,
    next_instr: usize,
    stack: Vec<Value>,
}

impl View for Frame {
    type V = FrameView;

    closed spec fn view(&self) -> FrameView {
        FrameView {
            function: self.function@,
            next_instr: self.next_instr as nat,
            stack: self.stack@,
        }
    }
}

/// One process: a call stack of frames, of which the top one is active.
pub struct Process {
    pid: u64,
    /// All frames but the active one, outermost first.
    callers: Vec<Frame>,
    active: Frame,
    status: Status,
}

impl View for Process {
    type V = ProcessView;

    closed spec fn view(&self) -> ProcessView {
        ProcessView {
            pid: self.pid,
            callers: self.callers@.map_values(|frame: Frame| frame@),
            active: self.active@,
            status: self.status,
        }
    }
}

impl Process {
    /// A process with the given pid that is about to run the named function of
    /// `module` on `args`. The function must exist and take as many arguments
    /// as are given.
    pub fn new(pid: u64, module: &Module, function_name: &str, args: Vec<Value>) -> (result:
        Result<Process, Fault>)
        ensures
            match result {
                Ok(process) => semantics::start(pid, module@, function_name@, args@) == Ok::<
                    ProcessView,
                    Fault,
                >(process@),
                Err(fault) => semantics::start(pid, module@, function_name@, args@) == Err::<
                    ProcessView,
                    Fault,
                >(fault),
            },
            result matches Ok(process) ==> process@.wf(),
    {
        let function = match module.get_function(function_name) {
            Some(function) => function,
            None => {
                return Err(Fault::UnknownFunction);
            },
        };
        if args.len() != function.arg_count() {
            return Err(Fault::ArgCountMismatch);
        }
        if function.arg_count() > function.stack_size() {
            return Err(Fault::StackOverflow);
        }
        let process = Process {
            pid,
            callers: Vec::new(),
            active: Frame { function, next_instr: 0, stack: args },
            status: Status::Running,
        };
        assert(process@.callers =~= Seq::empty());
        Ok(process)
    }

    /// The identifier of this process.
    pub fn pid(&self) -> (pid: u64)
        ensures
            pid == self@.pid,
    {
        self.pid
    }

    /// Where the process stands with respect to its host.
    pub fn status(&self) -> (status: Status)
        ensures
            status == self@.status,
    {
        self.status
    }

    /// The value stack of the active frame, top last.
    pub fn stack(&self) -> (stack: &[Value])
        ensures
            stack@ == self@.active.stack,
    {
        self.active.stack.as_slice()
    }

    /// The number of frames that wait for a call to return.
    pub fn depth(&self) -> (depth: usize)
        ensures
            depth == self@.callers.len(),
    {
        self.callers.len()
    }

    /// The instruction that [`Process::step`] would execute, if the program
    /// counter points at one.
    pub fn instruction(&self) -> (instr: Option<Instruction>)
        ensures
            instr == self@.current(),
    {
        let code = self.active.function.instructions();
        if self.active.next_instr < code.len() {
            Some(code[self.active.next_instr])
        } else {
            None
        }
    }

    /// Executes `Add` (`product` false) or `Mul` (`product` true).
    fn arithmetic(&mut self, product: bool) -> (result: Result<Action, Fault>)
        requires
            old(self).active.next_instr < usize::MAX,
        ensures
            match result {
                Ok(action) => semantics::combine(old(self)@, product) == Ok::<
                    (ProcessView, ActionView),
                    Fault,
                >((final(self)@, action@)),
                Err(fault) => semantics::combine(old(self)@, product) == Err::<
                    (ProcessView, ActionView),
                    Fault,
                >(fault) && *final(self) == *old(self),
            },
    {
        let n = self.active.stack.len();
        if n < 2 {
            return Err(Fault::StackUnderflow);
        }
        let (a, b) = match (self.active.stack[n - 1], self.active.stack[n - 2]) {
            (Value::Int(a), Value::Int(b)) => (a, b),
            _ => {
                return Err(Fault::TypeMismatch);
            },
        };
        let computed = if product {
            a.checked_mul(b)
        } else {
            a.checked_add(b)
        };
        let r = match computed {
            Some(r) => r,
            None => {
                return Err(Fault::ArithmeticOverflow);
            },
        };
        self.active.stack.truncate(n - 2);
        self.active.stack.push(Value::Int(r));
        self.active.next_instr = self.active.next_instr + 1;
        Ok(Action::Continue)
    }

    /// Executes `Call` of `callee`.
    fn call(&mut self, callee: Function) -> (result: Result<Action, Fault>)
        requires
            old(self).active.next_instr < usize::MAX,
        ensures
            match result {
                Ok(action) => semantics::call(old(self)@, callee@) == Ok::<
                    (ProcessView, ActionView),
                    Fault,
                >((final(self)@, action@)),
                Err(fault) => semantics::call(old(self)@, callee@) == Err::<
                    (ProcessView, ActionView),
                    Fault,
                >(fault) && *final(self) == *old(self),
            },
    {
        let n = self.active.stack.len();
        let arg_count = callee.arg_count();
        if n < arg_count {
            return Err(Fault::StackUnderflow);
        }
        if arg_count > callee.stack_size() {
            return Err(Fault::StackOverflow);
        }
        let args = self.active.stack.split_off(n - arg_count);
        let mut frame = Frame { function: callee, next_instr: 0, stack: args };
        std::mem::swap(&mut self.active, &mut frame);
        frame.next_instr = frame.next_instr + 1;
        self.callers.push(frame);
        assert(self@.callers =~= old(self)@.callers.push(frame@));
        Ok(Action::Continue)
    }

    /// Executes `Return`.
    fn ret(&mut self) -> (result: Result<Action, Fault>)
        requires
            old(self).active.next_instr < usize::MAX,
        ensures
            match result {
                Ok(action) => semantics::ret(old(self)@) == Ok::<(ProcessView, ActionView), Fault>(
                    (final(self)@, action@),
                ),
                Err(fault) => semantics::ret(old(self)@) == Err::<(ProcessView, ActionView), Fault>(
                    fault,
                ) && *final(self) == *old(self),
            },
    {
        let depth = self.callers.len();
        let n = self.active.stack.len();
        if depth == 0 {
            if n != 0 {
                return Err(Fault::NonEmptyExit);
            }
            self.active.next_instr = self.active.next_instr + 1;
            self.status = Status::Exited;
            return Ok(Action::Exit);
        }
        let caller = &self.callers[depth - 1];
        let held = caller.stack.len();
        if held > caller.function.stack_size() || n > caller.function.stack_size() - held {
            return Err(Fault::StackOverflow);
        }
        let mut frame = self.callers.pop().unwrap();
        frame.stack.append(&mut self.active.stack);
        self.active = frame;
        assert(self@.callers =~= old(self)@.callers.drop_last());
        Ok(Action::Continue)
    }

    /// Executes `Spawn` of the function `callee`, which the module has under
    /// `name`.
    fn spawn(&mut self, name: &'static str, callee: Function) -> (result: Result<Action, Fault>)
        requires
            old(self).active.next_instr < usize::MAX,
        ensures
            match result {
                Ok(action) => semantics::spawn(old(self)@, name, callee@) == Ok::<
                    (ProcessView, ActionView),
                    Fault,
                >((final(self)@, action@)),
                Err(fault) => semantics::spawn(old(self)@, name, callee@) == Err::<
                    (ProcessView, ActionView),
                    Fault,
                >(fault) && *final(self) == *old(self),
            },
    {
        let n = self.active.stack.len();
        let arg_count = callee.arg_count();
        if n < arg_count {
            return Err(Fault::StackUnderflow);
        }
        if n - arg_count >= self.active.function.stack_size() {
            return Err(Fault::StackOverflow);
        }
        let args = self.active.stack.split_off(n - arg_count);
        self.active.next_instr = self.active.next_instr + 1;
        self.status = Status::AwaitingPid;
        Ok(Action::Spawn { name, args })
    }

    /// Executes `Send` of a message called `name`.
    fn send(&mut self, name: &'static str) -> (result: Result<Action, Fault>)
        requires
            old(self).active.next_instr < usize::MAX,
        ensures
            match result {
                Ok(action) => semantics::send(old(self)@, name) == Ok::<
                    (ProcessView, ActionView),
                    Fault,
                >((final(self)@, action@)),
                Err(fault) => semantics::send(old(self)@, name) == Err::<
                    (ProcessView, ActionView),
                    Fault,
                >(fault) && *final(self) == *old(self),
            },
    {
        let n = self.active.stack.len();
        if n < 2 {
            return Err(Fault::StackUnderflow);
        }
        let pid = match self.active.stack[n - 2] {
            Value::Pid(pid) => pid,
            _ => {
                return Err(Fault::TypeMismatch);
            },
        };
        let value = self.active.stack[n - 1];
        self.active.stack.truncate(n - 2);
        self.active.next_instr = self.active.next_instr + 1;
        Ok(Action::Send { pid, message: Message { name, value } })
    }

    /// Executes the instruction at the program counter and says what the host
    /// has to do before the next step.
    ///
    /// A fault leaves the process as it was. Integer arithmetic is checked: a
    /// sum or product that does not fit is a fault.
    pub fn step(&mut self, module: &Module) -> (result: Result<Action, Fault>)
        ensures
            match result {
                Ok(action) => semantics::step(old(self)@, module@) == Ok::<
                    (ProcessView, ActionView),
                    Fault,
                >((final(self)@, action@)),
                Err(fault) => semantics::step(old(self)@, module@) == Err::<
                    (ProcessView, ActionView),
                    Fault,
                >(fault) && final(self)@ == old(self)@,
            },
            old(self)@.wf() ==> final(self)@.wf(),
    {
        if self.status != Status::Running {
            return Err(Fault::OutOfTurn);
        }
        let pc = self.active.next_instr;
        let code = self.active.function.instructions();
        let code_len = code.len();
        if pc >= code_len {
            return Err(Fault::OutOfProgram);
        }
        let instr = code[pc];
        let n = self.active.stack.len();
        let limit = self.active.function.stack_size();
        let result = match instr {
            Instruction::Print => {
                match self.active.stack.pop() {
                    Some(value) => {
                        self.active.next_instr = pc + 1;
                        Ok(Action::Print(value))
                    },
                    None => Err(Fault::StackUnderflow),
                }
            },
            Instruction::PushLiteral(value) => {
                if n >= limit {
                    Err(Fault::StackOverflow)
                } else {
                    self.active.stack.push(value);
                    self.active.next_instr = pc + 1;
                    Ok(Action::Continue)
                }
            },
            Instruction::Pop => {
                match self.active.stack.pop() {
                    Some(_) => {
                        self.active.next_instr = pc + 1;
                        Ok(Action::Continue)
                    },
                    None => Err(Fault::StackUnderflow),
                }
            },
            Instruction::Dup(i) => {
                if n <= i {
                    Err(Fault::StackUnderflow)
                } else if n >= limit {
                    Err(Fault::StackOverflow)
                } else {
                    let value = self.active.stack[n - 1 - i];
                    self.active.stack.push(value);
                    self.active.next_instr = pc + 1;
                    Ok(Action::Continue)
                }
            },
            Instruction::Swap(i) => {
                if n <= i {
                    Err(Fault::StackUnderflow)
                } else {
                    let top = self.active.stack[n - 1];
                    let other = self.active.stack[n - 1 - i];
                    self.active.stack.set(n - 1, other);
                    self.active.stack.set(n - 1 - i, top);
                    self.active.next_instr = pc + 1;
                    Ok(Action::Continue)
                }
            },
            Instruction::Jump(dest) => {
                if dest > code_len {
                    Err(Fault::OutOfProgram)
                } else {
                    self.active.next_instr = dest;
                    Ok(Action::Continue)
                }
            },
            Instruction::JumpIfEqual(dest, cond) => {
                if n == 0 {
                    Err(Fault::StackUnderflow)
                } else if self.active.stack[n - 1] != cond {
                    self.active.stack.pop();
                    self.active.next_instr = pc + 1;
                    Ok(Action::Continue)
                } else if dest > code_len {
                    Err(Fault::OutOfProgram)
                } else {
                    self.active.stack.pop();
                    self.active.next_instr = dest;
                    Ok(Action::Continue)
                }
            },
            Instruction::Add => self.arithmetic(false),
            Instruction::Mul => self.arithmetic(true),
            Instruction::Call(name) => {
                match module.get_function(name) {
                    Some(callee) => self.call(callee),
                    None => Err(Fault::UnknownFunction),
                }
            },
            Instruction::Return => self.ret(),
            Instruction::Spawn(name) => {
                match module.get_function(name) {
                    Some(callee) => self.spawn(name, callee),
                    None => Err(Fault::UnknownFunction),
                }
            },
            Instruction::Receive => {
                if n > limit || limit - n < 2 {
                    Err(Fault::StackOverflow)
                } else {
                    self.active.next_instr = pc + 1;
                    self.status = Status::AwaitingMessage;
                    Ok(Action::Receive)
                }
            },
            Instruction::Send(name) => self.send(name),
        };
        proof {
            if old(self)@.wf() {
                laws::lemma_step_keeps_wf(old(self)@, module@);
            }
        }
        result
    }

    /// The host's answer to [`Action::Spawn`]: the pid of the process it
    /// started. The pid is pushed and the process runs again.
    pub fn spawned(&mut self, pid: u64) -> (result: Result<(), Fault>)
        ensures
            match result {
                Ok(_) => semantics::spawned(old(self)@, pid) == Ok::<ProcessView, Fault>(
                    final(self)@,
                ),
                Err(fault) => semantics::spawned(old(self)@, pid) == Err::<ProcessView, Fault>(
                    fault,
                ) && final(self)@ == old(self)@,
            },
            old(self)@.wf() ==> final(self)@.wf(),
    {
        if self.status != Status::AwaitingPid {
            return Err(Fault::OutOfTurn);
        }
        self.active.stack.push(Value::Pid(pid));
        self.status = Status::Running;
        Ok(())
    }

    /// The host's answer to [`Action::Receive`]: the message that arrived.
    /// Its name is pushed, then its value, and the process runs again.
    pub fn received(&mut self, message: Message) -> (result: Result<(), Fault>)
        ensures
            match result {
                Ok(_) => semantics::received(old(self)@, message) == Ok::<ProcessView, Fault>(
                    final(self)@,
                ),
                Err(fault) => semantics::received(old(self)@, message) == Err::<
                    ProcessView,
                    Fault,
                >(fault) && final(self)@ == old(self)@,
            },
            old(self)@.wf() ==> final(self)@.wf(),
    {
        if self.status != Status::AwaitingMessage {
            return Err(Fault::OutOfTurn);
        }
        self.active.stack.push(Value::Str(message.name));
        self.active.stack.push(message.value);
        self.status = Status::Running;
        Ok(())
    }
}

} // verus!
