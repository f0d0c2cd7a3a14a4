//! What one process does, instruction by instruction, stated over sequences.
//!
//! A process is a stack of frames with the active one on top. Executing an
//! instruction maps a process and the module it runs in to the process
//! afterwards and the [`ActionView`] it asks of its host, or to a [`Fault`].

use crate::data::{Message, Value};
use crate::fault::Fault;
use crate::program::{FunctionView, Instruction};
use vstd::prelude::*;

verus! {

/// Where a process stands with respect to its host.
#[derive(Clone, Copy, Debug, PartialEq, Eq, Structural)]
pub enum Status {
    /// Ready to execute its next instruction.
    Running,
    /// Has asked for a new process and waits to be told its pid.
    AwaitingPid,
    /// Waits for a message.
    AwaitingMessage,
    /// Has returned from its outermost function.
    Exited,
}

/// What a process asks of its host after an instruction.
pub enum ActionView {
    /// Nothing.
    Continue,
    /// Show this value.
    Print(Value),
    /// Start a process running the named function on these arguments, and
    /// answer with its pid.
    Spawn { name: &'static str, args: Seq<Value> },
    /// Answer with the next message from this process's mailbox.
    Receive,
    /// Deliver this message to the mailbox of that process.
    Send { pid: u64, message: Message },
    /// Forget this process: it has ended.
    Exit,
}

/// One activation of a function: the function, the index of the instruction to
/// execute next, and the value stack with its top at the end.
pub struct FrameView {
    pub function: FunctionView,
    pub next_instr: nat,
    pub stack: Seq<Value>,
}

/// A process: its pid, the frames that wait for a call to return (outermost
/// first), the active frame, and its status.
pub struct ProcessView {
    pub pid: u64,
    pub callers: Seq<FrameView>,
    pub active: FrameView,
    pub status: Status,
}

/// The result of a transition that may ask something of the host.
pub type Outcome = Result<(ProcessView, ActionView), Fault>;

/// A module, as the processes see it: functions by name.
pub type ModuleView = Map<Seq<char>, FunctionView>;

impl FrameView {
    /// The invariant of a frame: its function has room for its arguments, the
    /// stack is no deeper than the function allows, and the counter points at
    /// an instruction of the function or just past the last one.
    pub open spec fn wf(self) -> bool {
        &&& self.function.well_formed()
        &&& self.stack.len() <= self.function.stack_size
        &&& self.next_instr <= self.function.instructions.len()
    }
}

impl ProcessView {
    /// A process that is about to execute the first instruction of `function`
    /// with `args` as its stack.
    pub open spec fn start(pid: u64, function: FunctionView, args: Seq<Value>) -> ProcessView {
        ProcessView {
            pid,
            callers: Seq::empty(),
            active: FrameView { function, next_instr: 0, stack: args },
            status: Status::Running,
        }
    }

    /// The invariant of a process: every frame keeps within the bounds of its
    /// function, and a process that waits for an answer has room for it on
    /// its stack.
    pub open spec fn wf(self) -> bool {
        &&& self.active.wf()
        &&& forall|i: int| 0 <= i < self.callers.len() ==> (#[trigger] self.callers[i]).wf()
        &&& self.status == Status::AwaitingPid ==> self.active.stack.len() + 1
            <= self.active.function.stack_size
        &&& self.status == Status::AwaitingMessage ==> self.active.stack.len() + 2
            <= self.active.function.stack_size
    }

    /// The instruction that the process executes next, if its counter points
    /// at one.
    pub open spec fn current(self) -> Option<Instruction> {
        if self.active.next_instr < self.active.function.instructions.len() {
            Some(self.active.function.instructions[self.active.next_instr as int])
        } else {
            None
        }
    }

    /// This process with the active frame's counter at `next_instr` and with
    /// `stack` as its stack.
    pub open spec fn moved(self, next_instr: nat, stack: Seq<Value>) -> ProcessView {
        ProcessView { active: FrameView { next_instr, stack, ..self.active }, ..self }
    }

    /// This process after a jump to `dest`, with `stack` as its stack: a
    /// jump must stay inside the function, or land just past its end.
    pub open spec fn jumped(self, dest: nat, stack: Seq<Value>) -> Outcome {
        if dest <= self.active.function.instructions.len() {
            Ok((self.moved(dest, stack), ActionView::Continue))
        } else {
            Err(Fault::OutOfProgram)
        }
    }

    /// This process with another status.
    pub open spec fn in_status(self, status: Status) -> ProcessView {
        ProcessView { status, ..self }
    }
}

/// The two operands of `Add` and `Mul`: the two values on top of the stack,
/// if they are both integers.
pub open spec fn operands(stack: Seq<Value>) -> Option<(int, int)> {
    match (stack[stack.len() - 1], stack[stack.len() - 2]) {
        (Value::Int(a), Value::Int(b)) => Some((a as int, b as int)),
        _ => None,
    }
}

/// `Add` (`product` false) and `Mul` (`product` true): the two integers on
/// top of the stack make way for their sum or product, which must fit a signed
/// 64-bit integer.
pub open spec fn combine(p: ProcessView, product: bool) -> Outcome {
    let s = p.active.stack;
    if s.len() < 2 {
        Err(Fault::StackUnderflow)
    } else {
        match operands(s) {
            Some((a, b)) => {
                let r = if product {
                    a * b
                } else {
                    a + b
                };
                if i64::MIN <= r <= i64::MAX {
                    Ok((p.moved(
                            p.active.next_instr + 1,
                            s.take(s.len() - 2).push(Value::Int(r as i64)),
                        ),
                        ActionView::Continue))
                } else {
                    Err(Fault::ArithmeticOverflow)
                }
            },
            None => Err(Fault::TypeMismatch),
        }
    }
}

/// `Call`: the top `callee.arg_count` values become the stack of a new active
/// frame for `callee`; the frame that was active waits, with the rest of its
/// stack, to go on after the call.
pub open spec fn call(p: ProcessView, callee: FunctionView) -> Outcome {
    let s = p.active.stack;
    let kept = s.len() - callee.arg_count;
    if s.len() < callee.arg_count {
        Err(Fault::StackUnderflow)
    } else if callee.arg_count > callee.stack_size {
        Err(Fault::StackOverflow)
    } else {
        let waiting = FrameView {
            next_instr: p.active.next_instr + 1,
            stack: s.take(kept),
            ..p.active
        };
        Ok((ProcessView {
                callers: p.callers.push(waiting),
                active: FrameView { function: callee, next_instr: 0, stack: s.skip(kept) },
                ..p
            },
            ActionView::Continue))
    }
}

/// `Return`: from the outermost frame the process exits, and its stack must
/// be empty by then; from any other frame the values on the stack are appended
/// to the stack of the caller, which goes on where it left off.
pub open spec fn ret(p: ProcessView) -> Outcome {
    let s = p.active.stack;
    if p.callers.len() == 0 {
        if s.len() != 0 {
            Err(Fault::NonEmptyExit)
        } else {
            Ok((p.moved(p.active.next_instr + 1, s).in_status(Status::Exited), ActionView::Exit))
        }
    } else {
        let caller = p.callers.last();
        if caller.stack.len() + s.len() > caller.function.stack_size {
            Err(Fault::StackOverflow)
        } else {
            Ok((ProcessView {
                    callers: p.callers.drop_last(),
                    active: FrameView { stack: caller.stack + s, ..caller },
                    ..p
                },
                ActionView::Continue))
        }
    }
}

/// `Spawn`: the top `callee.arg_count` values leave the stack as the
/// arguments of the new process, and the process waits for the new pid, for
/// which there must be room.
pub open spec fn spawn(p: ProcessView, name: &'static str, callee: FunctionView) -> Outcome {
    let s = p.active.stack;
    let kept = s.len() - callee.arg_count;
    if s.len() < callee.arg_count {
        Err(Fault::StackUnderflow)
    } else if kept + 1 > p.active.function.stack_size {
        Err(Fault::StackOverflow)
    } else {
        Ok((p.moved(p.active.next_instr + 1, s.take(kept)).in_status(Status::AwaitingPid),
            ActionView::Spawn { name, args: s.skip(kept) }))
    }
}

/// `Send`: the payload on top of the stack and the pid of the recipient under
/// it leave the stack and go to the host as a message to deliver.
pub open spec fn send(p: ProcessView, name: &'static str) -> Outcome {
    let s = p.active.stack;
    if s.len() < 2 {
        Err(Fault::StackUnderflow)
    } else {
        match s[s.len() - 2] {
            Value::Pid(pid) => Ok((p.moved(p.active.next_instr + 1, s.take(s.len() - 2)),
                ActionView::Send { pid, message: Message { name, value: s.last() } })),
            _ => Err(Fault::TypeMismatch),
        }
    }
}

/// The effect of `instr` on a running process whose counter points at it.
pub open spec fn execute(p: ProcessView, module: ModuleView, instr: Instruction) -> Outcome {
    let s = p.active.stack;
    let n = s.len();
    let limit = p.active.function.stack_size;
    let next = p.active.next_instr + 1;
    match instr {
        Instruction::Print => if n == 0 {
            Err(Fault::StackUnderflow)
        } else {
            Ok((p.moved(next, s.drop_last()), ActionView::Print(s.last())))
        },
        Instruction::PushLiteral(v) => if n >= limit {
            Err(Fault::StackOverflow)
        } else {
            Ok((p.moved(next, s.push(v)), ActionView::Continue))
        },
        Instruction::Pop => if n == 0 {
            Err(Fault::StackUnderflow)
        } else {
            Ok((p.moved(next, s.drop_last()), ActionView::Continue))
        },
        Instruction::Dup(i) => if n <= i {
            Err(Fault::StackUnderflow)
        } else if n >= limit {
            Err(Fault::StackOverflow)
        } else {
            Ok((p.moved(next, s.push(s[n - 1 - i])), ActionView::Continue))
        },
        Instruction::Swap(i) => if n <= i {
            Err(Fault::StackUnderflow)
        } else {
            Ok((p.moved(next, s.update(n - 1, s[n - 1 - i]).update(n - 1 - i, s[n - 1])),
                ActionView::Continue))
        },
        Instruction::Jump(dest) => p.jumped(dest as nat, s),
        Instruction::JumpIfEqual(dest, cond) => if n == 0 {
            Err(Fault::StackUnderflow)
        } else if s.last().same(cond) {
            p.jumped(dest as nat, s.drop_last())
        } else {
            Ok((p.moved(next, s.drop_last()), ActionView::Continue))
        },
        Instruction::Add => combine(p, false),
        Instruction::Mul => combine(p, true),
        Instruction::Call(name) => if module.contains_key(name@) {
            call(p, module[name@])
        } else {
            Err(Fault::UnknownFunction)
        },
        Instruction::Return => ret(p),
        Instruction::Spawn(name) => if module.contains_key(name@) {
            spawn(p, name, module[name@])
        } else {
            Err(Fault::UnknownFunction)
        },
        Instruction::Receive => if n + 2 > limit {
            Err(Fault::StackOverflow)
        } else {
            Ok((p.moved(next, s).in_status(Status::AwaitingMessage), ActionView::Receive))
        },
        Instruction::Send(name) => send(p, name),
    }
}

/// One step of a process: it must be running and its counter must point at an
/// instruction, which is then executed.
pub open spec fn step(p: ProcessView, module: ModuleView) -> Outcome {
    if p.status != Status::Running {
        Err(Fault::OutOfTurn)
    } else {
        match p.current() {
            Some(instr) => execute(p, module, instr),
            None => Err(Fault::OutOfProgram),
        }
    }
}

/// The host's answer to `Spawn`: the pid of the new process is pushed, and
/// the process runs again.
pub open spec fn spawned(p: ProcessView, pid: u64) -> Result<ProcessView, Fault> {
    if p.status != Status::AwaitingPid {
        Err(Fault::OutOfTurn)
    } else {
        Ok(p.moved(p.active.next_instr, p.active.stack.push(Value::Pid(pid))).in_status(
            Status::Running))
    }
}

/// The host's answer to `Receive`: the name of the message is pushed, then
/// its value, and the process runs again.
pub open spec fn received(p: ProcessView, message: Message) -> Result<ProcessView, Fault> {
    if p.status != Status::AwaitingMessage {
        Err(Fault::OutOfTurn)
    } else {
        Ok(p.moved(
            p.active.next_instr,
            p.active.stack.push(Value::Str(message.name)).push(message.value),
        ).in_status(Status::Running))
    }
}

/// A process that is about to run the function that `module` has under
/// `name`, on `args`: the function must exist and take that many arguments,
/// and the arguments must fit its stack.
pub open spec fn start(pid: u64, module: ModuleView, name: Seq<char>, args: Seq<Value>) -> Result<
    ProcessView,
    Fault,
> {
    if !module.contains_key(name) {
        Err(Fault::UnknownFunction)
    } else if args.len() != module[name].arg_count {
        Err(Fault::ArgCountMismatch)
    } else if module[name].arg_count > module[name].stack_size {
        Err(Fault::StackOverflow)
    } else {
        Ok(ProcessView::start(pid, module[name], args))
    }
}

} // verus!
