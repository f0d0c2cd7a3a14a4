//! What holds of every process, proved from the semantics.

use crate::data::{Message, Value};
use crate::fault::Fault;
use crate::program::Instruction;
use crate::semantics::{
    received, ret, spawned, start, step, ActionView, FrameView, ModuleView, ProcessView, Status,
};
use vstd::prelude::*;

verus! {

/// `q` is what `p` becomes by one transition: by executing an instruction, or
/// by an answer of the host to `Spawn` or `Receive`.
pub open spec fn follows(p: ProcessView, q: ProcessView, module: ModuleView) -> bool {
    ||| step(p, module) matches Ok((r, _)) && r == q
    ||| exists|pid: u64| #[trigger] spawned(p, pid) == Ok::<ProcessView, Fault>(q)
    ||| exists|message: Message| #[trigger] received(p, message) == Ok::<ProcessView, Fault>(q)
}

/// `trace` is a history of one process: each state follows from the one
/// before it.
pub open spec fn execution(trace: Seq<ProcessView>, module: ModuleView) -> bool {
    forall|i: int| 0 <= i < trace.len() - 1 ==> follows(#[trigger] trace[i], trace[i + 1], module)
}

/// Every process starts within its bounds.
pub proof fn lemma_start_wf(pid: u64, module: ModuleView, name: Seq<char>, args: Seq<Value>)
    ensures
        start(pid, module, name, args) matches Ok(p) ==> p.wf(),
{
}

/// The stack bound, one instruction at a time: a step of a process that is
/// within its bounds leaves it within its bounds.
pub proof fn lemma_step_keeps_wf(p: ProcessView, module: ModuleView)
    requires
        p.wf(),
    ensures
        step(p, module) matches Ok((q, _)) ==> q.wf(),
{
}

/// The stack bound, one transition at a time: whatever follows from a process
/// within its bounds is within its bounds.
pub proof fn lemma_follows_keeps_wf(p: ProcessView, q: ProcessView, module: ModuleView)
    requires
        p.wf(),
        follows(p, q, module),
    ensures
        q.wf(),
{
    lemma_step_keeps_wf(p, module);
}

/// The stack bound: in a history that begins within bounds, every frame is
/// within its bounds at every instruction boundary. Of the active frame that
/// says that its stack is no deeper than its function allows, and that its
/// program counter is inside its function or just past its end.
pub proof fn lemma_stack_bound(trace: Seq<ProcessView>, module: ModuleView, i: int)
    requires
        execution(trace, module),
        0 <= i < trace.len(),
        trace[0].wf(),
    ensures
        trace[i].wf(),
        trace[i].active.stack.len() <= trace[i].active.function.stack_size,
        trace[i].active.next_instr <= trace[i].active.function.instructions.len(),
    decreases i,
{
    if i > 0 {
        lemma_stack_bound(trace, module, i - 1);
        lemma_follows_keeps_wf(trace[i - 1], trace[i], module);
    }
}

/// A process keeps its pid through all of its history.
pub proof fn lemma_pid_stays(trace: Seq<ProcessView>, module: ModuleView, i: int)
    requires
        execution(trace, module),
        0 <= i < trace.len(),
    ensures
        trace[i].pid == trace[0].pid,
    decreases i,
{
    if i > 0 {
        lemma_pid_stays(trace, module, i - 1);
    }
}

/// A transition touches the top of the call stack only: a frame that waits
/// before and after it is the same before and after.
pub proof fn lemma_waiting_frames_stay(p: ProcessView, q: ProcessView, module: ModuleView, k: int)
    requires
        follows(p, q, module),
        0 <= k < p.callers.len(),
        k < q.callers.len(),
    ensures
        q.callers[k] == p.callers[k],
{
}

/// While a call lasts, the frames under it stay as the call left them: in a
/// history whose states after the first all have more than `depth` waiting
/// frames, the lowest `depth + 1` waiting frames do not change after the
/// second state.
proof fn lemma_frames_under_call(trace: Seq<ProcessView>, module: ModuleView, depth: int, i: int)
    requires
        execution(trace, module),
        0 <= depth,
        1 <= i < trace.len(),
        forall|j: int| 1 <= j < trace.len() ==> (#[trigger] trace[j]).callers.len() > depth,
    ensures
        trace[i].callers.take(depth + 1) == trace[1].callers.take(depth + 1),
    decreases i,
{
    if i > 1 {
        lemma_frames_under_call(trace, module, depth, i - 1);
        let p = trace[i - 1];
        let q = trace[i];
        assert forall|k: int| 0 <= k < depth + 1 implies q.callers[k] == p.callers[k] by {
            lemma_waiting_frames_stay(p, q, module, k);
        }
    }
}

/// The only transition of a running process is a step.
proof fn lemma_running_steps(p: ProcessView, q: ProcessView, module: ModuleView)
    requires
        p.status == Status::Running,
        follows(p, q, module),
    ensures
        step(p, module) matches Ok((r, _)) && r == q,
{
}

/// What a successful `Call` leaves behind: the caller waits on top of the
/// other waiting frames, without the arguments and ready to go on after the
/// call.
proof fn lemma_call_enters(p: ProcessView, q: ProcessView, module: ModuleView, name: &'static str)
    requires
        p.status == Status::Running,
        p.current() == Some(Instruction::Call(name)),
        step(p, module) matches Ok((r, _)) && r == q,
    ensures
        module.contains_key(name@),
        p.active.stack.len() >= module[name@].arg_count,
        q.callers == p.callers.push(
            FrameView {
                next_instr: p.active.next_instr + 1,
                stack: p.active.stack.take(p.active.stack.len() - module[name@].arg_count),
                ..p.active
            },
        ),
{
}

/// What `Return` does in a frame that was called.
proof fn lemma_return_leaves(p: ProcessView, module: ModuleView)
    requires
        p.status == Status::Running,
        p.current() == Some(Instruction::Return),
        p.callers.len() > 0,
    ensures
        step(p, module) == ret(p),
{
}

/// Call/return symmetry. Take a history that begins with a process about to
/// call `callee`, goes on inside that call, and ends with the process about
/// to return from it. Let `kept` be the caller's stack without the arguments
/// and `returned` the callee's stack at its `Return`. Then the return resumes
/// the caller after its `Call` with the stack `kept + returned`, all frames
/// under it as they were; or it faults with a stack overflow, which it does
/// exactly when `kept + returned` is deeper than the caller's function allows.
pub proof fn lemma_call_return(trace: Seq<ProcessView>, module: ModuleView, name: &'static str)
    requires
        execution(trace, module),
        trace.len() >= 2,
        trace[0].status == Status::Running,
        trace[0].current() == Some(Instruction::Call(name)),
        forall|i: int|
            1 <= i < trace.len() ==> (#[trigger] trace[i]).callers.len() > trace[0].callers.len(),
        trace.last().callers.len() == trace[0].callers.len() + 1,
        trace.last().status == Status::Running,
        trace.last().current() == Some(Instruction::Return),
    ensures
        module.contains_key(name@),
        trace[0].active.stack.len() >= module[name@].arg_count,
        ({
            let caller = trace[0];
            let kept = caller.active.stack.take(
                caller.active.stack.len() - module[name@].arg_count,
            );
            let returned = trace.last().active.stack;
            if kept.len() + returned.len() <= caller.active.function.stack_size {
                step(trace.last(), module) == Ok::<(ProcessView, ActionView), Fault>(
                    (
                        ProcessView {
                            active: FrameView {
                                next_instr: caller.active.next_instr + 1,
                                stack: kept + returned,
                                ..caller.active
                            },
                            ..caller
                        },
                        ActionView::Continue,
                    ),
                )
            } else {
                step(trace.last(), module) == Err::<(ProcessView, ActionView), Fault>(
                    Fault::StackOverflow,
                )
            }
        }),
{
    let caller = trace[0];
    let depth = caller.callers.len() as int;
    let entered = trace[1];
    let last = trace.last();
    lemma_running_steps(caller, entered, module);
    lemma_call_enters(caller, entered, module, name);
    let kept = caller.active.stack.take(caller.active.stack.len() - module[name@].arg_count);
    let waiting = FrameView {
        next_instr: caller.active.next_instr + 1,
        stack: kept,
        ..caller.active
    };
    lemma_pid_stays(trace, module, trace.len() - 1);
    lemma_frames_under_call(trace, module, depth, trace.len() - 1);
    assert(last.callers == caller.callers.push(waiting)) by {
        assert(entered.callers.take(depth + 1) =~= entered.callers);
    }
    assert(last.callers.drop_last() =~= caller.callers);
    lemma_return_leaves(last, module);
}

/// `Swap(0)` leaves the stack as it is: the process goes on to the next
/// instruction with the very same stack. On an empty stack it faults, which
/// changes nothing either.
pub proof fn lemma_swap_zero(p: ProcessView, module: ModuleView)
    requires
        p.status == Status::Running,
        p.current() == Some(Instruction::Swap(0)),
    ensures
        p.active.stack.len() > 0 ==> step(p, module) == Ok::<(ProcessView, ActionView), Fault>(
            (p.moved(p.active.next_instr + 1, p.active.stack), ActionView::Continue),
        ),
        p.active.stack.len() == 0 ==> step(p, module) == Err::<(ProcessView, ActionView), Fault>(
            Fault::StackUnderflow,
        ),
{
    let s = p.active.stack;
    if s.len() > 0 {
        assert(s.update(s.len() - 1, s[s.len() - 1]).update(s.len() - 1, s[s.len() - 1]) =~= s);
    }
}

/// `Dup(0)` on a stack of one value leaves two equal values, where the
/// function allows a stack of two; where it does not, the stack overflows.
pub proof fn lemma_dup_zero_of_one(p: ProcessView, module: ModuleView)
    requires
        p.status == Status::Running,
        p.current() == Some(Instruction::Dup(0)),
        p.active.stack.len() == 1,
    ensures
        p.active.function.stack_size >= 2 ==> step(p, module) == Ok::<
            (ProcessView, ActionView),
            Fault,
        >(
            (
                p.moved(p.active.next_instr + 1, seq![p.active.stack[0], p.active.stack[0]]),
                ActionView::Continue,
            ),
        ),
        p.active.function.stack_size < 2 ==> step(p, module) == Err::<
            (ProcessView, ActionView),
            Fault,
        >(Fault::StackOverflow),
{
    let s = p.active.stack;
    assert(s.push(s[0]) =~= seq![s[0], s[0]]);
}

/// `JumpIfEqual` never jumps when the value on top of the stack and the
/// value to compare with are of different variants, whatever the target: it
/// takes the value off the stack and goes on with the next instruction.
pub proof fn lemma_jump_if_unequal_types(
    p: ProcessView,
    module: ModuleView,
    dest: usize,
    cond: Value,
)
    requires
        p.status == Status::Running,
        p.current() == Some(Instruction::JumpIfEqual(dest, cond)),
        p.active.stack.len() > 0,
        !p.active.stack.last().same_variant(cond),
    ensures
        step(p, module) == Ok::<(ProcessView, ActionView), Fault>(
            (p.moved(p.active.next_instr + 1, p.active.stack.drop_last()), ActionView::Continue),
        ),
{
}

/// A function without room for its own arguments is never entered: no
/// process starts in it, and no call of it succeeds.
pub proof fn lemma_ill_formed_function_never_runs(
    p: ProcessView,
    module: ModuleView,
    name: &'static str,
    args: Seq<Value>,
)
    requires
        module.contains_key(name@),
        !module[name@].well_formed(),
    ensures
        start(p.pid, module, name@, args) is Err,
        p.current() == Some(Instruction::Call(name)) ==> step(p, module) is Err,
{
}

/// A process ends exactly by returning from its outermost frame with an empty
/// stack: that, and nothing else, makes a step answer `Exit`, and it leaves
/// the process exited.
pub proof fn lemma_exit(p: ProcessView, module: ModuleView)
    ensures
        (step(p, module) matches Ok((_, action)) && action == ActionView::Exit) <==> (p.status
            == Status::Running && p.current() == Some(Instruction::Return) && p.callers.len() == 0
            && p.active.stack.len() == 0),
        step(p, module) matches Ok((q, _)) ==> (q.status == Status::Exited <==> p.status
            == Status::Running && p.current() == Some(Instruction::Return) && p.callers.len()
            == 0),
{
}

/// `q` is what `p` becomes by returning from its outermost frame with an
/// empty stack: the one way for a process to end.
pub open spec fn ends(p: ProcessView, q: ProcessView, module: ModuleView) -> bool {
    &&& p.status == Status::Running
    &&& p.current() == Some(Instruction::Return)
    &&& p.callers.len() == 0
    &&& p.active.stack.len() == 0
    &&& q.status == Status::Exited
    &&& step(p, module) == Ok::<(ProcessView, ActionView), Fault>((q, ActionView::Exit))
}

/// A process that has exited has returned from its outermost frame: where
/// a history ends with an exited process, its last transition is that
/// return, and no state before the last is exited.
pub proof fn lemma_exited_by_return(trace: Seq<ProcessView>, module: ModuleView)
    requires
        execution(trace, module),
        trace.len() >= 2,
        trace.last().status == Status::Exited,
    ensures
        ends(trace[trace.len() - 2], trace.last(), module),
        forall|i: int| 0 <= i < trace.len() - 1 ==> (#[trigger] trace[i]).status != Status::Exited,
{
    let at = trace.len() - 2;
    assert(follows(trace[at], trace[at + 1], module));
    lemma_exit(trace[at], module);
    assert forall|i: int| 0 <= i < trace.len() - 1 implies (#[trigger] trace[i]).status
        != Status::Exited by {
        assert(follows(trace[i], trace[i + 1], module));
    }
}

/// Once exited, always exited: nothing follows from a process that has
/// ended.
pub proof fn lemma_exited_is_final(p: ProcessView, q: ProcessView, module: ModuleView)
    requires
        p.status == Status::Exited,
    ensures
        !follows(p, q, module),
{
}

} // verus!
