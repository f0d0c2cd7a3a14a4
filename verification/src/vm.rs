//! The supervisor: the module, the pid counter, and the registry of mailboxes.
//!
//! A process is alive from the moment [`VMInner::spawn_process`] registers its
//! mailbox until [`VMInner::exit`] removes it, which it does for a process
//! that has ended and for no other. The host holds one `VMInner`
//! behind a lock, takes the lock for each of the operations here, and never holds
//! it while it waits.

use crate::data::{Message, Value};
use crate::fault::Fault;
use crate::lifecycle::{Event, Lifecycle};
use crate::process::Process;
use crate::program::{share, Module};
use crate::semantics::{start, ModuleView, ProcessView, Status};
use std::collections::HashMap;
use std::sync::Arc;
use tokio::sync::mpsc::{Receiver, Sender};
use tokio::sync::Notify;
use vstd::prelude::*;

verus! {

broadcast use vstd::std_specs::hash::group_hash_axioms;

/// The sending end of a mailbox, `tokio::sync::mpsc::Sender`. To Verus a
/// sender stands for the mailbox that it feeds: two senders are equal when
/// they feed the same mailbox.
#[verifier::external_type_specification]
#[verifier::external_body]
#[verifier::reject_recursive_types(T)]
pub struct ExSender<T>(Sender<T>);

/// The receiving end of a mailbox, `tokio::sync::mpsc::Receiver`.
#[verifier::external_type_specification]
#[verifier::external_body]
#[verifier::reject_recursive_types(T)]
pub struct ExReceiver<T>(Receiver<T>);

/// The signal on which the host waits for processes to exit,
/// `tokio::sync::Notify`.
#[verifier::external_type_specification]
#[verifier::external_body]
pub struct ExNotify(Notify);

/// The number of messages that the mailbox behind `sender` holds at most:
/// the number its channel was made with.
pub uninterp spec fn mailbox_capacity(sender: Sender<Message>) -> nat;

/// Whether what is sent through `sender` arrives at `receiver`: whether both
/// are ends of one channel.
pub uninterp spec fn feeds(sender: Sender<Message>, receiver: Receiver<Message>) -> bool;

/// `tokio::sync::mpsc::channel` makes a bounded channel and hands out its
/// two ends. The channel buffers up to `capacity` messages, and what goes in
/// at the sender comes out at the receiver. It panics on a capacity of zero or
/// of more than a semaphore can count, `usize::MAX >> 3`: the bound asked for
/// here stays under that on every machine.
#[verifier::external_body]
fn open_mailbox(capacity: usize) -> (ends: (Sender<Message>, Receiver<Message>))
    requires
        0 < capacity <= 0x1fff_ffff,
    ensures
        mailbox_capacity(ends.0) == capacity,
        feeds(ends.0, ends.1),
{
    tokio::sync::mpsc::channel(capacity)
}

/// `Sender::clone` makes one more sender for the channel of the given one.
pub assume_specification<T>[ <Sender<T> as Clone>::clone ](sender: &Sender<T>) -> (other: Sender<T>)
    ensures
        other == *sender,
;

/// `Notify::new` makes a signal that nobody has raised yet. Nothing is
/// claimed of it.
pub assume_specification[ Notify::new ]() -> Notify;

/// `Notify::notify_one` wakes the task that waits on the signal, or leaves
/// word for the next one that will. Nothing is claimed of it.
pub assume_specification[ Notify::notify_one ](signal: &Notify);

/// The number of messages a mailbox holds before its senders have to wait.
pub const MAILBOX_CAPACITY: usize = 10;

/// What a supervisor is: the module it runs, the pid it will hand out next,
/// the sender of the mailbox of every living process, and the signal it
/// raises when a process exits.
pub struct VMView {
    pub module: ModuleView,
    pub next_pid: u64,
    pub mailboxes: Map<u64, Sender<Message>>,
    pub signal: Notify,
}

impl VMView {
    /// The pids of the living processes.
    pub open spec fn alive(self) -> Set<u64> {
        self.mailboxes.dom()
    }

    /// The invariant of the supervisor: every living process got its pid
    /// from the counter, which has moved on since, and every mailbox has the
    /// capacity that the machine gives to mailboxes.
    pub open spec fn wf(self) -> bool {
        forall|pid: u64| #[trigger]
            self.mailboxes.contains_key(pid) ==> pid < self.next_pid && mailbox_capacity(
                self.mailboxes[pid],
            ) == MAILBOX_CAPACITY
    }

    /// The pids that were handed out and the pids that are alive, which is all
    /// that matters for who is born and who has died.
    pub open spec fn lifecycle(self) -> Lifecycle {
        Lifecycle { next_pid: self.next_pid as nat, alive: self.alive() }
    }

    /// The supervisor after a spawn that was refused: the pid that the
    /// process would have had is used up, unless none was left. Nothing else
    /// changes.
    pub open spec fn refused(self) -> VMView {
        if self.next_pid == u64::MAX {
            self
        } else {
            VMView { next_pid: (self.next_pid + 1) as u64, ..self }
        }
    }

    /// The process that a spawn of the named function on `args` brings into
    /// being, or the reason why there is none: no pid is left, or the process
    /// cannot start.
    pub open spec fn spawn(self, name: Seq<char>, args: Seq<Value>) -> Result<ProcessView, Fault> {
        if self.next_pid == u64::MAX {
            Err(Fault::PidsExhausted)
        } else {
            start(self.next_pid, self.module, name, args)
        }
    }
}

/// The state of the machine that its processes share.
pub struct VMInner {
    module: Module,
    /// next un-assigned pid
    next_pid: u64,
    /// channels to communicate with each process
    channels: HashMap<u64, Sender<Message>>,
    /// signalled when a process has exited
    process_exited: Arc<Notify>,
}

impl View for VMInner {
    type V = VMView;

    closed spec fn view(&self) -> VMView {
        VMView {
            module: self.module@,
            next_pid: self.next_pid,
            mailboxes: self.channels@,
            signal: *self.process_exited,
        }
    }
}

impl VMInner {
    /// A supervisor for `module` with no process yet. The first pid will be 0.
    pub fn new(module: Module) -> (vm: VMInner)
        ensures
            vm@.module == module@,
            vm@.next_pid == 0,
            vm@.mailboxes == Map::<u64, Sender<Message>>::empty(),
            vm@.wf(),
            vm@.lifecycle() == Lifecycle::initial(),
    {
        let vm = VMInner {
            module,
            next_pid: 0,
            channels: HashMap::new(),
            process_exited: Arc::new(Notify::new()),
        };
        vm
    }

    /// The module that the processes run.
    pub fn module(&self) -> (module: &Module)
        ensures
            module@ == self@.module,
    {
        &self.module
    }

    /// The pid that the next process will get.
    pub fn next_pid(&self) -> (pid: u64)
        ensures
            pid == self@.next_pid,
    {
        self.next_pid
    }

    /// Brings a process into being: it gets the next pid and a new mailbox,
    /// whose sender is registered under the pid. The process, about to run the
    /// named function on `args`, and the receiving end of its mailbox go to the
    /// host, which is to run the one with the other.
    ///
    /// The pid is taken before anything else is looked at. Where the process
    /// cannot start, its pid is used up all the same and will go to nobody:
    /// the counter has moved on, the registry is as it was. Only where no pid
    /// is left does the supervisor stay as it was.
    pub fn spawn_process(&mut self, function_name: &str, args: Vec<Value>) -> (result: Result<
        (Process, Receiver<Message>),
        Fault,
    >)
        ensures
            match result {
                Ok((process, receiver)) => {
                    let pid = old(self)@.next_pid;
                    &&& old(self)@.spawn(function_name@, args@) == Ok::<ProcessView, Fault>(
                        process@,
                    )
                    &&& process@.wf()
                    &&& final(self)@.mailboxes.contains_key(pid)
                    &&& final(self)@ == (VMView {
                        next_pid: (pid + 1) as u64,
                        mailboxes: old(self)@.mailboxes.insert(pid, final(self)@.mailboxes[pid]),
                        ..old(self)@
                    })
                    &&& mailbox_capacity(final(self)@.mailboxes[pid]) == MAILBOX_CAPACITY
                    &&& feeds(final(self)@.mailboxes[pid], receiver)
                    &&& final(self)@.lifecycle() == old(self)@.lifecycle().apply(Event::Spawn)
                },
                Err(fault) => {
                    &&& old(self)@.spawn(function_name@, args@) == Err::<ProcessView, Fault>(fault)
                    &&& final(self)@ == old(self)@.refused()
                    &&& final(self)@.lifecycle() == old(self)@.lifecycle().apply(Event::Refused)
                },
            },
            old(self)@.next_pid < u64::MAX ==> final(self)@.next_pid == old(self)@.next_pid + 1,
            old(self)@.next_pid == u64::MAX ==> final(self)@ == old(self)@,
            old(self)@.wf() ==> final(self)@.wf(),
            old(self)@.wf() ==> !old(self)@.alive().contains(old(self)@.next_pid),
    {
        let pid = self.next_pid;
        if pid == u64::MAX {
            return Err(Fault::PidsExhausted);
        }
        self.next_pid = pid + 1;
        let process = match Process::new(pid, &self.module, function_name, args) {
            Ok(process) => process,
            Err(fault) => {
                return Err(fault);
            },
        };
        let (sender, receiver) = open_mailbox(MAILBOX_CAPACITY);
        self.channels.insert(pid, sender);
        Ok((process, receiver))
    }

    /// A sender for the mailbox of the process with that pid, which must be
    /// alive.
    pub fn sender(&self, pid: u64) -> (result: Result<Sender<Message>, Fault>)
        ensures
            match result {
                Ok(sender) => self@.mailboxes.contains_key(pid) && sender == self@.mailboxes[pid],
                Err(fault) => !self@.mailboxes.contains_key(pid) && fault == Fault::UnknownPid,
            },
    {
        match self.channels.get(&pid) {
            Some(sender) => Ok(sender.clone()),
            None => Err(Fault::UnknownPid),
        }
    }

    /// Takes an ended process off the books: the mailbox of its pid leaves the
    /// registry, and after that the signal is raised for whoever waits for the
    /// machine to come to rest. The process is given up with it.
    ///
    /// Only a process that has returned from its outermost function can leave:
    /// any other is refused, and nothing changes.
    pub fn exit(&mut self, process: Process) -> (result: Result<(), Fault>)
        ensures
            match result {
                Ok(_) => {
                    &&& process@.status == Status::Exited
                    &&& final(self)@ == (VMView {
                        mailboxes: old(self)@.mailboxes.remove(process@.pid),
                        ..old(self)@
                    })
                    &&& final(self)@.lifecycle() == old(self)@.lifecycle().apply(
                        Event::Exit(process@.pid),
                    )
                },
                Err(fault) => {
                    &&& process@.status != Status::Exited
                    &&& fault == Fault::OutOfTurn
                    &&& final(self)@ == old(self)@
                },
            },
            old(self)@.wf() ==> final(self)@.wf(),
    {
        if process.status() != Status::Exited {
            return Err(Fault::OutOfTurn);
        }
        let pid = process.pid();
        self.channels.remove(&pid);
        self.process_exited.notify_one();
        Ok(())
    }

    /// Whether the machine is at rest: whether no process is alive.
    pub fn is_quiescent(&self) -> (quiescent: bool)
        ensures
            quiescent == self@.alive().is_empty(),
            quiescent == self@.lifecycle().quiescent(),
    {
        self.channels.is_empty()
    }

    /// The signal that is raised whenever a process has exited.
    pub fn process_exited(&self) -> (signal: Arc<Notify>)
        ensures
            *signal == self@.signal,
    {
        share(&self.process_exited)
    }
}

} // verus!
