use stack_vm::data::{Message, Value};
use stack_vm::fault::Fault;
use stack_vm::process::{Action, Process};
use stack_vm::program::{Function, Instruction, Module};
use stack_vm::vm::VMInner;
use std::future::Future;
use std::pin::Pin;
use std::sync::{Arc, Mutex};
use tokio::sync::mpsc::Receiver;

/// What a run of the machine left behind.
#[derive(Clone, Default)]
struct Log {
    /// each printed value, with the pid of the process that printed it
    printed: Vec<(u64, Value)>,
    /// the pids in the order in which their processes ended
    exited: Vec<u64>,
    /// the fault that stopped the machine
    fault: Option<Fault>,
    /// sends that were begun, and sends that the mailbox took
    sends_begun: usize,
    sends_done: usize,
}

/// A host for the machine on a tokio runtime: one task per process.
#[derive(Clone)]
struct Host {
    vm: Arc<Mutex<VMInner>>,
    log: Arc<Mutex<Log>>,
}

impl Host {
    fn new(module: Module) -> Host {
        Host {
            vm: Arc::new(Mutex::new(VMInner::new(module))),
            log: Arc::new(Mutex::new(Log::default())),
        }
    }

    fn spawn(&self, name: &str, args: Vec<Value>) -> Result<u64, Fault> {
        let (process, mailbox) = self.vm.lock().unwrap().spawn_process(name, args)?;
        let pid = process.pid();
        tokio::spawn(self.clone().drive(process, mailbox));
        Ok(pid)
    }

    fn stop(&self, fault: Fault) {
        self.log.lock().unwrap().fault.get_or_insert(fault);
        self.vm.lock().unwrap().process_exited().notify_one();
    }

    fn drive(
        self,
        mut process: Process,
        mut mailbox: Receiver<Message>,
    ) -> Pin<Box<dyn Future<Output = ()> + Send>> {
        Box::pin(async move {
            let pid = process.pid();
            loop {
                tokio::task::yield_now().await;
                let stepped = {
                    let vm = self.vm.lock().unwrap();
                    process.step(vm.module())
                };
                let answered = match stepped {
                    Ok(Action::Continue) => Ok(()),
                    Ok(Action::Print(value)) => {
                        self.log.lock().unwrap().printed.push((pid, value));
                        Ok(())
                    }
                    Ok(Action::Spawn { name, args }) => self
                        .spawn(name, args)
                        .and_then(|child| process.spawned(child)),
                    Ok(Action::Receive) => match mailbox.recv().await {
                        Some(message) => process.received(message),
                        None => panic!("mailbox of {} closed", pid),
                    },
                    Ok(Action::Send { pid: to, message }) => {
                        let sender = self.vm.lock().unwrap().sender(to);
                        match sender {
                            Ok(sender) => {
                                self.log.lock().unwrap().sends_begun += 1;
                                if sender.send(message).await.is_err() {
                                    panic!("mailbox of {} closed", to);
                                }
                                self.log.lock().unwrap().sends_done += 1;
                                Ok(())
                            }
                            Err(fault) => Err(fault),
                        }
                    }
                    Ok(Action::Exit) => {
                        self.log.lock().unwrap().exited.push(pid);
                        let left = self.vm.lock().unwrap().exit(process);
                        if let Err(fault) = left {
                            self.stop(fault);
                        }
                        return;
                    }
                    Err(fault) => Err(fault),
                };
                if let Err(fault) = answered {
                    self.stop(fault);
                    return;
                }
            }
        })
    }

    /// Spawns `init` and waits until the machine is at rest or has faulted.
    async fn run(&self) -> Result<(), Fault> {
        self.spawn("init", vec![])?;
        let signal = self.vm.lock().unwrap().process_exited();
        loop {
            if let Some(fault) = self.log.lock().unwrap().fault {
                return Err(fault);
            }
            if self.vm.lock().unwrap().is_quiescent() {
                return Ok(());
            }
            signal.notified().await;
        }
    }
}

/// Runs the module to its end.
fn run(module: Module) -> (Result<(), Fault>, Log, u64) {
    let runtime = tokio::runtime::Builder::new_current_thread().build().unwrap();
    let host = Host::new(module);
    let result = runtime.block_on(host.run());
    let log = host.log.lock().unwrap().clone();
    let pids = host.vm.lock().unwrap().next_pid();
    (result, log, pids)
}

/// Runs the module for a number of turns of the scheduler and looks at where it stands.
fn run_for(module: Module, turns: usize) -> (Log, bool) {
    let runtime = tokio::runtime::Builder::new_current_thread().build().unwrap();
    let host = Host::new(module);
    runtime.block_on(async {
        host.spawn("init", vec![]).unwrap();
        for _ in 0..turns {
            tokio::task::yield_now().await;
        }
    });
    let log = host.log.lock().unwrap().clone();
    let at_rest = host.vm.lock().unwrap().is_quiescent();
    (log, at_rest)
}

fn values(log: &Log) -> Vec<Value> {
    log.printed.iter().map(|(_, value)| *value).collect()
}

/// The recursive Fibonacci function whose two base cases both answer 1.
fn fib() -> Function {
    Function::new(
        1,
        5,
        vec![
            Instruction::Dup(0),
            Instruction::JumpIfEqual(16, Value::Int(0)),
            Instruction::Dup(0),
            Instruction::JumpIfEqual(16, Value::Int(1)),
            // call fib(n-1)
            Instruction::Dup(0),
            Instruction::PushLiteral(Value::Int(-1)),
            Instruction::Add,
            Instruction::Call("fib"),
            // call fib(n-2)
            Instruction::Dup(1),
            Instruction::PushLiteral(Value::Int(-2)),
            Instruction::Add,
            Instruction::Call("fib"),
            Instruction::Add,
            // stack: [n, fib(n-1) + fib(n-2)]
            Instruction::Swap(1),
            Instruction::Pop,
            Instruction::Return,
            // return 1 (base case)
            Instruction::Pop,
            Instruction::PushLiteral(Value::Int(1)),
            Instruction::Return,
        ],
    )
}

fn show() -> Function {
    Function::new(1, 1, vec![Instruction::Print, Instruction::Return])
}

#[test]
fn constant_is_printed_once() {
    let mut module = Module::default();
    module.add_function(
        "init",
        Function::new(
            0,
            1,
            vec![
                Instruction::PushLiteral(Value::Int(7)),
                Instruction::Print,
                Instruction::Return,
            ],
        ),
    );
    let (result, log, pids) = run(module);
    assert_eq!(result, Ok(()));
    assert_eq!(log.printed, vec![(0, Value::Int(7))]);
    assert_eq!(format!("{:?}", log.printed[0].1), "Int(7)");
    assert_eq!(log.exited, vec![0]);
    assert_eq!(pids, 1);
}

#[test]
fn recursive_fib_of_six() {
    let mut module = Module::default();
    module.add_function(
        "init",
        Function::new(
            0,
            1,
            vec![
                Instruction::PushLiteral(Value::Int(6)),
                Instruction::Call("fib"),
                Instruction::Call("show"),
                Instruction::Return,
            ],
        ),
    );
    module.add_function("fib", fib());
    module.add_function("show", show());
    let (result, log, _) = run(module);
    assert_eq!(result, Ok(()));
    // with fib(0) = fib(1) = 1 the series runs 1 1 2 3 5 8 13
    assert_eq!(values(&log), vec![Value::Int(13)]);
}

#[test]
fn recursive_fib_with_zero_at_zero() {
    // the same function with fib(0) = 0: the first base case jumps to a block of its own
    let mut code = fib().instructions().to_vec();
    code[1] = Instruction::JumpIfEqual(19, Value::Int(0));
    code.push(Instruction::Return);
    let mut module = Module::default();
    module.add_function(
        "init",
        Function::new(
            0,
            1,
            vec![
                Instruction::PushLiteral(Value::Int(6)),
                Instruction::Call("fib"),
                Instruction::Call("show"),
                Instruction::Return,
            ],
        ),
    );
    module.add_function("fib", Function::new(1, 5, code));
    module.add_function("show", show());
    let (result, log, _) = run(module);
    assert_eq!(result, Ok(()));
    assert_eq!(values(&log), vec![Value::Int(8)]);
}

#[test]
fn spawn_and_receive() {
    let mut module = Module::default();
    module.add_function(
        "init",
        Function::new(
            0,
            3,
            vec![
                Instruction::PushLiteral(Value::Int(20)),
                Instruction::Spawn("fibproc"),
                Instruction::Pop, // ignore the pid
                Instruction::PushLiteral(Value::Int(10)),
                Instruction::Spawn("fibproc"),
                Instruction::Pop, // ignore the pid
                Instruction::PushLiteral(Value::Int(2)),
                Instruction::Receive,      // get an answer
                Instruction::Call("show"), // show its value
                Instruction::Pop,          // pop the name
                Instruction::PushLiteral(Value::Int(-1)),
                Instruction::Add,
                Instruction::Dup(0),
                Instruction::JumpIfEqual(15, Value::Int(0)),
                Instruction::Jump(7),
                Instruction::Pop,
                Instruction::Return,
            ],
        ),
    );
    module.add_function(
        "fibproc",
        Function::new(
            1,
            3,
            vec![
                Instruction::Call("fib"),
                Instruction::PushLiteral(Value::Pid(0)),
                Instruction::Swap(1),
                Instruction::Send("result"),
                Instruction::Return,
            ],
        ),
    );
    module.add_function("show", show());
    module.add_function("fib", fib());
    let (result, log, pids) = run(module);
    assert_eq!(result, Ok(()));
    // two prints, one per worker, both by init
    assert_eq!(log.printed.len(), 2);
    assert!(log.printed.iter().all(|(pid, _)| *pid == 0));
    let mut printed = values(&log);
    printed.sort_by_key(|value| match value {
        Value::Int(n) => *n,
        _ => panic!("{:?}", value),
    });
    assert_eq!(printed, vec![Value::Int(89), Value::Int(10946)]);
    // both workers and init have returned
    let mut exited = log.exited.clone();
    exited.sort();
    assert_eq!(exited, vec![0, 1, 2]);
    assert_eq!(pids, 3);
    assert_eq!(log.sends_done, 2);
}

#[test]
fn unknown_function_call_stops_the_machine() {
    let mut module = Module::default();
    module.add_function(
        "init",
        Function::new(0, 1, vec![Instruction::Call("nope"), Instruction::Return]),
    );
    let (result, log, _) = run(module);
    assert_eq!(result, Err(Fault::UnknownFunction));
    assert!(log.exited.is_empty());
    assert!(log.printed.is_empty());
}

#[test]
fn machine_without_init_does_not_start() {
    let mut module = Module::default();
    module.add_function("main", Function::new(0, 1, vec![Instruction::Return]));
    let (result, log, pids) = run(module);
    assert_eq!(result, Err(Fault::UnknownFunction));
    assert!(log.exited.is_empty());
    // the pid that init would have had is used up
    assert_eq!(pids, 1);
}

#[test]
fn init_must_take_no_arguments() {
    let mut module = Module::default();
    module.add_function("init", Function::new(1, 1, vec![Instruction::Pop, Instruction::Return]));
    let (result, _, pids) = run(module);
    assert_eq!(result, Err(Fault::ArgCountMismatch));
    assert_eq!(pids, 1);
}

#[test]
fn send_to_an_unknown_pid_stops_the_machine() {
    let mut module = Module::default();
    module.add_function(
        "init",
        Function::new(
            0,
            2,
            vec![
                Instruction::PushLiteral(Value::Pid(5)),
                Instruction::PushLiteral(Value::Int(1)),
                Instruction::Send("m"),
                Instruction::Return,
            ],
        ),
    );
    let (result, log, _) = run(module);
    assert_eq!(result, Err(Fault::UnknownPid));
    assert_eq!(log.sends_begun, 0);
}

#[test]
fn full_mailbox_makes_the_sender_wait() {
    let mut module = Module::default();
    // init spawns the sender and then spins: it never receives
    module.add_function(
        "init",
        Function::new(
            0,
            1,
            vec![Instruction::Spawn("flood"), Instruction::Pop, Instruction::Jump(2)],
        ),
    );
    module.add_function(
        "flood",
        Function::new(
            0,
            2,
            vec![
                Instruction::PushLiteral(Value::Pid(0)),
                Instruction::PushLiteral(Value::Int(1)),
                Instruction::Send("m"),
                Instruction::Jump(0),
            ],
        ),
    );
    let (log, at_rest) = run_for(module, 5000);
    // ten messages fill the mailbox; the eleventh is held back, not dropped
    assert_eq!(log.sends_done, 10);
    assert_eq!(log.sends_begun, 11);
    assert_eq!(log.fault, None);
    assert!(log.exited.is_empty());
    assert!(!at_rest);
}

#[test]
fn sender_goes_on_when_the_receiver_makes_room() {
    let mut module = Module::default();
    // init takes twelve messages, which is more than the mailbox holds
    module.add_function(
        "init",
        Function::new(
            0,
            3,
            vec![
                Instruction::Spawn("flood"),
                Instruction::Pop,
                Instruction::PushLiteral(Value::Int(12)),
                Instruction::Receive,
                Instruction::Call("show"),
                Instruction::Pop,
                Instruction::PushLiteral(Value::Int(-1)),
                Instruction::Add,
                Instruction::Dup(0),
                Instruction::JumpIfEqual(11, Value::Int(0)),
                Instruction::Jump(3),
                Instruction::Pop,
                Instruction::Return,
            ],
        ),
    );
    // flood sends 1, 2, .. 12 and returns
    module.add_function(
        "flood",
        Function::new(
            0,
            3,
            vec![
                Instruction::PushLiteral(Value::Int(1)),
                Instruction::PushLiteral(Value::Pid(0)),
                Instruction::Dup(1),
                Instruction::Send("m"),
                Instruction::Dup(0),
                Instruction::JumpIfEqual(10, Value::Int(12)),
                Instruction::PushLiteral(Value::Int(1)),
                Instruction::Add,
                Instruction::Jump(1),
                Instruction::Return,
                Instruction::Pop,
                Instruction::Return,
            ],
        ),
    );
    module.add_function("show", show());
    let (result, log, _) = run(module);
    assert_eq!(result, Ok(()));
    assert_eq!(log.sends_done, 12);
    // nothing was dropped, and everything came in the order in which it was sent
    let expected: Vec<Value> = (1..=12).map(Value::Int).collect();
    assert_eq!(values(&log), expected);
}

#[test]
fn messages_of_one_sender_arrive_in_order() {
    let mut module = Module::default();
    module.add_function(
        "init",
        Function::new(
            0,
            6,
            vec![
                Instruction::Spawn("sender"),
                Instruction::Pop,
                Instruction::Receive,
                Instruction::Receive,
                Instruction::Receive,
                Instruction::Print,
                Instruction::Print,
                Instruction::Print,
                Instruction::Print,
                Instruction::Print,
                Instruction::Print,
                Instruction::Return,
            ],
        ),
    );
    module.add_function(
        "sender",
        Function::new(
            0,
            2,
            vec![
                Instruction::PushLiteral(Value::Pid(0)),
                Instruction::PushLiteral(Value::Int(1)),
                Instruction::Send("first"),
                Instruction::PushLiteral(Value::Pid(0)),
                Instruction::PushLiteral(Value::Int(2)),
                Instruction::Send("second"),
                Instruction::PushLiteral(Value::Pid(0)),
                Instruction::PushLiteral(Value::Int(3)),
                Instruction::Send("third"),
                Instruction::Return,
            ],
        ),
    );
    let (result, log, _) = run(module);
    assert_eq!(result, Ok(()));
    // printed from the top of the stack down: the last message first
    assert_eq!(
        values(&log),
        vec![
            Value::Int(3),
            Value::Str("third"),
            Value::Int(2),
            Value::Str("second"),
            Value::Int(1),
            Value::Str("first"),
        ]
    );
}

#[test]
fn machine_waits_for_the_grandchild() {
    let mut module = Module::default();
    module.add_function(
        "init",
        Function::new(
            0,
            1,
            vec![Instruction::Spawn("child"), Instruction::Pop, Instruction::Return],
        ),
    );
    // the child spawns the grandchild as the last thing before it returns
    module.add_function(
        "child",
        Function::new(
            0,
            1,
            vec![
                Instruction::Spawn("grandchild"),
                Instruction::Pop,
                Instruction::Return,
            ],
        ),
    );
    // the grandchild is still busy when the others are gone
    module.add_function(
        "grandchild",
        Function::new(
            0,
            2,
            vec![
                Instruction::PushLiteral(Value::Int(200)),
                Instruction::PushLiteral(Value::Int(-1)),
                Instruction::Add,
                Instruction::Dup(0),
                Instruction::JumpIfEqual(6, Value::Int(0)),
                Instruction::Jump(1),
                Instruction::Print,
                Instruction::Return,
            ],
        ),
    );
    let (result, log, pids) = run(module);
    assert_eq!(result, Ok(()));
    assert_eq!(pids, 3);
    assert_eq!(log.printed, vec![(2, Value::Int(0))]);
    // init and the child were gone before the grandchild was done
    assert_eq!(log.exited, vec![0, 1, 2]);
}

#[test]
fn non_empty_stack_at_the_end_stops_the_machine() {
    let mut module = Module::default();
    module.add_function(
        "init",
        Function::new(
            0,
            1,
            vec![Instruction::PushLiteral(Value::Int(1)), Instruction::Return],
        ),
    );
    let (result, log, _) = run(module);
    assert_eq!(result, Err(Fault::NonEmptyExit));
    assert!(log.exited.is_empty());
}
