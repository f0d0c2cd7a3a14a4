//! A small concurrent stack machine: programs are named functions made of
//! instructions that work on a per-frame value stack; processes run such
//! functions side by side and talk to each other through mailboxes.
//!
//! The crate holds the machine's rules. [`process::Process::step`] executes one
//! instruction of one process and says what the process asks of its host;
//! [`vm::VMInner`] keeps the books on which processes are alive. Scheduling the
//! processes and waiting on mailboxes is left to the host.

pub mod data;
pub mod fault;
pub mod laws;
pub mod lifecycle;
pub mod process;
pub mod program;
pub mod semantics;
pub mod vm;
