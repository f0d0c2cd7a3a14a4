//! Who is born and who has died: the supervisor's bookkeeping, reduced to
//! the pid counter and the set of living pids, and what holds of it after any
//! history of spawns and exits.

use vstd::prelude::*;

verus! {

/// The pid counter and the pids of the living processes.
pub struct Lifecycle {
    pub next_pid: nat,
    pub alive: Set<u64>,
}

/// What happens to a supervisor.
pub enum Event {
    /// A process is to be spawned. Nothing comes of it once the pids have
    /// run out.
    Spawn,
    /// A spawn was asked for and refused, since the process could not start.
    /// The pid that the process would have had is used up all the same.
    Refused,
    /// The process with this pid has ended.
    Exit(u64),
}

impl Lifecycle {
    /// Before anything has happened: pid 0 comes first, and nobody is alive.
    pub open spec fn initial() -> Lifecycle {
        Lifecycle { next_pid: 0, alive: Set::empty() }
    }

    /// Whether a pid is left to hand out.
    pub open spec fn can_spawn(self) -> bool {
        self.next_pid < u64::MAX
    }

    /// A process is born: it gets the next pid, and the counter moves on.
    pub open spec fn spawn(self) -> Lifecycle {
        Lifecycle { next_pid: self.next_pid + 1, alive: self.alive.insert(self.next_pid as u64) }
    }

    /// The next pid is used up without a process to bear it.
    pub open spec fn skip(self) -> Lifecycle {
        Lifecycle { next_pid: self.next_pid + 1, ..self }
    }

    /// The process with that pid dies.
    pub open spec fn exit(self, pid: u64) -> Lifecycle {
        Lifecycle { alive: self.alive.remove(pid), ..self }
    }

    /// Nobody is alive.
    pub open spec fn quiescent(self) -> bool {
        self.alive.is_empty()
    }

    /// The effect of one event. Every spawn takes the next pid, whether a
    /// process comes of it or not; only when no pid is left does a spawn
    /// change nothing.
    pub open spec fn apply(self, event: Event) -> Lifecycle {
        match event {
            Event::Spawn => if self.can_spawn() {
                self.spawn()
            } else {
                self
            },
            Event::Refused => if self.can_spawn() {
                self.skip()
            } else {
                self
            },
            Event::Exit(pid) => self.exit(pid),
        }
    }

    /// Where a supervisor stands after a history of events.
    pub open spec fn after(events: Seq<Event>) -> Lifecycle
        decreases events.len(),
    {
        if events.len() == 0 {
            Lifecycle::initial()
        } else {
            Lifecycle::after(events.drop_last()).apply(events.last())
        }
    }
}

/// Whether event `i` of the history took a pid: whether it was a spawn, be
/// it one that was refused, that found a pid left.
pub open spec fn took_pid(events: Seq<Event>, i: int) -> bool {
    &&& 0 <= i < events.len()
    &&& events[i] is Spawn || events[i] is Refused
    &&& Lifecycle::after(events.take(i)).can_spawn()
}

/// Whether event `i` of the history brought a process into being.
pub open spec fn born(events: Seq<Event>, i: int) -> bool {
    &&& 0 <= i < events.len()
    &&& events[i] is Spawn
    &&& Lifecycle::after(events.take(i)).can_spawn()
}

/// The pid that event `i` took, if it took one.
pub open spec fn pid_of(events: Seq<Event>, i: int) -> u64 {
    Lifecycle::after(events.take(i)).next_pid as u64
}

/// Whether the process that event `i` brought into being has ended since.
pub open spec fn died(events: Seq<Event>, i: int) -> bool {
    exists|j: int| i < j < events.len() && #[trigger] events[j] == Event::Exit(pid_of(events, i))
}

/// Whether event `i` brought a process into being that has not ended.
pub open spec fn lives(events: Seq<Event>, i: int) -> bool {
    born(events, i) && !died(events, i)
}

/// Whether the history has brought into being a process with that pid that
/// has not ended.
pub open spec fn alive_by_history(events: Seq<Event>, pid: u64) -> bool {
    exists|i: int| #[trigger] lives(events, i) && pid_of(events, i) == pid
}

/// The counter never goes back, and it moves on with every pid taken: the
/// pid that an event takes is below the counter ever after.
pub proof fn lemma_counter_grows(events: Seq<Event>, i: int, j: int)
    requires
        0 <= i <= j <= events.len(),
    ensures
        Lifecycle::after(events.take(i)).next_pid <= Lifecycle::after(events.take(j)).next_pid,
        took_pid(events, i) && i < j ==> Lifecycle::after(events.take(i)).next_pid
            < Lifecycle::after(events.take(j)).next_pid,
    decreases j - i,
{
    if i < j {
        lemma_counter_grows(events, i, j - 1);
        assert(events.take(j).drop_last() =~= events.take(j - 1));
    }
}

/// Pid uniqueness: no pid is ever taken twice, and the later of two spawns
/// takes the larger pid. So no two processes are ever given the same pid,
/// whatever happens between their births, and the pid that a refused spawn
/// has used up is never given to a process.
pub proof fn lemma_pids_unique(events: Seq<Event>, i: int, j: int)
    requires
        took_pid(events, i),
        took_pid(events, j),
        i != j,
    ensures
        pid_of(events, i) != pid_of(events, j),
        i < j ==> pid_of(events, i) < pid_of(events, j),
{
    if i < j {
        lemma_counter_grows(events, i, j);
    } else {
        lemma_counter_grows(events, j, i);
    }
}

/// A pid is not handed out again after its process has ended, nor while it
/// lives: every spawn after the birth of a process takes a larger pid.
pub proof fn lemma_pid_never_returns(events: Seq<Event>, i: int, j: int)
    requires
        born(events, i),
        took_pid(events, j),
        i < j,
    ensures
        pid_of(events, i) < pid_of(events, j),
{
    lemma_pids_unique(events, i, j);
}

/// A history with its last event left off is the same history up to there.
proof fn lemma_shorter_history(events: Seq<Event>, i: int)
    requires
        0 <= i < events.len() - 1,
    ensures
        born(events.drop_last(), i) == born(events, i),
        pid_of(events.drop_last(), i) == pid_of(events, i),
        died(events, i) == (died(events.drop_last(), i) || events.last() == Event::Exit(
            pid_of(events, i),
        )),
{
    let shorter = events.drop_last();
    assert(shorter.take(i) =~= events.take(i));
    let pid = pid_of(events, i);
    if died(events, i) {
        let j = choose|j: int| i < j < events.len() && #[trigger] events[j] == Event::Exit(pid);
        if j < events.len() - 1 {
            assert(shorter[j] == Event::Exit(pid));
        }
    }
    if died(shorter, i) {
        let j = choose|j: int| i < j < shorter.len() && #[trigger] shorter[j] == Event::Exit(pid);
        assert(events[j] == Event::Exit(pid));
    }
    if events.last() == Event::Exit(pid) {
        assert(events[events.len() - 1] == Event::Exit(pid));
    }
}

/// Mailbox membership: after any history the living pids are the pids of the
/// processes that were brought into being and have not ended; all of them
/// are below the counter, and there are finitely many.
pub proof fn lemma_alive(events: Seq<Event>)
    ensures
        forall|pid: u64|
            Lifecycle::after(events).alive.contains(pid) <==> #[trigger] alive_by_history(
                events,
                pid,
            ),
        forall|pid: u64| #[trigger]
            Lifecycle::after(events).alive.contains(pid) ==> pid < Lifecycle::after(
                events,
            ).next_pid,
        Lifecycle::after(events).alive.finite(),
        Lifecycle::after(events).next_pid <= u64::MAX,
    decreases events.len(),
{
    let now = Lifecycle::after(events);
    if events.len() == 0 {
        assert forall|pid: u64| !#[trigger] alive_by_history(events, pid) by {
            if alive_by_history(events, pid) {
                let i = choose|i: int| #[trigger] lives(events, i) && pid_of(events, i) == pid;
                assert(born(events, i));
            }
        }
    } else {
        let shorter = events.drop_last();
        let before = Lifecycle::after(shorter);
        let at = events.len() - 1;
        lemma_alive(shorter);
        assert forall|i: int| 0 <= i < at implies lives(events, i) == (lives(shorter, i)
            && events.last() != Event::Exit(pid_of(events, i))) && pid_of(events, i) == pid_of(
            shorter,
            i,
        ) by {
            lemma_shorter_history(events, i);
        }
        assert forall|pid: u64| now.alive.contains(pid) <==> #[trigger] alive_by_history(
            events,
            pid,
        ) by {
            if now.alive.contains(pid) {
                if before.alive.contains(pid) {
                    assert(alive_by_history(shorter, pid));
                    let i = choose|i: int| #[trigger]
                        lives(shorter, i) && pid_of(shorter, i) == pid;
                    assert(lives(events, i));
                } else {
                    assert(lives(events, at));
                }
            }
            if alive_by_history(events, pid) {
                let i = choose|i: int| #[trigger] lives(events, i) && pid_of(events, i) == pid;
                assert(born(events, i));
                if i < at {
                    assert(lives(shorter, i));
                    assert(alive_by_history(shorter, pid));
                }
            }
        }
    }
}

/// Quiescence: after any history the machine is at rest exactly when every
/// process that was brought into being has ended.
pub proof fn lemma_quiescent(events: Seq<Event>)
    ensures
        Lifecycle::after(events).quiescent() <==> forall|i: int| #[trigger]
            born(events, i) ==> died(events, i),
{
    lemma_alive(events);
    let now = Lifecycle::after(events);
    if now.quiescent() {
        assert forall|i: int| #[trigger] born(events, i) implies died(events, i) by {
            if !died(events, i) {
                assert(lives(events, i));
                assert(alive_by_history(events, pid_of(events, i)));
            }
        }
    }
    if forall|i: int| #[trigger] born(events, i) ==> died(events, i) {
        assert forall|pid: u64| !now.alive.contains(pid) by {
            if now.alive.contains(pid) {
                assert(alive_by_history(events, pid));
                let i = choose|i: int| #[trigger] lives(events, i) && pid_of(events, i) == pid;
                assert(born(events, i));
            }
        }
    }
}

} // verus!
