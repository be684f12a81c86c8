//! The messages between the dashboard and its background collector, and the
//! decisions each side takes on them.
use vstd::prelude::*;

use crate::app::{apply_snapshot_post, App, Snapshot};

verus! {

/// Commands from the dashboard to the collector.
#[derive(Clone, Copy, PartialEq, Eq, Debug, Structural)]
pub enum ToWorker {
    /// Collect a fresh snapshot.
    Refresh,
    /// The dashboard is exiting.
    Quit,
}

/// Answers from the collector to the dashboard.
pub enum FromWorker {
    /// A snapshot was collected; apply it.
    Ready { snapshot: Snapshot, volume_warning: Option<String> },
    /// Collecting failed with this message.
    Failed(String),
}

/// What the collector does after taking a command off its queue.
#[derive(Clone, Copy, PartialEq, Eq, Debug, Structural)]
pub enum WorkerStep {
    /// Leave the loop.
    Stop,
    /// Collect one snapshot (however many refreshes were queued) and send it.
    Collect,
}

/// The collector stops on a Quit, whether it is the command taken or one
/// queued behind a Refresh; queued refreshes collapse into one collection.
pub open spec fn worker_step_for(cmd: ToWorker, queued: Seq<ToWorker>) -> WorkerStep {
    if cmd == ToWorker::Quit || queued.contains(ToWorker::Quit) {
        WorkerStep::Stop
    } else {
        WorkerStep::Collect
    }
}

/// Decides the collector's next step from the command it took and the
/// commands already queued behind it.
pub fn worker_step(cmd: ToWorker, queued: &Vec<ToWorker>) -> (r: WorkerStep)
    ensures
        r == worker_step_for(cmd, queued@),
{
    if cmd == ToWorker::Quit {
        return WorkerStep::Stop;
    }
    let mut i: usize = 0;
    while i < queued.len()
        invariant
            i <= queued.len(),
            forall|k: int| 0 <= k < i ==> queued@[k] != ToWorker::Quit,
        decreases queued.len() - i,
    {
        if queued[i] == ToWorker::Quit {
            assert(queued@[i as int] == ToWorker::Quit);
            return WorkerStep::Stop;
        }
        i = i + 1;
    }
    WorkerStep::Collect
}

/// The collector's answer to one collection: the snapshot and its warning
/// when collecting succeeded, else the error's message.
pub fn worker_reply(outcome: Result<(Snapshot, Option<String>), String>) -> (r: FromWorker)
    ensures
        match outcome {
            Ok((snapshot, volume_warning)) => r == (FromWorker::Ready { snapshot, volume_warning }),
            Err(e) => r == FromWorker::Failed(e),
        },
{
    match outcome {
        Ok((snapshot, volume_warning)) => FromWorker::Ready { snapshot, volume_warning },
        Err(e) => FromWorker::Failed(e),
    }
}

/// One turn of the collector's loop: the command it took, and the commands it
/// then found queued behind it.
pub open spec fn turn_step(turn: (ToWorker, Seq<ToWorker>)) -> WorkerStep {
    worker_step_for(turn.0, turn.1)
}

/// How many snapshots the collector collects over successive turns: one per
/// turn until the first turn that stops it.
pub open spec fn collections(turns: Seq<(ToWorker, Seq<ToWorker>)>) -> nat
    decreases turns.len(),
{
    if turns.len() == 0 {
        0
    } else if turn_step(turns[0]) == WorkerStep::Stop {
        0
    } else {
        1 + collections(turns.drop_first())
    }
}

/// How many turns began by taking a Refresh.
pub open spec fn refresh_turns(turns: Seq<(ToWorker, Seq<ToWorker>)>) -> nat
    decreases turns.len(),
{
    if turns.len() == 0 {
        0
    } else {
        (if turns[0].0 == ToWorker::Refresh {
            1nat
        } else {
            0nat
        }) + refresh_turns(turns.drop_first())
    }
}

/// A turn holds a Quit, taken or queued.
pub open spec fn has_quit(turn: (ToWorker, Seq<ToWorker>)) -> bool {
    turn.0 == ToWorker::Quit || turn.1.contains(ToWorker::Quit)
}

/// Whether the dashboard asks for a refresh: one was asked for or is due,
/// and none is running.
pub open spec fn refresh_decision(needs_refresh: bool, due: bool, in_flight: bool) -> bool {
    (needs_refresh || due) && !in_flight
}

/// One pass of the dashboard's loop as the refresh decision sees it: whether
/// a reply arrived, whether the interval had passed, and whether a key then
/// asked for a refresh.
pub open spec fn refresh_state(passes: Seq<(bool, bool, bool)>, n: nat) -> (bool, bool)
    recommends
        n <= passes.len(),
    decreases n,
{
    if n == 0 {
        (true, true)
    } else {
        let prev = refresh_state(passes, (n - 1) as nat);
        let p = passes[n - 1];
        let in_flight = prev.0 && !p.0;
        let sent = refresh_decision(prev.1, p.1, in_flight);
        (in_flight || sent, (if sent {
            false
        } else {
            prev.1
        }) || p.2)
    }
}

/// Whether pass `n` of the dashboard's loop asks the collector for a
/// refresh. Before the loop one refresh is already asked for, so the state
/// starts with one in flight and one wanted.
pub open spec fn refresh_sent(passes: Seq<(bool, bool, bool)>, n: nat) -> bool {
    let st = refresh_state(passes, n);
    refresh_decision(st.1, passes[n as int].1, st.0 && !passes[n as int].0)
}

impl App {
    /// Takes the collector's answer: a snapshot is applied, a failure is
    /// shown as the current error.
    pub fn apply_reply(&mut self, reply: FromWorker)
        ensures
            match reply {
                FromWorker::Failed(e) => *final(self) == (App { last_error: Some(e), ..*old(self) }),
                FromWorker::Ready { snapshot, volume_warning } => apply_snapshot_post(
                    *old(self),
                    *final(self),
                    snapshot,
                    volume_warning,
                ),
            },
    {
        match reply {
            FromWorker::Ready { snapshot, volume_warning } => self.apply_snapshot(snapshot, volume_warning),
            FromWorker::Failed(error) => self.last_error = Some(error),
        }
    }

    /// Whether to ask the collector for a refresh now: when one was asked
    /// for or is due, and none is running. Asking clears the request.
    pub fn take_refresh_request(&mut self, due: bool, in_flight: bool) -> (r: bool)
        ensures
            r == refresh_decision(old(self).needs_refresh, due, in_flight),
            *final(self) == (App {
                needs_refresh: if r {
                    false
                } else {
                    old(self).needs_refresh
                },
                ..*old(self)
            }),
    {
        if (self.needs_refresh || due) && !in_flight {
            self.needs_refresh = false;
            true
        } else {
            false
        }
    }
}

} // verus!
