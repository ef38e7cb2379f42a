//! The controller's task lifecycle, as a state machine.
//!
//! A controller holds at most one animation task. Every display request and
//! every teardown is turned into a plan: the commands that the caller carries
//! out, in order, on the shared stop flag and on the task handle. The plans
//! are such that a new task is spawned only after the previous one was told
//! to stop and was joined, so two tasks never paint at the same time.

use vstd::prelude::*;

verus! {

/// Whether the controller holds the handle of a running task.
#[derive(Clone, Copy, Debug, PartialEq, Eq, Structural)]
pub enum TaskSlot {
    NoTask,
    TaskRunning,
}

/// One step of a plan.
#[derive(Clone, Copy, Debug, PartialEq, Eq, Structural)]
pub enum Command {
    /// Clear the shared running flag, under its lock.
    SignalStop,
    /// Block until the held task has exited, and drop its handle.
    JoinPrevious,
    /// Set the shared running flag, under its lock.
    SetRunning,
    /// Spawn a new animation task and hold its handle.
    SpawnTask,
}

/// The lifecycle state of a controller.
#[derive(Clone, Copy, Debug, PartialEq, Eq, Structural)]
pub struct TaskLifecycle {
    pub slot: TaskSlot,
    /// Scroll speed handed to every task; fixed at construction.
    pub ms_per_pixel: u16,
}

/// Commands that stop and join the held task, if there is one.
pub open spec fn stop_plan(slot: TaskSlot) -> Seq<Command> {
    match slot {
        TaskSlot::NoTask => seq![],
        TaskSlot::TaskRunning => seq![Command::SignalStop, Command::JoinPrevious],
    }
}

/// Commands for a display request: retire the held task, then start anew.
pub open spec fn display_plan(slot: TaskSlot) -> Seq<Command> {
    stop_plan(slot) + seq![Command::SetRunning, Command::SpawnTask]
}

/// Number of live tasks held by a slot.
pub open spec fn live(slot: TaskSlot) -> int {
    match slot {
        TaskSlot::NoTask => 0,
        TaskSlot::TaskRunning => 1,
    }
}

/// Live tasks after the first `k` commands of `plan`, from `start` live tasks.
pub open spec fn live_after(start: int, plan: Seq<Command>, k: int) -> int
    decreases k,
{
    if k <= 0 {
        start
    } else {
        let before = live_after(start, plan, k - 1);
        match plan[k - 1] {
            Command::JoinPrevious => before - 1,
            Command::SpawnTask => before + 1,
            _ => before,
        }
    }
}

/// The running flag after the first `k` commands of `plan`, from `flag`.
pub open spec fn flag_after(flag: bool, plan: Seq<Command>, k: int) -> bool
    decreases k,
{
    if k <= 0 {
        flag
    } else {
        match plan[k - 1] {
            Command::SignalStop => false,
            Command::SetRunning => true,
            _ => flag_after(flag, plan, k - 1),
        }
    }
}

impl TaskLifecycle {
    /// A controller with no task yet.
    pub fn new(ms_per_pixel: u16) -> (r: TaskLifecycle)
        ensures
            r.slot == TaskSlot::NoTask,
            r.ms_per_pixel == ms_per_pixel,
    {
        TaskLifecycle { slot: TaskSlot::NoTask, ms_per_pixel }
    }

    /// A display request. The plan retires the held task, if any, then sets
    /// the running flag and spawns the new task, which the controller then
    /// holds.
    pub fn display(&mut self) -> (r: Vec<Command>)
        ensures
            r@ == display_plan(old(self).slot),
            *final(self) == (TaskLifecycle { slot: TaskSlot::TaskRunning, ..*old(self) }),
    {
        let mut plan = self.shutdown();
        plan.push(Command::SetRunning);
        plan.push(Command::SpawnTask);
        self.slot = TaskSlot::TaskRunning;
        plan
    }

    /// Teardown. The plan stops and joins the held task, if any; afterwards
    /// the controller holds none.
    pub fn shutdown(&mut self) -> (r: Vec<Command>)
        ensures
            r@ == stop_plan(old(self).slot),
            *final(self) == (TaskLifecycle { slot: TaskSlot::NoTask, ..*old(self) }),
    {
        let mut plan: Vec<Command> = Vec::new();
        if self.slot == TaskSlot::TaskRunning {
            plan.push(Command::SignalStop);
            plan.push(Command::JoinPrevious);
        }
        self.slot = TaskSlot::NoTask;
        proof {
            assert(plan@ =~= stop_plan(old(self).slot));
        }
        plan
    }
}

/// Joining before spawning: in the plan of a display request, every spawn
/// comes when no task is live (the previous one, if any, has been joined),
/// with the running flag set for the new task; and every join comes after the
/// flag was cleared, so the task being joined is bound to see the stop
/// request and exit.
pub proof fn lemma_join_before_spawn(slot: TaskSlot, flag: bool)
    ensures
        forall|k: int|
            0 <= k < display_plan(slot).len() && display_plan(slot)[k] == Command::SpawnTask
                ==> live_after(live(slot), display_plan(slot), k) == 0
                && flag_after(flag, display_plan(slot), k),
        forall|k: int|
            0 <= k < display_plan(slot).len() && display_plan(slot)[k] == Command::JoinPrevious
                ==> !flag_after(flag, display_plan(slot), k),
{
    let plan = display_plan(slot);
    reveal_with_fuel(live_after, 5);
    reveal_with_fuel(flag_after, 5);
    match slot {
        TaskSlot::NoTask => {
            assert(plan =~= seq![Command::SetRunning, Command::SpawnTask]);
        },
        TaskSlot::TaskRunning => {
            assert(plan =~= seq![
                Command::SignalStop,
                Command::JoinPrevious,
                Command::SetRunning,
                Command::SpawnTask,
            ]);
        },
    }
}

/// The plan for one request to the controller: a display request when
/// `display` holds, a teardown otherwise.
pub open spec fn plan_for(slot: TaskSlot, display: bool) -> Seq<Command> {
    if display {
        display_plan(slot)
    } else {
        stop_plan(slot)
    }
}

/// The slot after one request.
pub open spec fn slot_after(display: bool) -> TaskSlot {
    if display {
        TaskSlot::TaskRunning
    } else {
        TaskSlot::NoTask
    }
}

/// All commands carried out for a sequence of requests, from `slot`.
pub open spec fn trace(slot: TaskSlot, requests: Seq<bool>) -> Seq<Command>
    decreases requests.len(),
{
    if requests.len() == 0 {
        seq![]
    } else {
        plan_for(slot, requests[0]) + trace(slot_after(requests[0]), requests.drop_first())
    }
}

/// At point `k` of `plan`, from `start` live tasks: at most one task is live,
/// and a spawn comes only when none is.
pub open spec fn one_writer_at(start: int, plan: Seq<Command>, k: int) -> bool {
    &&& 0 <= live_after(start, plan, k) <= 1
    &&& (k < plan.len() && plan[k] == Command::SpawnTask) ==> live_after(start, plan, k) == 0
}

proof fn lemma_live_prefix(start: int, p: Seq<Command>, q: Seq<Command>, k: int)
    requires
        0 <= k <= p.len(),
    ensures
        live_after(start, p + q, k) == live_after(start, p, k),
    decreases k,
{
    if k > 0 {
        lemma_live_prefix(start, p, q, k - 1);
        assert((p + q)[k - 1] == p[k - 1]);
    }
}

proof fn lemma_live_suffix(start: int, p: Seq<Command>, q: Seq<Command>, k: int)
    requires
        0 <= k <= q.len(),
    ensures
        live_after(start, p + q, p.len() + k) == live_after(
            live_after(start, p, p.len() as int),
            q,
            k,
        ),
    decreases k,
{
    if k == 0 {
        lemma_live_prefix(start, p, q, p.len() as int);
    } else {
        lemma_live_suffix(start, p, q, k - 1);
        assert((p + q)[p.len() + k - 1] == q[k - 1]);
    }
}

proof fn lemma_one_plan(slot: TaskSlot, display: bool)
    ensures
        forall|k: int|
            0 <= k <= plan_for(slot, display).len() ==> #[trigger] one_writer_at(
                live(slot),
                plan_for(slot, display),
                k,
            ),
        live_after(live(slot), plan_for(slot, display), plan_for(slot, display).len() as int)
            == live(slot_after(display)),
{
    let plan = plan_for(slot, display);
    reveal_with_fuel(live_after, 5);
    match slot {
        TaskSlot::NoTask => {
            assert(display_plan(slot) =~= seq![Command::SetRunning, Command::SpawnTask]);
            assert(stop_plan(slot) =~= Seq::<Command>::empty());
        },
        TaskSlot::TaskRunning => {
            assert(display_plan(slot) =~= seq![
                Command::SignalStop,
                Command::JoinPrevious,
                Command::SetRunning,
                Command::SpawnTask,
            ]);
        },
    }
}

/// A single writer: over any sequence of display requests and teardowns,
/// starting from any slot, at no point while the commands are carried out
/// are two tasks live, and every new task is spawned only when no other task
/// is live.
pub proof fn lemma_single_writer(slot: TaskSlot, requests: Seq<bool>, k: int)
    requires
        0 <= k <= trace(slot, requests).len(),
    ensures
        one_writer_at(live(slot), trace(slot, requests), k),
    decreases requests.len(),
{
    if requests.len() > 0 {
        let r = requests[0];
        let p = plan_for(slot, r);
        let rest = requests.drop_first();
        let q = trace(slot_after(r), rest);
        assert(trace(slot, requests) == p + q);
        lemma_one_plan(slot, r);
        if k < p.len() {
            lemma_live_prefix(live(slot), p, q, k);
            assert(one_writer_at(live(slot), p, k));
            assert((p + q)[k] == p[k]);
        } else {
            let j = k - p.len();
            lemma_live_suffix(live(slot), p, q, j);
            lemma_single_writer(slot_after(r), rest, j);
            if j < q.len() {
                assert((p + q)[k] == q[j]);
            }
        }
    }
}

} // verus!
