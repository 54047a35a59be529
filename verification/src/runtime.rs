//! The multi-core cooperative runtime: the global registry of per-core
//! schedulers, the shared injector queue for tasks with no core affinity
//! yet, and task spawning.
//!
//! Scheduler slots are claimed exactly once, by an atomic-style
//! fetch-and-increment of the active-core count, and never released. The
//! injector holds tasks spawned before (or outside) any executor loop; an
//! idle executor drains it, or steals a bounded batch from another core.

use vstd::prelude::*;

use crate::platform::local::{
    resolved_value, CoreLocal, CoreLocalRegistry, CoreLocals, SlotAllocator, MAX_LOCALS,
};
use crate::platform::smp::MAX_CORES;
use crate::runtime::sched::{JoinHandle, Scheduler, Task};

pub mod executor;
pub mod laws;
pub mod sched;
pub mod time;

verus! {

/// Why a runtime operation failed.
#[derive(Clone, Copy, PartialEq, Eq, Structural, Debug)]
pub enum RuntimeError {
    /// Every scheduler slot is claimed: more cores asked for a scheduler
    /// than the runtime was built to support.
    CoreSlotsExhausted,
}

/// The process-wide table of per-core schedulers, plus the shared injector
/// queue. One instance drives the whole machine.
pub struct Runtime {
    cores: usize,
    schedulers: Vec<Option<Scheduler>>,
    sched_inject: Vec<Task>,
    next_task_id: u64,
    core_sched: CoreLocal<Option<usize>>,
}

impl Runtime {
    /// How many scheduler slots have been claimed.
    pub closed spec fn active_cores_spec(&self) -> int {
        self.cores as int
    }

    /// The scheduler slots, claimed ones filled in claim order.
    pub closed spec fn schedulers_spec(&self) -> Seq<Option<Scheduler>> {
        self.schedulers@
    }

    /// The injector queue, oldest task first.
    pub closed spec fn injector(&self) -> Seq<Task> {
        self.sched_inject@
    }

    /// The identity the next spawned task receives.
    pub closed spec fn next_task_id_spec(&self) -> u64 {
        self.next_task_id
    }

    /// The core-local key under which a running executor installs its
    /// scheduler's index.
    pub closed spec fn core_sched_spec(&self) -> CoreLocal<Option<usize>> {
        self.core_sched
    }

    /// The queue of the scheduler in slot `core`.
    pub open spec fn queue_of(&self, core: int) -> Seq<Task> {
        self.schedulers_spec()[core]->Some_0.queue()
    }

    /// The completions recorded by the scheduler in slot `core`.
    pub open spec fn completions_of(&self, core: int) -> Seq<u64> {
        self.schedulers_spec()[core]->Some_0.completions()
    }

    /// Slots are claimed in order and exactly the first `cores` slots are
    /// claimed; the core-local key is registered.
    pub open spec fn wf(&self) -> bool {
        &&& self.schedulers_spec().len() == MAX_CORES
        &&& 0 <= self.active_cores_spec() <= MAX_CORES
        &&& forall|i: int|
            0 <= i < MAX_CORES ==> (self.schedulers_spec()[i] is Some <==> i
                < self.active_cores_spec())
        &&& self.core_sched_spec().wf()
    }

    /// A fresh runtime: no cores active, no schedulers, an empty injector.
    /// Registers the runtime's own core-local declaration, so it must run
    /// during the startup registration phase.
    pub fn new(alloc: &mut SlotAllocator) -> (r: Runtime)
        requires
            old(alloc).allocated() < MAX_LOCALS,
        ensures
            r.wf(),
            r.active_cores_spec() == 0,
            r.injector() == Seq::<Task>::empty(),
            r.next_task_id_spec() == 0,
            r.core_sched_spec().slot_spec() == old(alloc).allocated(),
            r.core_sched_spec().init_spec() is None,
            final(alloc).allocated() == old(alloc).allocated() + 1,
    {
        let core_sched: CoreLocal<Option<usize>> = CoreLocal::new(alloc, None);
        let mut schedulers: Vec<Option<Scheduler>> = Vec::new();
        let mut i: usize = 0;
        while i < MAX_CORES
            invariant
                i == schedulers@.len(),
                i <= MAX_CORES,
                forall|j: int| 0 <= j < i ==> schedulers@[j] is None,
            decreases MAX_CORES - i,
        {
            schedulers.push(None);
            i = i + 1;
        }
        Runtime { cores: 0, schedulers, sched_inject: Vec::new(), next_task_id: 0, core_sched }
    }

    /// The key executors use to install themselves core-locally.
    pub fn core_sched_key(&self) -> (r: &CoreLocal<Option<usize>>)
        ensures
            *r == self.core_sched_spec(),
    {
        &self.core_sched
    }

    /// How many cores have claimed a scheduler.
    pub fn active_cores(&self) -> (r: usize)
        ensures
            r == self.active_cores_spec(),
    {
        self.cores
    }

    /// Atomically claims the next free core slot and constructs that
    /// slot's scheduler. Fails deterministically once every slot is
    /// claimed, without wrapping or touching an existing slot.
    pub fn make_scheduler(&mut self) -> (r: Result<usize, RuntimeError>)
        requires
            old(self).wf(),
        ensures
            final(self).wf(),
            final(self).core_sched_spec() == old(self).core_sched_spec(),
            final(self).injector() == old(self).injector(),
            final(self).next_task_id_spec() == old(self).next_task_id_spec(),
            match r {
                Ok(core) => {
                    &&& old(self).active_cores_spec() < MAX_CORES
                    &&& core == old(self).active_cores_spec()
                    &&& final(self).active_cores_spec() == old(self).active_cores_spec() + 1
                    &&& old(self).schedulers_spec()[core as int] is None
                    &&& final(self).queue_of(core as int) == Seq::<Task>::empty()
                    &&& final(self).completions_of(core as int) == Seq::<u64>::empty()
                    &&& forall|i: int|
                        0 <= i < MAX_CORES && i != core ==> final(self).schedulers_spec()[i] == old(
                            self,
                        ).schedulers_spec()[i]
                },
                Err(RuntimeError::CoreSlotsExhausted) => {
                    &&& old(self).active_cores_spec() == MAX_CORES
                    &&& *final(self) == *old(self)
                },
            },
    {
        let next = self.cores;
        if next >= MAX_CORES {
            return Err(RuntimeError::CoreSlotsExhausted);
        }
        self.cores = next + 1;
        self.schedulers.set(next, Some(Scheduler::new()));
        Ok(next)
    }

    /// Moves up to `max` tasks, oldest first, from the injector into the
    /// scheduler in slot `thief`. `None` reports an empty injector, the
    /// normal idle condition.
    pub fn try_steal_injector(&mut self, thief: usize, max: usize) -> (r: Option<usize>)
        requires
            old(self).wf(),
            thief < old(self).active_cores_spec(),
        ensures
            final(self).wf(),
            final(self).active_cores_spec() == old(self).active_cores_spec(),
            final(self).core_sched_spec() == old(self).core_sched_spec(),
            final(self).next_task_id_spec() == old(self).next_task_id_spec(),
            match r {
                None => {
                    &&& old(self).injector().len() == 0
                    &&& *final(self) == *old(self)
                },
                Some(moved) => {
                    &&& old(self).injector().len() > 0
                    &&& moved == vstd::math::min(old(self).injector().len() as int, max as int)
                    &&& final(self).injector() == old(self).injector().skip(moved as int)
                    &&& final(self).queue_of(thief as int) == old(self).queue_of(thief as int)
                        + old(self).injector().take(moved as int)
                    &&& final(self).completions_of(thief as int) == old(self).completions_of(
                        thief as int,
                    )
                    &&& forall|i: int|
                        0 <= i < MAX_CORES && i != thief ==> final(self).schedulers_spec()[i]
                            == old(self).schedulers_spec()[i]
                },
            },
    {
        if self.sched_inject.len() == 0 {
            return None;
        }
        let moved: usize = if self.sched_inject.len() < max {
            self.sched_inject.len()
        } else {
            max
        };
        let mut batch: Vec<Task> = Vec::new();
        let mut i: usize = 0;
        while i < moved
            invariant
                moved <= old(self).injector().len(),
                i <= moved,
                batch@ == old(self).injector().take(i as int),
                self.sched_inject@ == old(self).injector().skip(i as int),
                self.cores == old(self).cores,
                self.schedulers@ == old(self).schedulers_spec(),
                self.next_task_id == old(self).next_task_id_spec(),
                self.core_sched == old(self).core_sched_spec(),
            decreases moved - i,
        {
            proof {
                assert(self.sched_inject@[0] == old(self).injector()[i as int]);
            }
            let task = self.sched_inject.remove(0);
            batch.push(task);
            proof {
                assert(batch@ =~= old(self).injector().take(i + 1));
                assert(self.sched_inject@ =~= old(self).injector().skip(i + 1));
            }
            i = i + 1;
        }
        self.give_to(thief, batch);
        Some(moved)
    }

    /// Obtains a bounded batch from another core's scheduler: takes
    /// `min(victim_len / 2, max)` tasks, oldest first, from slot `victim`
    /// and queues them on slot `thief`. `None` reports that the victim
    /// slot holds no scheduler yet.
    pub fn seize(&mut self, victim: usize, thief: usize, max: usize) -> (r: Option<usize>)
        requires
            old(self).wf(),
            victim < MAX_CORES,
            thief < old(self).active_cores_spec(),
            victim != thief,
        ensures
            final(self).wf(),
            final(self).active_cores_spec() == old(self).active_cores_spec(),
            final(self).core_sched_spec() == old(self).core_sched_spec(),
            final(self).next_task_id_spec() == old(self).next_task_id_spec(),
            final(self).injector() == old(self).injector(),
            match r {
                None => {
                    &&& old(self).schedulers_spec()[victim as int] is None
                    &&& final(self).schedulers_spec() == old(self).schedulers_spec()
                },
                Some(moved) => {
                    &&& old(self).schedulers_spec()[victim as int] is Some
                    &&& moved == vstd::math::min(
                        old(self).queue_of(victim as int).len() as int / 2,
                        max as int,
                    )
                    &&& final(self).queue_of(victim as int) == old(self).queue_of(
                        victim as int,
                    ).skip(moved as int)
                    &&& final(self).queue_of(thief as int) == old(self).queue_of(thief as int)
                        + old(self).queue_of(victim as int).take(moved as int)
                    &&& final(self).completions_of(victim as int) == old(self).completions_of(
                        victim as int,
                    )
                    &&& final(self).completions_of(thief as int) == old(self).completions_of(
                        thief as int,
                    )
                    &&& forall|i: int|
                        0 <= i < MAX_CORES && i != victim && i != thief
                            ==> final(self).schedulers_spec()[i] == old(self).schedulers_spec()[i]
                },
            },
    {
        let slot = self.schedulers.remove(victim);
        let mut victim_sched = match slot {
            Some(s) => s,
            None => {
                self.schedulers.insert(victim, None);
                proof {
                    assert(self.schedulers@ =~= old(self).schedulers_spec());
                }
                return None;
            },
        };
        let half = victim_sched.task_count() / 2;
        let count: usize = if half < max {
            half
        } else {
            max
        };
        let batch = victim_sched.take_batch(count);
        self.schedulers.insert(victim, Some(victim_sched));
        proof {
            assert(self.schedulers@ =~= old(self).schedulers_spec().update(
                victim as int,
                self.schedulers@[victim as int],
            ));
        }
        self.give_to(thief, batch);
        Some(count)
    }

    /// Queues a batch of tasks on the scheduler in slot `core`, keeping
    /// their order.
    fn give_to(&mut self, core: usize, batch: Vec<Task>)
        requires
            old(self).wf(),
            core < old(self).active_cores_spec(),
        ensures
            final(self).wf(),
            final(self).active_cores_spec() == old(self).active_cores_spec(),
            final(self).core_sched_spec() == old(self).core_sched_spec(),
            final(self).next_task_id_spec() == old(self).next_task_id_spec(),
            final(self).injector() == old(self).injector(),
            final(self).queue_of(core as int) == old(self).queue_of(core as int) + batch@,
            final(self).completions_of(core as int) == old(self).completions_of(core as int),
            forall|i: int|
                0 <= i < MAX_CORES && i != core ==> final(self).schedulers_spec()[i] == old(
                    self,
                ).schedulers_spec()[i],
    {
        let slot = self.schedulers.remove(core);
        match slot {
            Some(mut s) => {
                s.give_batch(batch);
                self.schedulers.insert(core, Some(s));
                proof {
                    assert(self.schedulers@ =~= old(self).schedulers_spec().update(
                        core as int,
                        self.schedulers@[core as int],
                    ));
                }
            },
            None => {
                proof {
                    assert(false);
                }
            },
        }
    }

    /// Runs one pass of the scheduler in slot `core`; see
    /// [`Scheduler::tick`].
    pub fn tick_core(&mut self, core: usize) -> (r: sched::TickResult)
        requires
            old(self).wf(),
            core < old(self).active_cores_spec(),
        ensures
            final(self).wf(),
            final(self).active_cores_spec() == old(self).active_cores_spec(),
            final(self).core_sched_spec() == old(self).core_sched_spec(),
            final(self).next_task_id_spec() == old(self).next_task_id_spec(),
            final(self).injector() == old(self).injector(),
            final(self).queue_of(core as int) == sched::tick_survivors(
                old(self).queue_of(core as int),
            ),
            final(self).completions_of(core as int) == old(self).completions_of(core as int)
                + sched::tick_completions(old(self).queue_of(core as int)),
            r.completed == sched::tick_completions(old(self).queue_of(core as int)).len(),
            r.has_remaining == (final(self).queue_of(core as int).len() > 0),
            forall|i: int|
                0 <= i < MAX_CORES && i != core ==> final(self).schedulers_spec()[i] == old(
                    self,
                ).schedulers_spec()[i],
    {
        let slot = self.schedulers.remove(core);
        match slot {
            Some(mut s) => {
                let r = s.tick();
                self.schedulers.insert(core, Some(s));
                proof {
                    assert(self.schedulers@ =~= old(self).schedulers_spec().update(
                        core as int,
                        self.schedulers@[core as int],
                    ));
                }
                r
            },
            None => unreached(),
        }
    }

    /// Whether the task behind `handle` completed on the scheduler in slot
    /// `core`.
    pub fn is_complete_on(&self, core: usize, handle: &JoinHandle) -> (r: bool)
        requires
            self.wf(),
            core < self.active_cores_spec(),
        ensures
            r == self.completions_of(core as int).contains(handle.id),
    {
        match &self.schedulers[core] {
            Some(s) => s.is_complete(handle),
            None => unreached(),
        }
    }
}

/// Where a spawned task lands: the calling core's own scheduler when the
/// executor loop has installed one, else the shared injector.
pub open spec fn spawn_target(rt: Runtime, locals: CoreLocals<Option<usize>>) -> Option<int> {
    match resolved_value(locals@, &rt.core_sched_spec()) {
        Some(id) => if 0 <= id < rt.active_cores_spec() {
            Some(id as int)
        } else {
            None
        },
        None => None,
    }
}

/// Spawns a task with the given step budget. A core whose executor loop is
/// running spawns directly on its own scheduler (no contention); any other
/// context, including everything before the first executor starts, spawns
/// into the shared injector, which holds the task until an executor drains
/// it. `locals` is the calling core's storage block.
pub fn spawn(rt: &mut Runtime, locals: &mut CoreLocals<Option<usize>>, steps: u64) -> (handle:
    JoinHandle)
    requires
        old(rt).wf(),
        old(locals).wf(),
        old(rt).next_task_id_spec() < u64::MAX,
    ensures
        final(rt).wf(),
        final(locals).wf(),
        handle.id == old(rt).next_task_id_spec(),
        final(rt).next_task_id_spec() == old(rt).next_task_id_spec() + 1,
        final(rt).active_cores_spec() == old(rt).active_cores_spec(),
        final(rt).core_sched_spec() == old(rt).core_sched_spec(),
        final(locals)@ == old(locals)@.update(
            old(rt).core_sched_spec().slot_spec(),
            Some(resolved_value(old(locals)@, &old(rt).core_sched_spec())),
        ),
        ({
            let task = Task { id: old(rt).next_task_id_spec(), steps };
            match spawn_target(*old(rt), *old(locals)) {
                Some(core) => {
                    &&& final(rt).queue_of(core) == old(rt).queue_of(core).push(task)
                    &&& final(rt).completions_of(core) == old(rt).completions_of(core)
                    &&& final(rt).injector() == old(rt).injector()
                    &&& forall|i: int|
                        0 <= i < MAX_CORES && i != core ==> final(rt).schedulers_spec()[i] == old(
                            rt,
                        ).schedulers_spec()[i]
                },
                None => {
                    &&& final(rt).injector() == old(rt).injector().push(task)
                    &&& final(rt).schedulers_spec() == old(rt).schedulers_spec()
                },
            }
        }),
{
    let task = Task::new(rt.next_task_id, steps);
    rt.next_task_id = rt.next_task_id + 1;
    let current = locals.get(&rt.core_sched);
    match current {
        Some(id) => {
            if id < rt.cores {
                let handle = JoinHandle { id: task.id };
                let mut single: Vec<Task> = Vec::new();
                single.push(task);
                proof {
                    assert(old(rt).queue_of(id as int) + single@ =~= old(rt).queue_of(
                        id as int,
                    ).push(task));
                }
                rt.give_to(id, single);
                handle
            } else {
                rt.sched_inject.push(task);
                JoinHandle { id: task.id }
            }
        },
        None => {
            rt.sched_inject.push(task);
            JoinHandle { id: task.id }
        },
    }
}

/// Brings the runtime up on the boot core: installs the global timer,
/// initializes the boot core's core-local storage, and claims a scheduler
/// slot for the boot core's executor. `seed` feeds the executor's
/// steal-victim selector from the platform's random-number source.
pub fn init(
    rt: &mut Runtime,
    global: &mut time::GlobalTimer,
    clock: time::Clock,
    registry: &mut CoreLocalRegistry<Option<usize>>,
    boot_core: usize,
    seed: u64,
) -> (r: Result<executor::CoreExecutor, RuntimeError>)
    requires
        old(rt).wf(),
        old(global).wf(),
        !old(global).initialized(),
        old(registry).wf(),
        boot_core < MAX_CORES,
    ensures
        final(rt).wf(),
        final(global).wf(),
        final(global).initialized(),
        final(registry).wf(),
        final(registry).initialized(boot_core as int),
        final(global).inner_spec() matches Some(t) && t.clock_spec() == clock && t.now_spec() == 0
            && t.waiters() == Seq::<time::Waiter>::empty(),
        final(rt).core_sched_spec() == old(rt).core_sched_spec(),
        final(rt).injector() == old(rt).injector(),
        final(rt).next_task_id_spec() == old(rt).next_task_id_spec(),
        match r {
            Ok(ex) => {
                &&& old(rt).active_cores_spec() < MAX_CORES
                &&& ex.core_id_spec() == old(rt).active_cores_spec()
                &&& ex.bound_to(*final(rt))
                &&& !ex.is_running_spec()
                &&& ex.is_healthy_spec()
                &&& final(rt).active_cores_spec() == old(rt).active_cores_spec() + 1
                &&& final(rt).queue_of(ex.core_id_spec()) == Seq::<Task>::empty()
                &&& final(rt).completions_of(ex.core_id_spec()) == Seq::<u64>::empty()
                &&& forall|i: int|
                    0 <= i < MAX_CORES && i != ex.core_id_spec()
                        ==> final(rt).schedulers_spec()[i] == old(rt).schedulers_spec()[i]
            },
            Err(RuntimeError::CoreSlotsExhausted) => {
                &&& old(rt).active_cores_spec() == MAX_CORES
                &&& *final(rt) == *old(rt)
            },
        },
{
    // the timer subsystem first
    match time::init_timer(global, clock) {
        Ok(()) => (),
        Err(_) => {
            proof {
                assert(false);
            }
        },
    }
    // core-local storage for the boot core; a repeat is skipped silently
    let _ = CoreLocals::init(registry, boot_core);
    // and an executor for the boot core
    executor::CoreExecutor::new(rt, seed)
}

} // verus!
