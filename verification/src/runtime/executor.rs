//! The per-core executor: drives one core's scheduler, and when the local
//! queue runs dry, acquires work from the shared injector or steals a
//! bounded batch from another core.
//!
//! One executor exists per core. Its loop is: tick the local scheduler and
//! the global timer; with local work left, tick again at once; otherwise
//! seize work elsewhere; with nothing seized, exit if asked to stop, else
//! idle briefly and tick again. The idle wait itself is a platform
//! primitive (a firmware stall), so the loop advances one decision at a
//! time through [`CoreExecutor::run_step`] and the surrounding program
//! performs the wait.

use vstd::prelude::*;

use rand::RngExt;
use rand_core::SeedableRng;
use rand_xoshiro::Xoshiro256PlusPlus;

use crate::platform::local::CoreLocals;
use crate::platform::smp::MAX_CORES;
use crate::runtime::laws::{
    ids_of, lemma_ids_gained, lemma_ids_injector_move, lemma_ids_victim_move, lemma_parked_split,
    lemma_tick_core_ids, parked_ids, pass_conserves_ids, pending_ids,
};
use crate::runtime::sched::{tick_completions, tick_survivors, Task};
use crate::runtime::time::{turn_timer, GlobalTimer, Waiter};
use crate::runtime::Runtime;

verus! {

#[verifier::external_type_specification]
#[verifier::external_body]
pub struct ExXoshiro256PlusPlus(Xoshiro256PlusPlus);

/// Relies on rand_core::SeedableRng::seed_from_u64: builds a xoshiro256++
/// generator from a 64-bit seed. Nothing is assumed about the stream it
/// produces.
#[verifier::external_body]
fn seed_rng(seed: u64) -> Xoshiro256PlusPlus {
    Xoshiro256PlusPlus::seed_from_u64(seed)
}

/// Relies on rand::RngExt::random_range over `0..n`: the sample lands in
/// the range, which is non-empty by the precondition. Which value comes
/// back is left open.
#[verifier::external_body]
fn random_below(rng: &mut Xoshiro256PlusPlus, n: usize) -> (r: usize)
    requires
        n >= 1,
    ensures
        r < n,
{
    rng.random_range(0..n)
}

/// The relation a steal leaves on a victim's queue: the queue after is the
/// queue before with some count of its oldest tasks removed — never a
/// negative or corrupted length, never a reorder.
pub open spec fn lost_oldest_only(pre: Seq<Task>, post: Seq<Task>) -> bool {
    exists|k: int| 0 <= k <= pre.len() && post == pre.skip(k)
}

/// What one successful steal leaves behind: victim `v`'s oldest `seized`
/// tasks — half its queue, capped at [`CoreExecutor::MAX_TASKS_TO_STEAL`]
/// — moved whole onto `core`'s queue, with the injector and every other
/// scheduler untouched.
pub open spec fn stole_batch(pre: Runtime, post: Runtime, core: int, v: int, seized: int) -> bool {
    &&& 0 <= v < pre.active_cores_spec()
    &&& v != core
    &&& seized == vstd::math::min(
        pre.queue_of(v).len() as int / 2,
        CoreExecutor::MAX_TASKS_TO_STEAL as int,
    )
    &&& post.queue_of(v) == pre.queue_of(v).skip(seized)
    &&& post.queue_of(core) == pre.queue_of(core) + pre.queue_of(v).take(seized)
    &&& post.injector() == pre.injector()
    &&& forall|i: int|
        0 <= i < MAX_CORES && i != v && i != core ==> post.schedulers_spec()[i]
            == pre.schedulers_spec()[i]
}

/// What one turn of the executor loop decided.
#[derive(Clone, Copy, PartialEq, Eq, Structural, Debug)]
pub enum RunStep {
    /// Local work remains; tick again immediately.
    Worked,
    /// No work was found but the executor is still running; wait briefly
    /// (the platform's idle stall), then tick again.
    Idle,
    /// The executor was asked to stop and found no work; the loop is over
    /// and the core-local scheduler entry has been cleaned up.
    Stopped,
}

/// Drives one core's scheduler; see the module description for the loop.
pub struct CoreExecutor {
    core_id: usize,
    running: bool,
    healthy: bool,
    rand: Xoshiro256PlusPlus,
}

impl CoreExecutor {
    /// How many victim cores one seize pass tries before falling back to
    /// the injector.
    pub const MAX_STEAL_ATTEMPTS: usize = 8;

    /// The most tasks one steal moves, so a victim is never drained dry
    /// nor a thief swamped in one step.
    pub const MAX_TASKS_TO_STEAL: usize = 64;

    /// The scheduler slot this executor drives.
    pub closed spec fn core_id_spec(&self) -> int {
        self.core_id as int
    }

    /// Whether the run loop is active.
    pub closed spec fn is_running_spec(&self) -> bool {
        self.running
    }

    pub closed spec fn is_healthy_spec(&self) -> bool {
        self.healthy
    }

    /// The executor drives a slot that is claimed in `rt`.
    pub open spec fn bound_to(&self, rt: Runtime) -> bool {
        0 <= self.core_id_spec() < rt.active_cores_spec()
    }

    /// Claims a scheduler slot for the calling core and seeds the
    /// steal-victim selector from the given hardware random value. Fails
    /// exactly when every slot is claimed.
    pub fn new(rt: &mut Runtime, seed: u64) -> (r: Result<
        CoreExecutor,
        crate::runtime::RuntimeError,
    >)
        requires
            old(rt).wf(),
        ensures
            final(rt).wf(),
            final(rt).core_sched_spec() == old(rt).core_sched_spec(),
            final(rt).injector() == old(rt).injector(),
            final(rt).next_task_id_spec() == old(rt).next_task_id_spec(),
            match r {
                Ok(ex) => {
                    &&& old(rt).active_cores_spec() < MAX_CORES
                    &&& ex.core_id_spec() == old(rt).active_cores_spec()
                    &&& ex.bound_to(*final(rt))
                    &&& !ex.is_running_spec()
                    &&& ex.is_healthy_spec()
                    &&& final(rt).active_cores_spec() == old(rt).active_cores_spec() + 1
                    &&& final(rt).queue_of(ex.core_id_spec()) == Seq::<Task>::empty()
                    &&& final(rt).completions_of(ex.core_id_spec()) == Seq::<u64>::empty()
                    &&& forall|i: int|
                        0 <= i < MAX_CORES && i != ex.core_id_spec()
                            ==> final(rt).schedulers_spec()[i] == old(rt).schedulers_spec()[i]
                },
                Err(crate::runtime::RuntimeError::CoreSlotsExhausted) => {
                    &&& old(rt).active_cores_spec() == MAX_CORES
                    &&& *final(rt) == *old(rt)
                },
            },
    {
        let core_id = match rt.make_scheduler() {
            Ok(id) => id,
            Err(e) => {
                return Err(e);
            },
        };
        Ok(CoreExecutor { core_id, running: false, healthy: true, rand: seed_rng(seed) })
    }

    pub fn is_running(&self) -> (r: bool)
        ensures
            r == self.is_running_spec(),
    {
        self.running
    }

    pub fn is_healthy(&self) -> (r: bool)
        ensures
            r == self.is_healthy_spec(),
    {
        self.healthy
    }

    /// Asks the executor to leave its run loop: a running-to-idle
    /// transition, usable from any context. Reports whether the executor
    /// was running. The loop itself only honours the request between
    /// ticks, once no work remains: shutdown is cooperative, and a task
    /// that never suspends delays it.
    pub fn stop(&mut self) -> (was_running: bool)
        ensures
            !final(self).is_running_spec(),
            was_running == old(self).is_running_spec(),
            final(self).core_id_spec() == old(self).core_id_spec(),
            final(self).is_healthy_spec() == old(self).is_healthy_spec(),
    {
        let was_running = self.running;
        self.running = false;
        was_running
    }

    /// Enters the run loop: transitions idle to running and installs this
    /// executor's scheduler as the calling core's core-local scheduler.
    /// Returns false, changing nothing, when the executor is already
    /// running — entering twice is an error the caller reports.
    pub fn run_enter(&mut self, rt: &Runtime, locals: &mut CoreLocals<Option<usize>>) -> (entered:
        bool)
        requires
            rt.wf(),
            old(self).bound_to(*rt),
            old(locals).wf(),
        ensures
            final(self).core_id_spec() == old(self).core_id_spec(),
            final(self).is_healthy_spec() == old(self).is_healthy_spec(),
            final(locals).wf(),
            entered == !old(self).is_running_spec(),
            entered ==> final(self).is_running_spec() && final(locals)@ == old(locals)@.update(
                rt.core_sched_spec().slot_spec(),
                Some(Some(old(self).core_id_spec() as usize)),
            ),
            !entered ==> *final(self) == *old(self) && final(locals)@ == old(locals)@,
    {
        if self.running {
            return false;
        }
        self.running = true;
        locals.set(rt.core_sched_key(), Some(self.core_id));
        true
    }

    /// One pass of the loop body: tick the local scheduler, advance the
    /// global timer (queueing whatever it wakes on this core), and if no
    /// local work remains, try to seize work elsewhere. Reports whether
    /// the next pass should run immediately. Across the pass every task in
    /// the system is accounted for: what is pending or parked afterwards,
    /// plus what the pass completed, is exactly what was pending or parked
    /// before.
    pub fn tick(&mut self, rt: &mut Runtime, global: &mut GlobalTimer, now_ticks: u64) -> (r: bool)
        requires
            old(rt).wf(),
            old(self).bound_to(*old(rt)),
            old(global).wf(),
            old(global).initialized(),
        ensures
            final(rt).wf(),
            final(global).wf(),
            final(global).initialized(),
            final(self).core_id_spec() == old(self).core_id_spec(),
            final(self).is_running_spec() == old(self).is_running_spec(),
            final(self).is_healthy_spec() == old(self).is_healthy_spec(),
            final(rt).active_cores_spec() == old(rt).active_cores_spec(),
            final(rt).core_sched_spec() == old(rt).core_sched_spec(),
            final(rt).next_task_id_spec() == old(rt).next_task_id_spec(),
            final(rt).completions_of(old(self).core_id_spec()) == old(rt).completions_of(
                old(self).core_id_spec(),
            ) + tick_completions(old(rt).queue_of(old(self).core_id_spec())),
            forall|i: int|
                0 <= i < MAX_CORES && i != old(self).core_id_spec() ==> final(rt).completions_of(
                    i,
                ) == old(rt).completions_of(i),
            exists|extra: Seq<Task>|
                final(rt).queue_of(old(self).core_id_spec()) == tick_survivors(
                    old(rt).queue_of(old(self).core_id_spec()),
                ) + extra,
            forall|i: int|
                0 <= i < old(rt).active_cores_spec() && i != old(self).core_id_spec()
                    ==> #[trigger] lost_oldest_only(old(rt).queue_of(i), final(rt).queue_of(i)),
            lost_oldest_only(old(rt).injector(), final(rt).injector()),
            ({
                let before = old(global).inner_spec()->Some_0;
                let after = final(global).inner_spec()->Some_0;
                &&& after.clock_spec() == before.clock_spec()
                &&& exists|due: int|
                    0 <= due <= before.waiters().len() && after.waiters()
                        == before.waiters().skip(due)
                &&& pass_conserves_ids(
                    *old(rt),
                    before.waiters(),
                    *final(rt),
                    after.waiters(),
                    tick_completions(old(rt).queue_of(old(self).core_id_spec())),
                )
            }),
            r ==> final(rt).queue_of(old(self).core_id_spec()).len() > 0,
            !r ==> tick_survivors(old(rt).queue_of(old(self).core_id_spec())).len() == 0,
            tick_survivors(old(rt).queue_of(old(self).core_id_spec())).len() == 0 && old(
                rt,
            ).injector().len() > 0 ==> r && final(rt).injector() == old(rt).injector().skip(
                vstd::math::min(old(rt).injector().len() as int, Self::MAX_TASKS_TO_STEAL as int),
            ),
            old(rt).queue_of(old(self).core_id_spec()).len() == 0 && old(rt).injector().len() == 0
                && old(rt).active_cores_spec() == 1 && old(
                global,
            ).inner_spec()->Some_0.waiters().len() == 0 ==> !r,
    {
        let ghost idle_world = old(rt).queue_of(old(self).core_id_spec()).len() == 0 && old(
            rt,
        ).injector().len() == 0 && old(rt).active_cores_spec() == 1 && old(
            global,
        ).inner_spec()->Some_0.waiters().len() == 0;
        let core = self.core_id;
        let tick_result = rt.tick_core(core);
        let ghost after_pass = *rt;
        let woken = turn_timer(global, now_ticks);
        rt.give_to(core, woken);
        let ghost after_wake = *rt;
        let ghost comp = tick_completions(old(rt).queue_of(core as int));
        let ghost before_w = old(global).inner_spec()->Some_0.waiters();
        let ghost after_w = global.inner_spec()->Some_0.waiters();
        proof {
            assert(rt.queue_of(core as int) == tick_survivors(
                old(rt).queue_of(core as int),
            ) + woken@);
            // the scheduler pass kept every identity but the completed ones
            assert forall|i: int|
                0 <= i < old(rt).active_cores_spec() && i != core as int implies after_pass.queue_of(
                i,
            ) == old(rt).queue_of(i) by {}
            lemma_tick_core_ids(*old(rt), after_pass, core as int);
            // the timer's woken batch joined this core's queue ...
            assert forall|i: int|
                0 <= i < old(rt).active_cores_spec() && i != core as int implies after_wake.queue_of(
                i,
            ) == after_pass.queue_of(i) by {}
            lemma_ids_gained(after_pass, after_wake, core as int, woken@);
            // ... and left the waiter queue
            let due = choose|due: int|
                {
                    &&& 0 <= due <= before_w.len()
                    &&& woken@ == before_w.take(due).map_values(|w: Waiter| w.task)
                    &&& after_w == before_w.skip(due)
                };
            lemma_parked_split(before_w, due);
            assert(ids_of(woken@) == parked_ids(before_w.take(due)));
            assert(pending_ids(after_wake).add(comp.to_multiset()).add(parked_ids(after_w))
                =~= pending_ids(*old(rt)).add(parked_ids(before_w)));
            assert(pass_conserves_ids(*old(rt), before_w, after_wake, after_w, comp));
        }
        if tick_result.has_remaining {
            proof {
                assert(!idle_world);
                assert(rt.injector() =~= old(rt).injector().skip(0));
                assert(lost_oldest_only(old(rt).injector(), rt.injector()));
                assert forall|i: int|
                    0 <= i < old(rt).active_cores_spec() && i != core as int
                    implies #[trigger] lost_oldest_only(old(rt).queue_of(i), rt.queue_of(i)) by {
                    assert(rt.queue_of(i) =~= old(rt).queue_of(i).skip(0));
                }
            }
            return true;
        }
        let ghost pre_seize = *rt;
        let seized = self.seize(rt);
        proof {
            let extra = choose|extra: Seq<Task>|
                extra.len() == seized && rt.queue_of(core as int) == pre_seize.queue_of(
                    core as int,
                ) + extra;
            assert(rt.queue_of(core as int) =~= tick_survivors(old(rt).queue_of(core as int)) + (
            woken@ + extra));
            let kj = choose|k: int|
                0 <= k <= pre_seize.injector().len() && rt.injector() == pre_seize.injector().skip(
                    k,
                );
            assert(rt.injector() == old(rt).injector().skip(kj));
            assert(lost_oldest_only(old(rt).injector(), rt.injector()));
            assert forall|i: int|
                0 <= i < old(rt).active_cores_spec() && i != core as int
                implies #[trigger] lost_oldest_only(old(rt).queue_of(i), rt.queue_of(i)) by {
                assert(lost_oldest_only(pre_seize.queue_of(i), rt.queue_of(i)));
                let k = choose|k: int|
                    0 <= k <= pre_seize.queue_of(i).len() && rt.queue_of(i) == pre_seize.queue_of(
                        i,
                    ).skip(k);
                assert(rt.queue_of(i) == old(rt).queue_of(i).skip(k));
            }
            if idle_world {
                assert(seized == 0);
            }
            // seizing moved tasks around without losing or minting any
            assert(pending_ids(*rt) == pending_ids(after_wake));
            assert(pass_conserves_ids(*old(rt), before_w, *rt, after_w, comp));
        }
        seized > 0
    }

    /// Acquires work for this core once its own queue is empty: first the
    /// shared injector (cheapest, no victim search); failing that, up to
    /// [`Self::MAX_STEAL_ATTEMPTS`] rounds of picking another active core
    /// — at random, or directly when only one other exists — and stealing
    /// a bounded batch from it; failing those, the injector once more.
    /// A non-empty injector is never passed over: its oldest tasks, up to
    /// the cap, land whole on this core's queue. With the injector empty
    /// and another core active, some victim gives up half its queue,
    /// capped — which may be nothing when every victim is near-empty.
    /// Either way no task is lost or duplicated. Returns how many tasks
    /// were acquired; zero is the normal idle outcome, not an error.
    pub fn seize(&mut self, rt: &mut Runtime) -> (seized: usize)
        requires
            old(rt).wf(),
            old(self).bound_to(*old(rt)),
        ensures
            final(rt).wf(),
            final(self).core_id_spec() == old(self).core_id_spec(),
            final(self).is_running_spec() == old(self).is_running_spec(),
            final(self).is_healthy_spec() == old(self).is_healthy_spec(),
            final(rt).active_cores_spec() == old(rt).active_cores_spec(),
            final(rt).core_sched_spec() == old(rt).core_sched_spec(),
            final(rt).next_task_id_spec() == old(rt).next_task_id_spec(),
            seized <= Self::MAX_TASKS_TO_STEAL,
            exists|extra: Seq<Task>|
                extra.len() == seized && final(rt).queue_of(old(self).core_id_spec()) == old(
                    rt,
                ).queue_of(old(self).core_id_spec()) + extra,
            old(rt).injector().len() > 0 ==> ({
                &&& seized == vstd::math::min(
                    old(rt).injector().len() as int,
                    Self::MAX_TASKS_TO_STEAL as int,
                )
                &&& final(rt).injector() == old(rt).injector().skip(seized as int)
                &&& final(rt).queue_of(old(self).core_id_spec()) == old(rt).queue_of(
                    old(self).core_id_spec(),
                ) + old(rt).injector().take(seized as int)
                &&& forall|i: int|
                    0 <= i < MAX_CORES && i != old(self).core_id_spec()
                        ==> final(rt).schedulers_spec()[i] == old(rt).schedulers_spec()[i]
            }),
            old(rt).injector().len() == 0 && old(rt).active_cores_spec() == 1 ==> seized == 0
                && *final(rt) == *old(rt),
            old(rt).injector().len() == 0 && old(rt).active_cores_spec() >= 2 ==> exists|v: int|
                stole_batch(*old(rt), *final(rt), old(self).core_id_spec(), v, seized as int),
            pending_ids(*final(rt)) == pending_ids(*old(rt)),
            forall|i: int|
                0 <= i < MAX_CORES ==> final(rt).completions_of(i) == old(rt).completions_of(i),
            forall|i: int|
                0 <= i < old(rt).active_cores_spec() && i != old(self).core_id_spec()
                    ==> #[trigger] lost_oldest_only(old(rt).queue_of(i), final(rt).queue_of(i)),
            lost_oldest_only(old(rt).injector(), final(rt).injector()),
    {
        let core = self.core_id;
        // the shared injector first: no victim search needed
        if let Some(moved) = rt.try_steal_injector(core, Self::MAX_TASKS_TO_STEAL) {
            proof {
                assert(old(rt).injector().take(moved as int).len() == moved as int);
                assert(rt.queue_of(core as int) == old(rt).queue_of(core as int) + old(
                    rt,
                ).injector().take(moved as int));
                assert(rt.injector() == old(rt).injector().skip(moved as int));
                assert(lost_oldest_only(old(rt).injector(), rt.injector()));
                assert forall|i: int|
                    0 <= i < old(rt).active_cores_spec() && i != core as int
                    implies #[trigger] lost_oldest_only(old(rt).queue_of(i), rt.queue_of(i)) by {
                    assert(rt.queue_of(i) =~= old(rt).queue_of(i).skip(0));
                }
                assert forall|i: int|
                    0 <= i < old(rt).active_cores_spec() && i != core as int implies rt.queue_of(i)
                    == old(rt).queue_of(i) by {}
                lemma_ids_injector_move(*old(rt), *rt, core as int, moved as int);
            }
            return moved;
        }
        // otherwise, the long way: pick victims until a steal lands
        let mut attempts_remaining: usize = Self::MAX_STEAL_ATTEMPTS;
        while attempts_remaining != 0
            invariant
                rt.wf(),
                self.core_id_spec() == old(self).core_id_spec(),
                self.is_running_spec() == old(self).is_running_spec(),
                self.is_healthy_spec() == old(self).is_healthy_spec(),
                core == self.core_id_spec(),
                self.bound_to(*rt),
                *rt == *old(rt),
                old(rt).injector().len() == 0,
                attempts_remaining >= 1,
            ensures
                rt.wf(),
                self.core_id_spec() == old(self).core_id_spec(),
                self.is_running_spec() == old(self).is_running_spec(),
                self.is_healthy_spec() == old(self).is_healthy_spec(),
                core == self.core_id_spec(),
                self.bound_to(*rt),
                *rt == *old(rt),
                rt.active_cores_spec() <= 1,
            decreases attempts_remaining,
        {
            let active = rt.active_cores();
            // a lone executor has nobody to steal from
            if active <= 1 {
                break;
            }
            // pick the victim: with exactly one other core there is no
            // choice to make; otherwise draw uniformly among the other
            // active cores, skipping this one
            let index = if active == 2 {
                proof {
                    assert(core < 2);
                }
                1 - core
            } else {
                let drawn = random_below(&mut self.rand, active - 1);
                if drawn >= core {
                    drawn + 1
                } else {
                    drawn
                }
            };
            if let Some(moved) = rt.seize(index, core, Self::MAX_TASKS_TO_STEAL) {
                proof {
                    let vq = old(rt).queue_of(index as int);
                    assert(vq.take(moved as int).len() == moved as int);
                    assert(rt.queue_of(core as int) == old(rt).queue_of(core as int) + vq.take(
                        moved as int,
                    ));
                    assert forall|i: int|
                        0 <= i < old(rt).active_cores_spec() && i != core as int
                        implies #[trigger] lost_oldest_only(old(rt).queue_of(i), rt.queue_of(i)) by {
                        if i == index as int {
                            assert(rt.queue_of(i) == old(rt).queue_of(i).skip(moved as int));
                        } else {
                            assert(rt.queue_of(i) =~= old(rt).queue_of(i).skip(0));
                        }
                    }
                    assert(rt.injector() =~= old(rt).injector().skip(0));
                    assert(lost_oldest_only(old(rt).injector(), rt.injector()));
                    assert(stole_batch(*old(rt), *rt, core as int, index as int, moved as int));
                    assert forall|i: int|
                        0 <= i < old(rt).active_cores_spec() && i != index as int && i
                            != core as int implies rt.queue_of(i) == old(rt).queue_of(i) by {}
                    assert(moved as int <= vq.len() as int / 2);
                    lemma_ids_victim_move(*old(rt), *rt, index as int, core as int, moved as int);
                }
                return moved;
            } else {
                // a slot below the active count always holds a scheduler,
                // so a victim search never comes back empty-handed
                proof {
                    assert(rt.schedulers_spec()[index as int] is Some);
                    assert(false);
                }
                attempts_remaining = attempts_remaining - 1;
            }
        }
        // every attempt failed: one more look at the injector
        if let Some(moved) = rt.try_steal_injector(core, Self::MAX_TASKS_TO_STEAL) {
            // the first look already found the injector empty, and nothing
            // on the way here put anything back
            proof {
                assert(false);
            }
            moved
        } else {
            proof {
                assert(rt.queue_of(core as int) =~= old(rt).queue_of(core as int) + Seq::<
                    Task,
                >::empty());
                assert(rt.injector() =~= old(rt).injector().skip(0));
                assert(lost_oldest_only(old(rt).injector(), rt.injector()));
                assert forall|i: int|
                    0 <= i < old(rt).active_cores_spec() && i != core as int
                    implies #[trigger] lost_oldest_only(old(rt).queue_of(i), rt.queue_of(i)) by {
                    assert(rt.queue_of(i) =~= old(rt).queue_of(i).skip(0));
                }
            }
            0
        }
    }

    /// One turn of the run loop, after [`Self::run_enter`]: tick; with
    /// work left, ask to be called again at once; with none, honour a
    /// pending stop (cleaning up the core-local scheduler entry) or ask
    /// the caller to idle briefly before the next turn.
    pub fn run_step(
        &mut self,
        rt: &mut Runtime,
        global: &mut GlobalTimer,
        locals: &mut CoreLocals<Option<usize>>,
        now_ticks: u64,
    ) -> (step: RunStep)
        requires
            old(rt).wf(),
            old(self).bound_to(*old(rt)),
            old(global).wf(),
            old(global).initialized(),
            old(locals).wf(),
        ensures
            final(rt).wf(),
            final(global).wf(),
            final(global).initialized(),
            final(locals).wf(),
            final(self).core_id_spec() == old(self).core_id_spec(),
            final(self).is_healthy_spec() == old(self).is_healthy_spec(),
            final(self).is_running_spec() == old(self).is_running_spec(),
            final(rt).active_cores_spec() == old(rt).active_cores_spec(),
            final(rt).core_sched_spec() == old(rt).core_sched_spec(),
            final(rt).next_task_id_spec() == old(rt).next_task_id_spec(),
            final(rt).completions_of(old(self).core_id_spec()) == old(rt).completions_of(
                old(self).core_id_spec(),
            ) + tick_completions(old(rt).queue_of(old(self).core_id_spec())),
            forall|i: int|
                0 <= i < MAX_CORES && i != old(self).core_id_spec() ==> final(rt).completions_of(
                    i,
                ) == old(rt).completions_of(i),
            ({
                let before = old(global).inner_spec()->Some_0;
                let after = final(global).inner_spec()->Some_0;
                &&& after.clock_spec() == before.clock_spec()
                &&& exists|due: int|
                    0 <= due <= before.waiters().len() && after.waiters()
                        == before.waiters().skip(due)
                &&& pass_conserves_ids(
                    *old(rt),
                    before.waiters(),
                    *final(rt),
                    after.waiters(),
                    tick_completions(old(rt).queue_of(old(self).core_id_spec())),
                )
            }),
            step is Stopped ==> !old(self).is_running_spec() && final(locals)@ == old(
                locals,
            )@.update(old(rt).core_sched_spec().slot_spec(), Some(None::<usize>)),
            step is Stopped ==> tick_survivors(old(rt).queue_of(old(self).core_id_spec())).len()
                == 0,
            step is Idle ==> old(self).is_running_spec() && final(locals)@ == old(locals)@
                && tick_survivors(old(rt).queue_of(old(self).core_id_spec())).len() == 0,
            step is Worked ==> final(locals)@ == old(locals)@ && final(rt).queue_of(
                old(self).core_id_spec(),
            ).len() > 0,
            tick_survivors(old(rt).queue_of(old(self).core_id_spec())).len() == 0 && old(
                rt,
            ).injector().len() > 0 ==> step is Worked && final(rt).injector() == old(
                rt,
            ).injector().skip(
                vstd::math::min(old(rt).injector().len() as int, Self::MAX_TASKS_TO_STEAL as int),
            ),
            !old(self).is_running_spec() && old(rt).queue_of(old(self).core_id_spec()).len() == 0
                && old(rt).injector().len() == 0 && old(rt).active_cores_spec() == 1 && old(
                global,
            ).inner_spec()->Some_0.waiters().len() == 0 ==> step is Stopped,
    {
        if self.tick(rt, global, now_ticks) {
            return RunStep::Worked;
        }
        if !self.is_running() {
            // the guard: on every exit from the loop the core-local
            // scheduler entry is removed
            locals.set(rt.core_sched_key(), None);
            return RunStep::Stopped;
        }
        RunStep::Idle
    }
}

} // verus!
