//! The timer subsystem: a monotonic cycle-counter-backed clock calibrated at
//! startup, and a global sleep queue of timed waiters ordered by deadline.
//!
//! The tick source itself (a hardware timestamp counter or a firmware
//! timestamp protocol) lives outside this library; the executor hands the
//! current raw count to the timer on every scheduler tick, from any core.

use vstd::prelude::*;

use crate::runtime::sched::Task;

verus! {

/// How many fresh cycle-count measurements calibration may consume before
/// giving up.
pub const CALIBRATION_ATTEMPTS: usize = 5;

/// The wall-clock span each calibration measurement covers, in nanoseconds.
pub const CALIBRATION_SPAN_NS: u64 = 50_000_000;

/// Ticks of a monotonic counter, converted to time by a fixed
/// nanoseconds-per-tick factor. The `shift` says how many low bits the tick
/// source discards before handing counts to the timer.
#[derive(Clone, Copy, PartialEq, Eq, Structural, Debug)]
pub struct Clock {
    /// Nanoseconds that one (shifted) tick spans.
    pub tick_ns: u64,
    /// How far raw cycle counts are shifted right to form ticks.
    pub shift: u32,
}

/// Whether right-shifting `elapsed` cycles by `sft` yields a divisor that
/// both fits a 32-bit count and gives a tick at least one nanosecond long.
pub open spec fn shift_works(elapsed: u64, sft: u32) -> bool {
    &&& (elapsed >> sft) <= u32::MAX
    &&& (elapsed >> sft) >= 1
    &&& CALIBRATION_SPAN_NS / (elapsed >> sft) >= 1
}

/// The smallest workable shift for one measurement that is at least `from`,
/// if any shift below 64 works.
pub open spec fn first_shift(elapsed: u64, from: u32) -> Option<u32>
    decreases 64 - from,
{
    if from >= 64 {
        None
    } else if shift_works(elapsed, from) {
        Some(from)
    } else {
        first_shift(elapsed, (from + 1) as u32)
    }
}

/// What calibration derives from a list of measurements: the first
/// measurement with a workable shift decides the clock.
pub open spec fn calibration_spec(samples: Seq<u64>) -> Option<Clock>
    decreases samples.len(),
{
    if samples.len() == 0 {
        None
    } else {
        match first_shift(samples.first(), 0) {
            Some(sft) => Some(
                Clock { tick_ns: CALIBRATION_SPAN_NS / (samples.first() >> sft), shift: sft },
            ),
            None => calibration_spec(samples.drop_first()),
        }
    }
}

/// Derives a tick duration from elapsed-cycle measurements, each taken over
/// a fixed wall-clock span. For each measurement in turn, the divisor is
/// shifted right by increasing amounts until a tick of at least one
/// nanosecond comes out; a measurement that never yields one is retried
/// with the next, within the attempt bound. Exhausting every measurement is
/// the fatal calibration failure, reported as `None`.
pub fn duration_from_cycles(samples: &Vec<u64>) -> (r: Option<Clock>)
    requires
        samples@.len() <= CALIBRATION_ATTEMPTS,
    ensures
        r == calibration_spec(samples@),
        r matches Some(clock) ==> clock.tick_ns >= 1,
{
    let attempts = samples.len();
    let mut attempt: usize = 0;
    proof {
        assert(samples@.skip(0) =~= samples@);
    }
    while attempt < attempts
        invariant
            attempts == samples@.len(),
            attempt <= attempts,
            calibration_spec(samples@.skip(attempt as int)) == calibration_spec(samples@),
        decreases attempts - attempt,
    {
        let elapsed = samples[attempt];
        let mut sft: u32 = 0;
        let mut found: Option<Clock> = None;
        while sft < 64 && found.is_none()
            invariant
                found is None ==> first_shift(elapsed, 0) == first_shift(elapsed, sft),
                found matches Some(clock) ==> {
                    &&& first_shift(elapsed, 0) == Some(clock.shift)
                    &&& clock.tick_ns == CALIBRATION_SPAN_NS / (elapsed >> clock.shift)
                    &&& clock.tick_ns >= 1
                },
                sft <= 64,
            decreases 64 - sft, (if found is None { 1int } else { 0int }),
        {
            let shifted = elapsed >> sft;
            if shifted >= 1 && shifted <= (u32::MAX as u64) {
                let tick_ns = CALIBRATION_SPAN_NS / shifted;
                if tick_ns >= 1 {
                    found = Some(Clock { tick_ns, shift: sft });
                }
            }
            if found.is_none() {
                sft = sft + 1;
            }
        }
        proof {
            assert(samples@.skip(attempt as int).first() == samples@[attempt as int]);
        }
        if let Some(clock) = found {
            return Some(clock);
        }
        proof {
            assert(first_shift(elapsed, 0) is None);
            assert(samples@.skip(attempt as int).drop_first() =~= samples@.skip(attempt + 1));
        }
        attempt = attempt + 1;
    }
    proof {
        assert(samples@.skip(attempts as int) =~= Seq::<u64>::empty());
    }
    None
}

/// Builds the runtime clock. A firmware-provided tick frequency (in ticks
/// per second) wins when available; otherwise the clock is calibrated from
/// the given cycle measurements, and `None` reports the fatal case where
/// calibration exhausted every attempt.
pub fn new_clock(frequency: Option<u64>, samples: &Vec<u64>) -> (r: Option<Clock>)
    requires
        frequency matches Some(f) ==> f >= 1,
        samples@.len() <= CALIBRATION_ATTEMPTS,
    ensures
        match frequency {
            Some(f) => r == Some(Clock { tick_ns: 1_000_000_000u64 / f, shift: 0u32 }),
            None => r == calibration_spec(samples@),
        },
{
    match frequency {
        Some(f) => Some(Clock { tick_ns: 1_000_000_000 / f, shift: 0 }),
        None => duration_from_cycles(samples),
    }
}

/// A parked task with the tick deadline at which it wakes.
#[derive(Clone, Copy, PartialEq, Eq, Structural, Debug)]
pub struct Waiter {
    pub deadline: u64,
    pub task: Task,
}

/// The sleep queue: tasks parked until a tick deadline, ordered by
/// deadline, woken by [`Timer::turn`]. One timer serves every core.
pub struct Timer {
    clock: Clock,
    now: u64,
    waiters: Vec<Waiter>,
}

impl Timer {
    /// The clock the timer was installed with.
    pub closed spec fn clock_spec(&self) -> Clock {
        self.clock
    }

    /// The last tick count the timer advanced to.
    pub closed spec fn now_spec(&self) -> u64 {
        self.now
    }

    /// The parked tasks, in deadline order.
    pub closed spec fn waiters(&self) -> Seq<Waiter> {
        self.waiters@
    }

    /// Deadlines never decrease along the queue.
    pub open spec fn wf(&self) -> bool {
        forall|i: int, j: int|
            0 <= i <= j < self.waiters().len() ==> self.waiters()[i].deadline
                <= self.waiters()[j].deadline
    }

    pub fn new(clock: Clock) -> (r: Timer)
        ensures
            r.wf(),
            r.clock_spec() == clock,
            r.now_spec() == 0,
            r.waiters() == Seq::<Waiter>::empty(),
    {
        Timer { clock, now: 0, waiters: Vec::new() }
    }

    /// Parks a task until `deadline`, keeping the queue ordered. Among
    /// waiters with equal deadlines the newcomer goes last.
    pub fn register_waiter(&mut self, deadline: u64, task: Task)
        requires
            old(self).wf(),
        ensures
            final(self).wf(),
            final(self).clock_spec() == old(self).clock_spec(),
            final(self).now_spec() == old(self).now_spec(),
            exists|at: int|
                {
                    &&& 0 <= at <= old(self).waiters().len()
                    &&& final(self).waiters() == old(self).waiters().insert(
                        at,
                        Waiter { deadline, task },
                    )
                },
    {
        let n = self.waiters.len();
        let mut at: usize = 0;
        while at < n && self.waiters[at].deadline <= deadline
            invariant
                n == self.waiters@.len(),
                at <= n,
                self.waiters@ == old(self).waiters(),
                forall|i: int| 0 <= i < at ==> self.waiters@[i].deadline <= deadline,
            decreases n - at,
        {
            at = at + 1;
        }
        let w = Waiter { deadline, task };
        proof {
            old(self).waiters().insert_ensures(at as int, w);
        }
        self.waiters.insert(at, w);
        proof {
            assert(forall|i: int|
                at < i < self.waiters@.len() ==> self.waiters@[i].deadline >= deadline);
            assert(self.waiters@ == old(self).waiters().insert(at as int, w));
        }
    }

    /// Advances the timer to the given monotonic tick count and hands back
    /// every waiter whose deadline has passed, in deadline order. Safe to
    /// call from any core, every tick; a stale count (one the timer has
    /// already passed) wakes nothing early.
    pub fn turn(&mut self, now_ticks: u64) -> (woken: Vec<Task>)
        requires
            old(self).wf(),
        ensures
            final(self).wf(),
            final(self).clock_spec() == old(self).clock_spec(),
            final(self).now_spec() == if now_ticks > old(self).now_spec() {
                now_ticks
            } else {
                old(self).now_spec()
            },
            exists|due: int|
                {
                    &&& 0 <= due <= old(self).waiters().len()
                    &&& woken@ == old(self).waiters().take(due).map_values(|w: Waiter| w.task)
                    &&& final(self).waiters() == old(self).waiters().skip(due)
                    &&& forall|i: int|
                        0 <= i < due ==> old(self).waiters()[i].deadline <= final(self).now_spec()
                    &&& forall|i: int|
                        due <= i < old(self).waiters().len() ==> old(self).waiters()[i].deadline
                            > final(self).now_spec()
                },
    {
        if now_ticks > self.now {
            self.now = now_ticks;
        }
        let now = self.now;
        let mut woken: Vec<Task> = Vec::new();
        let mut due: usize = 0;
        let n = self.waiters.len();
        while due < n && self.waiters[due].deadline <= now
            invariant
                n == old(self).waiters().len(),
                due <= n,
                self.waiters@ == old(self).waiters(),
                woken@ == old(self).waiters().take(due as int).map_values(|w: Waiter| w.task),
                forall|i: int| 0 <= i < due ==> old(self).waiters()[i].deadline <= now,
            decreases n - due,
        {
            woken.push(self.waiters[due].task);
            proof {
                assert(woken@ =~= old(self).waiters().take(due + 1).map_values(
                    |w: Waiter| w.task,
                ));
            }
            due = due + 1;
        }
        let ghost due_count = due as int;
        proof {
            assert(forall|i: int|
                due_count <= i < n ==> old(self).waiters()[i].deadline > now);
        }
        let mut remaining: Vec<Waiter> = Vec::new();
        let mut i: usize = due;
        while i < n
            invariant
                n == old(self).waiters().len(),
                due <= i <= n,
                self.waiters@ == old(self).waiters(),
                remaining@ == old(self).waiters().subrange(due as int, i as int),
            decreases n - i,
        {
            remaining.push(self.waiters[i]);
            proof {
                assert(remaining@ =~= old(self).waiters().subrange(due as int, i + 1));
            }
            i = i + 1;
        }
        self.waiters = remaining;
        proof {
            assert(self.waiters@ =~= old(self).waiters().skip(due_count));
            assert({
                &&& 0 <= due_count <= old(self).waiters().len()
                &&& woken@ == old(self).waiters().take(due_count).map_values(
                    |w: Waiter| w.task,
                )
                &&& self.waiters@ == old(self).waiters().skip(due_count)
                &&& forall|i: int|
                    0 <= i < due_count ==> old(self).waiters()[i].deadline <= self.now
                &&& forall|i: int|
                    due_count <= i < old(self).waiters().len() ==> old(
                        self,
                    ).waiters()[i].deadline > self.now
            });
        }
        woken
    }
}

/// Why installing the process-wide timer failed.
#[derive(Clone, Copy, PartialEq, Eq, Structural, Debug)]
pub enum TimerInitError {
    /// The global timer was installed before; a second installation is a
    /// scheduling bug and fails loudly.
    AlreadyInitialized,
}

/// The slot the process-wide timer is installed into, exactly once.
pub struct GlobalTimer {
    inner: Option<Timer>,
}

impl GlobalTimer {
    /// The installed timer, if any.
    pub closed spec fn inner_spec(&self) -> Option<Timer> {
        self.inner
    }

    pub open spec fn initialized(&self) -> bool {
        self.inner_spec() is Some
    }

    pub open spec fn wf(&self) -> bool {
        self.inner_spec() matches Some(t) ==> t.wf()
    }

    /// An empty slot, before timer setup runs.
    pub fn new() -> (r: GlobalTimer)
        ensures
            r.wf(),
            !r.initialized(),
    {
        GlobalTimer { inner: None }
    }
}

/// Installs the process-wide timer. Unlike core-local initialization, a
/// second call is not silently skipped: double initialization signals a
/// scheduling bug and is reported as an error.
pub fn init_timer(global: &mut GlobalTimer, clock: Clock) -> (r: Result<(), TimerInitError>)
    requires
        old(global).wf(),
    ensures
        final(global).wf(),
        final(global).initialized(),
        match r {
            Ok(()) => {
                &&& !old(global).initialized()
                &&& final(global).inner_spec() matches Some(t) && t.clock_spec() == clock
                    && t.now_spec() == 0 && t.waiters() == Seq::<Waiter>::empty()
            },
            Err(TimerInitError::AlreadyInitialized) => {
                &&& old(global).initialized()
                &&& *final(global) == *old(global)
            },
        },
{
    if global.inner.is_some() {
        return Err(TimerInitError::AlreadyInitialized);
    }
    global.inner = Some(Timer::new(clock));
    Ok(())
}

/// The installed timer. Asking for it before [`init_timer`] is a
/// programming error, ruled out by the precondition.
pub fn timer(global: &GlobalTimer) -> (r: &Timer)
    requires
        global.initialized(),
    ensures
        Some(*r) == global.inner_spec(),
{
    match &global.inner {
        Some(t) => t,
        None => unreached(),
    }
}

/// Advances the installed timer, waking due waiters; see [`Timer::turn`].
pub fn turn_timer(global: &mut GlobalTimer, now_ticks: u64) -> (woken: Vec<Task>)
    requires
        old(global).wf(),
        old(global).initialized(),
    ensures
        final(global).wf(),
        final(global).initialized(),
        ({
            let before = old(global).inner_spec()->Some_0;
            let after = final(global).inner_spec()->Some_0;
            &&& after.clock_spec() == before.clock_spec()
            &&& after.now_spec() == if now_ticks > before.now_spec() {
                now_ticks
            } else {
                before.now_spec()
            }
            &&& exists|due: int|
                {
                    &&& 0 <= due <= before.waiters().len()
                    &&& woken@ == before.waiters().take(due).map_values(|w: Waiter| w.task)
                    &&& after.waiters() == before.waiters().skip(due)
                    &&& forall|i: int|
                        0 <= i < due ==> before.waiters()[i].deadline <= after.now_spec()
                    &&& forall|i: int|
                        due <= i < before.waiters().len() ==> before.waiters()[i].deadline
                            > after.now_spec()
                }
        }),
{
    match &mut global.inner {
        Some(t) => t.turn(now_ticks),
        None => unreached(),
    }
}

/// Parks a task on the installed timer; see [`Timer::register_waiter`].
pub fn park_until(global: &mut GlobalTimer, deadline: u64, task: Task)
    requires
        old(global).wf(),
        old(global).initialized(),
    ensures
        final(global).wf(),
        final(global).initialized(),
        ({
            let before = old(global).inner_spec()->Some_0;
            let after = final(global).inner_spec()->Some_0;
            &&& after.clock_spec() == before.clock_spec()
            &&& after.now_spec() == before.now_spec()
            &&& exists|at: int|
                {
                    &&& 0 <= at <= before.waiters().len()
                    &&& after.waiters() == before.waiters().insert(
                        at,
                        Waiter { deadline, task },
                    )
                }
        }),
{
    match &mut global.inner {
        Some(t) => t.register_waiter(deadline, task),
        None => unreached(),
    }
}

} // verus!
