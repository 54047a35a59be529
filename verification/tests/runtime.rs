use taperipper::platform::local::{CoreLocals, SlotAllocator};
use taperipper::runtime::executor::{CoreExecutor, RunStep};
use taperipper::runtime::time::{new_clock, GlobalTimer};
use taperipper::runtime::{init, spawn, Runtime, RuntimeError};

const MAX_CORES: usize = 2048;

fn boot() -> (Runtime, GlobalTimer, CoreLocals<Option<usize>>, CoreExecutor) {
    let mut alloc = SlotAllocator::new();
    let mut rt = Runtime::new(&mut alloc);
    let mut global = GlobalTimer::new();
    let mut registry = taperipper::platform::local::CoreLocalRegistry::new();
    let clock = new_clock(Some(1_000_000_000), &Vec::new()).unwrap();
    let executor = init(&mut rt, &mut global, clock, &mut registry, 0, 7).unwrap();
    let locals: CoreLocals<Option<usize>> = CoreLocals::new();
    (rt, global, locals, executor)
}

#[test]
fn spawn_before_executor_goes_to_injector() {
    let mut alloc = SlotAllocator::new();
    let mut rt = Runtime::new(&mut alloc);
    let mut locals: CoreLocals<Option<usize>> = CoreLocals::new();
    let h0 = spawn(&mut rt, &mut locals, 0);
    let h1 = spawn(&mut rt, &mut locals, 3);
    assert_eq!(h0.id, 0);
    assert_eq!(h1.id, 1);
    assert_eq!(rt.active_cores(), 0);
}

#[test]
fn injected_tasks_all_run_once_executor_starts() {
    let (mut rt, mut global, mut locals, mut executor) = boot();
    let mut handles = Vec::new();
    for _ in 0..10 {
        handles.push(spawn(&mut rt, &mut locals, 0));
    }
    assert!(executor.run_enter(&rt, &mut locals));
    let mut ticks: u64 = 0;
    loop {
        let step = executor.run_step(&mut rt, &mut global, &mut locals, ticks);
        ticks += 1;
        if step == RunStep::Idle {
            executor.stop();
        }
        if step == RunStep::Stopped {
            break;
        }
        assert!(ticks < 100);
    }
    for h in &handles {
        assert!(rt.is_complete_on(0, h));
    }
}

#[test]
fn claiming_past_the_last_core_slot_fails_deterministically() {
    let mut alloc = SlotAllocator::new();
    let mut rt = Runtime::new(&mut alloc);
    for expected in 0..MAX_CORES {
        let core = rt.make_scheduler().unwrap();
        assert_eq!(core, expected);
    }
    assert_eq!(rt.make_scheduler(), Err(RuntimeError::CoreSlotsExhausted));
    assert_eq!(rt.active_cores(), MAX_CORES);
    // and it keeps failing rather than wrapping onto an existing slot
    assert_eq!(rt.make_scheduler(), Err(RuntimeError::CoreSlotsExhausted));
}

#[test]
fn steal_takes_at_most_half_capped_at_sixty_four() {
    let mut alloc = SlotAllocator::new();
    let mut rt = Runtime::new(&mut alloc);
    let victim = rt.make_scheduler().unwrap();
    let thief = rt.make_scheduler().unwrap();
    let mut victim_locals: CoreLocals<Option<usize>> = CoreLocals::new();
    victim_locals.set(rt.core_sched_key(), Some(victim));
    for _ in 0..10 {
        spawn(&mut rt, &mut victim_locals, 1);
    }
    // half of ten
    let moved = rt.seize(victim, thief, 64).unwrap();
    assert_eq!(moved, 5);
    // half of five, rounded down
    let moved = rt.seize(victim, thief, 64).unwrap();
    assert_eq!(moved, 2);
    // the cap applies before the half when the cap is smaller
    let mut big_locals: CoreLocals<Option<usize>> = CoreLocals::new();
    big_locals.set(rt.core_sched_key(), Some(victim));
    for _ in 0..300 {
        spawn(&mut rt, &mut big_locals, 1);
    }
    let moved = rt.seize(victim, thief, 64).unwrap();
    assert_eq!(moved, 64);
}

#[test]
fn injector_steal_moves_the_oldest_and_keeps_the_rest() {
    let mut alloc = SlotAllocator::new();
    let mut rt = Runtime::new(&mut alloc);
    let mut locals: CoreLocals<Option<usize>> = CoreLocals::new();
    let mut handles = Vec::new();
    for _ in 0..5 {
        handles.push(spawn(&mut rt, &mut locals, 0));
    }
    let thief = rt.make_scheduler().unwrap();
    let moved = rt.try_steal_injector(thief, 3).unwrap();
    assert_eq!(moved, 3);
    // the remaining two are still there for the next steal
    let moved = rt.try_steal_injector(thief, 64).unwrap();
    assert_eq!(moved, 2);
    assert!(rt.try_steal_injector(thief, 64).is_none());
}

#[test]
fn executor_seize_acquires_the_injector_batch_whole() {
    let (mut rt, _global, mut locals, mut executor) = boot();
    // no executor loop is running on this core, so every spawn lands in
    // the shared injector
    for _ in 0..70 {
        spawn(&mut rt, &mut locals, 0);
    }
    // a non-empty injector is never left unharvested: the first pass takes
    // the cap, the second the remainder, and an idle lone executor zero
    assert_eq!(executor.seize(&mut rt), 64);
    assert_eq!(executor.seize(&mut rt), 6);
    assert_eq!(executor.seize(&mut rt), 0);
}

#[test]
fn two_cores_complete_one_hundred_injected_tasks_exactly_once() {
    let (mut rt, mut global, mut locals_a, mut exec_a) = boot();
    let mut handles = Vec::new();
    for _ in 0..100 {
        handles.push(spawn(&mut rt, &mut locals_a, 0));
    }
    let mut exec_b = CoreExecutor::new(&mut rt, 99).unwrap();
    let mut locals_b: CoreLocals<Option<usize>> = CoreLocals::new();
    assert!(exec_a.run_enter(&rt, &mut locals_a));
    assert!(exec_b.run_enter(&rt, &mut locals_b));
    let mut ticks: u64 = 0;
    let mut a_done = false;
    let mut b_done = false;
    while !(a_done && b_done) {
        if !a_done {
            let step = exec_a.run_step(&mut rt, &mut global, &mut locals_a, ticks);
            if step == RunStep::Idle {
                exec_a.stop();
            }
            a_done = step == RunStep::Stopped;
        }
        if !b_done {
            let step = exec_b.run_step(&mut rt, &mut global, &mut locals_b, ticks);
            if step == RunStep::Idle {
                exec_b.stop();
            }
            b_done = step == RunStep::Stopped;
        }
        ticks += 1;
        assert!(ticks < 1000);
    }
    let mut on_a = 0;
    let mut on_b = 0;
    for h in &handles {
        let a = rt.is_complete_on(0, h);
        let b = rt.is_complete_on(1, h);
        assert!(a || b, "a task was lost");
        assert!(!(a && b), "a task ran twice");
        if a {
            on_a += 1;
        } else {
            on_b += 1;
        }
    }
    assert_eq!(on_a + on_b, 100);
}

#[test]
fn idle_executor_stalls_and_exits_within_one_cycle_of_stop() {
    let (mut rt, mut global, mut locals, mut executor) = boot();
    assert!(executor.run_enter(&rt, &mut locals));
    let mut stalls = 0;
    // with nothing spawned, every turn asks for an idle stall
    for t in 0..5u64 {
        let step = executor.run_step(&mut rt, &mut global, &mut locals, t);
        assert_eq!(step, RunStep::Idle);
        stalls += 1;
    }
    assert_eq!(stalls, 5);
    // a stop from elsewhere is observed within one tick-idle cycle
    assert!(executor.stop());
    let step = executor.run_step(&mut rt, &mut global, &mut locals, 6);
    assert_eq!(step, RunStep::Stopped);
}

#[test]
fn run_enter_refuses_a_running_executor() {
    let (mut rt, _global, mut locals, mut executor) = boot();
    assert!(executor.run_enter(&rt, &mut locals));
    assert!(!executor.run_enter(&rt, &mut locals));
    assert!(executor.is_running());
    assert!(executor.is_healthy());
    let _ = rt.active_cores();
}

#[test]
fn stop_reports_whether_the_executor_was_running() {
    let (rt, _global, mut locals, mut executor) = boot();
    assert!(!executor.stop());
    assert!(executor.run_enter(&rt, &mut locals));
    assert!(executor.stop());
    assert!(!executor.is_running());
}

#[test]
fn spawning_on_a_running_core_lands_on_its_own_scheduler() {
    let (mut rt, mut global, mut locals, mut executor) = boot();
    assert!(executor.run_enter(&rt, &mut locals));
    let h = spawn(&mut rt, &mut locals, 0);
    // no injector round needed: the very next pass completes it locally
    let step = executor.run_step(&mut rt, &mut global, &mut locals, 0);
    assert_eq!(step, RunStep::Idle);
    assert!(rt.is_complete_on(0, &h));
}

#[test]
fn three_cores_steal_from_a_random_victim() {
    let (mut rt, mut global, mut locals_a, mut exec_a) = boot();
    let mut exec_b = CoreExecutor::new(&mut rt, 5).unwrap();
    let mut exec_c = CoreExecutor::new(&mut rt, 11).unwrap();
    let mut locals_b: CoreLocals<Option<usize>> = CoreLocals::new();
    let mut locals_c: CoreLocals<Option<usize>> = CoreLocals::new();
    assert!(exec_b.run_enter(&rt, &mut locals_b));
    // load 200 tasks onto core B's own queue
    for _ in 0..200 {
        spawn(&mut rt, &mut locals_b, 1);
    }
    // A and C are idle; their seize must find B through the random pick
    assert!(exec_a.run_enter(&rt, &mut locals_a));
    assert!(exec_c.run_enter(&rt, &mut locals_c));
    // a seize may pick the other idle core as its victim and come back
    // empty-handed; repeated turns settle on the loaded core
    let mut stolen_a = 0;
    for _ in 0..20 {
        stolen_a = exec_a.seize(&mut rt);
        if stolen_a > 0 {
            break;
        }
    }
    let mut stolen_c = 0;
    for _ in 0..20 {
        stolen_c = exec_c.seize(&mut rt);
        if stolen_c > 0 {
            break;
        }
    }
    assert!(stolen_a > 0 && stolen_a <= 64);
    assert!(stolen_c > 0 && stolen_c <= 64);
    let step = exec_a.run_step(&mut rt, &mut global, &mut locals_a, 1);
    assert_eq!(step, RunStep::Worked);
}
