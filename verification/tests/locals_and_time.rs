use taperipper::log::qemu::QEMUDebugcon;
use taperipper::log::tracer::{ConsoleSubscriber, PRI_BIT, SEC_BIT};
use taperipper::log::writer::NoOutput;
use taperipper::platform::local::{CoreLocal, CoreLocalRegistry, CoreLocals, SlotAllocator};
use taperipper::platform::msr::Msr;
use taperipper::runtime::sched::Task;
use taperipper::runtime::time::{
    duration_from_cycles, init_timer, new_clock, park_until, timer, turn_timer, Clock, GlobalTimer,
    TimerInitError,
};

#[test]
fn slot_allocation_is_monotonic() {
    let mut alloc = SlotAllocator::new();
    let a: CoreLocal<u32> = CoreLocal::new(&mut alloc, 7);
    let b: CoreLocal<u32> = CoreLocal::new(&mut alloc, 9);
    let mut locals: CoreLocals<u32> = CoreLocals::new();
    assert_eq!(locals.get(&a), 7);
    assert_eq!(locals.get(&b), 9);
}

#[test]
fn lazy_init_observes_the_same_value_across_calls() {
    let mut alloc = SlotAllocator::new();
    let key: CoreLocal<u64> = CoreLocal::new(&mut alloc, 41);
    let mut locals: CoreLocals<u64> = CoreLocals::new();
    let first = key.with(&mut locals, |v| *v);
    let second = key.with(&mut locals, |v| *v);
    assert_eq!(first, 41);
    assert_eq!(second, 41);
    // an explicit write sticks, and later reads observe it, not a second
    // construction of the initial value
    locals.set(&key, 100);
    assert_eq!(key.with(&mut locals, |v| *v), 100);
    assert_eq!(locals.get(&key), 100);
}

#[test]
fn registry_initializes_each_core_once() {
    let mut registry: CoreLocalRegistry<u8> = CoreLocalRegistry::new();
    assert!(!CoreLocals::is_initialized(&registry, 3));
    assert!(CoreLocals::try_current(&registry, 3).is_none());
    assert!(CoreLocals::init(&mut registry, 3));
    // the second initialization is skipped, reported for the warning
    assert!(!CoreLocals::init(&mut registry, 3));
    assert!(CoreLocals::is_initialized(&registry, 3));
    assert!(CoreLocals::try_current(&registry, 3).is_some());
    let _ = CoreLocals::current(&registry, 3);
    // other cores stay untouched
    assert!(!CoreLocals::is_initialized(&registry, 4));
}

#[test]
fn calibration_uses_the_firmware_frequency_when_present() {
    // one gigahertz: exactly one nanosecond per tick
    let clock = new_clock(Some(1_000_000_000), &Vec::new()).unwrap();
    assert_eq!(clock, Clock { tick_ns: 1, shift: 0 });
    // one hundred megahertz: ten nanoseconds per tick
    let clock = new_clock(Some(100_000_000), &Vec::new()).unwrap();
    assert_eq!(clock.tick_ns, 10);
}

#[test]
fn calibration_derives_ticks_from_a_synthetic_counter() {
    // a 1 GHz counter elapses 50 million cycles over the 50 ms span
    let clock = duration_from_cycles(&vec![50_000_000u64]).unwrap();
    assert_eq!(clock.tick_ns, 1);
    assert_eq!(clock.shift, 0);
    // a 3 GHz counter needs two right-shifts before a tick spans a
    // nanosecond; the derived duration stays within a factor of the true
    // third of a nanosecond
    let clock = duration_from_cycles(&vec![150_000_000u64]).unwrap();
    assert_eq!(clock.shift, 2);
    assert_eq!(clock.tick_ns, 1);
    // a useless measurement is retried with the next one, within the
    // five-attempt bound
    let clock = duration_from_cycles(&vec![0, 0, 0, 0, 50_000_000u64]).unwrap();
    assert_eq!(clock.tick_ns, 1);
    // exhausting every attempt is the fatal case
    assert!(duration_from_cycles(&vec![0, 0, 0, 0, 0]).is_none());
    assert!(duration_from_cycles(&Vec::new()).is_none());
}

#[test]
fn the_global_timer_installs_exactly_once() {
    let mut global = GlobalTimer::new();
    let clock = Clock { tick_ns: 1, shift: 0 };
    assert!(init_timer(&mut global, clock).is_ok());
    // unlike core-local storage, a second installation fails loudly
    assert_eq!(
        init_timer(&mut global, clock),
        Err(TimerInitError::AlreadyInitialized)
    );
    let _ = timer(&global);
}

#[test]
fn the_timer_wakes_waiters_in_deadline_order() {
    let mut global = GlobalTimer::new();
    let clock = Clock { tick_ns: 1, shift: 0 };
    init_timer(&mut global, clock).unwrap();
    park_until(&mut global, 20, Task { id: 2, steps: 0 });
    park_until(&mut global, 10, Task { id: 1, steps: 0 });
    park_until(&mut global, 30, Task { id: 3, steps: 0 });
    // nothing is due yet
    let woken = turn_timer(&mut global, 5);
    assert!(woken.is_empty());
    // the first two deadlines pass together, oldest deadline first
    let woken = turn_timer(&mut global, 20);
    assert_eq!(woken.len(), 2);
    assert_eq!(woken[0].id, 1);
    assert_eq!(woken[1].id, 2);
    // a stale tick count wakes nothing early
    let woken = turn_timer(&mut global, 0);
    assert!(woken.is_empty());
    let woken = turn_timer(&mut global, 30);
    assert_eq!(woken.len(), 1);
    assert_eq!(woken[0].id, 3);
}

#[test]
fn msrs_compare_by_register_number_alone() {
    let low = Msr::new(0x10);
    let high = Msr::with_name(0x20, "model specific");
    assert!(low == Msr::with_name(0x10, "a label changes nothing"));
    assert!(low < high);
    assert!(!(high < low));
}

#[test]
fn span_ids_mark_the_enabled_consoles() {
    let mut sub: ConsoleSubscriber<QEMUDebugcon, NoOutput> =
        ConsoleSubscriber::primary_only(QEMUDebugcon::new());
    assert!(sub.enabled());
    let id = sub.new_span_id();
    assert!(id & PRI_BIT != 0);
    assert_eq!(id & SEC_BIT, 0);
    let mut sub = sub.with_secondary(QEMUDebugcon::new());
    let id = sub.new_span_id();
    assert!(id & PRI_BIT != 0 && id & SEC_BIT != 0);
}
