use taperipper::debug::info::{has_unwind_table, unwind_entry_for, UnwindEntry, UnwindTable};
use taperipper::debug::trace::Trace;
use taperipper::runtime::sched::{Scheduler, Task};

#[test]
fn unwind_lookup_finds_the_covering_entry() {
    let entries = vec![
        UnwindEntry::new(0x1000, 0x1100, 4, vec![1, 2], Some(String::from("boot"))),
        UnwindEntry::new(0x1100, 0x1400, 8, vec![3], None),
        UnwindEntry::new(0x2000, 0x2010, 0, Vec::new(), None),
    ];
    let table = UnwindTable::new(entries);
    let hit = unwind_entry_for(&table, 0x1234).unwrap();
    assert_eq!(hit.start(), 0x1100);
    assert_eq!(hit.end(), 0x1400);
    assert_eq!(hit.prolog(), 8);
    // a boundary address belongs to the entry that starts there
    let hit = unwind_entry_for(&table, 0x1100).unwrap();
    assert_eq!(hit.start(), 0x1100);
    // gaps and out-of-range addresses have no entry
    assert!(unwind_entry_for(&table, 0x1800).is_none());
    assert!(unwind_entry_for(&table, 0x3000).is_none());
}

#[test]
fn unwind_entries_relocate_by_the_load_base() {
    let entry = UnwindEntry::new(0x10, 0x20, 2, vec![9], None);
    let moved = entry.relocate(0x4000);
    assert_eq!(moved.start(), 0x4010);
    assert_eq!(moved.end(), 0x4020);
    assert_eq!(moved.prolog(), 2);
    assert_eq!(moved.codes(), &vec![9]);
}

#[test]
fn an_absent_or_empty_table_reports_no_unwind_support() {
    assert!(!has_unwind_table(&None));
    assert!(!has_unwind_table(&Some(UnwindTable::new(Vec::new()))));
    let table = UnwindTable::new(vec![UnwindEntry::new(0, 1, 0, Vec::new(), None)]);
    assert!(has_unwind_table(&Some(table)));
}

#[test]
fn traces_record_their_starting_point() {
    let trace = Trace::new(0xCAFE);
    assert_eq!(trace.start_addr(), 0xCAFE);
    assert!(trace.frames().is_empty());
}

#[test]
fn a_tick_runs_each_queued_task_once() {
    let mut sched = Scheduler::new();
    let h0 = sched.spawn(Task::new(1, 0));
    let h1 = sched.spawn(Task::new(2, 2));
    assert_eq!(sched.task_count(), 2);
    let result = sched.tick();
    // the zero-budget task completed; the other consumed one unit
    assert_eq!(result.completed, 1);
    assert!(result.has_remaining);
    assert!(sched.is_complete(&h0));
    assert!(!sched.is_complete(&h1));
    let result = sched.tick();
    assert_eq!(result.completed, 0);
    assert!(result.has_remaining);
    let result = sched.tick();
    assert_eq!(result.completed, 1);
    assert!(!result.has_remaining);
    assert!(sched.is_complete(&h1));
}

#[test]
fn batches_move_between_schedulers_in_order() {
    let mut victim = Scheduler::new();
    for id in 0..6u64 {
        victim.spawn(Task::new(id, 1));
    }
    let batch = victim.take_batch(4);
    assert_eq!(batch.len(), 4);
    assert_eq!(batch[0].id, 0);
    assert_eq!(batch[3].id, 3);
    assert_eq!(victim.task_count(), 2);
    let mut thief = Scheduler::new();
    thief.give_batch(batch);
    assert_eq!(thief.task_count(), 4);
}
