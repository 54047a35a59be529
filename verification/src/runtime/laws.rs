//! Laws the runtime obeys, stated over the same views its contracts use.
//!
//! Each law takes abstract before/after states constrained exactly by the
//! corresponding operation's contract, and concludes a conservation or
//! uniqueness statement: spawning adds exactly one pending task, stealing
//! moves tasks without losing or duplicating any, and a queue that is
//! stolen from only ever loses its oldest tasks.

use vstd::prelude::*;

use vstd::multiset::Multiset;

use crate::platform::smp::MAX_CORES;
use crate::runtime::sched::{tick_completions, tick_survivors, Task};
use crate::runtime::time::Waiter;
use crate::runtime::{spawn_target, Runtime};
use crate::platform::local::{resolved_value, CoreLocal, MAX_LOCALS};

verus! {

/// Every task queued on the schedulers in slots below `n`, as a multiset.
pub open spec fn queued_in_schedulers(rt: Runtime, n: int) -> Multiset<Task>
    decreases n,
{
    if n <= 0 {
        Multiset::empty()
    } else {
        queued_in_schedulers(rt, n - 1).add(rt.queue_of(n - 1).to_multiset())
    }
}

/// Every task waiting to run somewhere: in the shared injector or on any
/// claimed scheduler's queue.
pub open spec fn pending_tasks(rt: Runtime) -> Multiset<Task> {
    rt.injector().to_multiset().add(queued_in_schedulers(rt, rt.active_cores_spec()))
}

/// Scheduler queues below `n` that agree pairwise contribute the same
/// multiset.
proof fn lemma_queued_equal(pre: Runtime, post: Runtime, n: int)
    requires
        forall|i: int| 0 <= i < n ==> post.queue_of(i) == pre.queue_of(i),
    ensures
        queued_in_schedulers(post, n) == queued_in_schedulers(pre, n),
    decreases n,
{
    if n > 0 {
        lemma_queued_equal(pre, post, n - 1);
    }
}

/// When exactly one scheduler's queue gains `delta` and the others stay
/// put, the schedulers' combined multiset gains exactly `delta`.
proof fn lemma_queued_update(pre: Runtime, post: Runtime, n: int, core: int, delta: Multiset<Task>)
    requires
        0 <= core < n,
        post.queue_of(core).to_multiset() == pre.queue_of(core).to_multiset().add(delta),
        forall|i: int| 0 <= i < n && i != core ==> post.queue_of(i) == pre.queue_of(i),
    ensures
        queued_in_schedulers(post, n) =~= queued_in_schedulers(pre, n).add(delta),
    decreases n,
{
    if core == n - 1 {
        lemma_queued_equal(pre, post, n - 1);
    } else {
        lemma_queued_update(pre, post, n - 1, core, delta);
    }
}

/// Law: before any executor exists there is no core-local scheduler to
/// spawn on, so every spawn lands in the shared injector.
pub proof fn lemma_prestart_spawn_goes_to_injector(
    rt: Runtime,
    locals: crate::platform::local::CoreLocals<Option<usize>>,
)
    requires
        rt.active_cores_spec() == 0,
    ensures
        spawn_target(rt, locals) is None,
{
}

/// Law: one spawn adds exactly the new task to the tasks pending
/// somewhere — nothing is lost, nothing is duplicated — whether it lands
/// on the calling core's scheduler or in the injector. The before/after
/// constraints are the spawn contract's own clauses.
pub proof fn lemma_spawn_conserves(pre: Runtime, post: Runtime, target: Option<int>, task: Task)
    requires
        pre.wf(),
        post.active_cores_spec() == pre.active_cores_spec(),
        match target {
            Some(core) => {
                &&& 0 <= core < pre.active_cores_spec()
                &&& post.queue_of(core) == pre.queue_of(core).push(task)
                &&& post.injector() == pre.injector()
                &&& forall|i: int|
                    0 <= i < MAX_CORES && i != core ==> post.schedulers_spec()[i]
                        == pre.schedulers_spec()[i]
            },
            None => {
                &&& post.injector() == pre.injector().push(task)
                &&& post.schedulers_spec() == pre.schedulers_spec()
            },
        },
    ensures
        pending_tasks(post) =~= pending_tasks(pre).insert(task),
{
    broadcast use vstd::seq_lib::group_to_multiset_ensures;

    match target {
        Some(core) => {
            assert(post.queue_of(core).to_multiset() =~= pre.queue_of(core).to_multiset().add(
                Multiset::empty().insert(task),
            ));
            lemma_queued_update(
                pre,
                post,
                pre.active_cores_spec(),
                core,
                Multiset::empty().insert(task),
            );
        },
        None => {
            lemma_queued_equal(pre, post, pre.active_cores_spec());
        },
    }
}

/// Law: any sequence of spawns made before an executor exists lands whole
/// in the injector — each spawn's contract appends its task there — and
/// together they add exactly those tasks to what is pending: none lost,
/// none duplicated.
pub proof fn lemma_prestart_spawns_accumulate(pre: Runtime, post: Runtime, tasks: Seq<Task>)
    requires
        post.injector() == pre.injector() + tasks,
        post.schedulers_spec() == pre.schedulers_spec(),
        post.active_cores_spec() == pre.active_cores_spec(),
    ensures
        pending_tasks(post) =~= pending_tasks(pre).add(tasks.to_multiset()),
{
    vstd::seq_lib::lemma_multiset_commutative(pre.injector(), tasks);
    lemma_queued_equal(pre, post, pre.active_cores_spec());
}

/// Law: a steal from the injector moves its oldest tasks onto a claimed
/// scheduler's queue and keeps the rest, so every task spawned before an
/// executor started is still pending — now runnable — afterwards. The
/// before/after constraints are the injector-steal contract's own clauses.
pub proof fn lemma_injector_steal_conserves(pre: Runtime, post: Runtime, thief: int, moved: int)
    requires
        pre.wf(),
        0 <= thief < pre.active_cores_spec(),
        0 <= moved <= pre.injector().len(),
        post.active_cores_spec() == pre.active_cores_spec(),
        post.injector() == pre.injector().skip(moved),
        post.queue_of(thief) == pre.queue_of(thief) + pre.injector().take(moved),
        forall|i: int|
            0 <= i < MAX_CORES && i != thief ==> post.schedulers_spec()[i]
                == pre.schedulers_spec()[i],
    ensures
        pending_tasks(post) =~= pending_tasks(pre),
{
    broadcast use vstd::seq_lib::group_to_multiset_ensures;

    let taken = pre.injector().take(moved);
    let kept = pre.injector().skip(moved);
    assert(pre.injector() =~= taken + kept);
    vstd::seq_lib::lemma_multiset_commutative(taken, kept);
    vstd::seq_lib::lemma_multiset_commutative(pre.queue_of(thief), taken);
    lemma_queued_update(pre, post, pre.active_cores_spec(), thief, taken.to_multiset());
}

/// Law: one steal takes no more than half the victim's queue, rounded
/// down, and never more than the given cap; the victim keeps exactly its
/// newest tasks in order, never a negative or corrupted length; and no
/// task is lost or duplicated. With the state held by exclusive borrow, at
/// most one steal can run against a victim at a time, so these bounds
/// apply to every steal that succeeds. The before/after constraints are
/// the seize contract's own clauses.
pub proof fn lemma_steal_bounds(pre: Runtime, post: Runtime, victim: int, thief: int, max: int, moved: int)
    requires
        pre.wf(),
        0 <= victim < MAX_CORES,
        0 <= thief < pre.active_cores_spec(),
        victim != thief,
        max >= 0,
        post.active_cores_spec() == pre.active_cores_spec(),
        pre.schedulers_spec()[victim] is Some,
        moved == vstd::math::min(pre.queue_of(victim).len() as int / 2, max),
        post.queue_of(victim) == pre.queue_of(victim).skip(moved),
        post.queue_of(thief) == pre.queue_of(thief) + pre.queue_of(victim).take(moved),
        post.injector() == pre.injector(),
        forall|i: int|
            0 <= i < MAX_CORES && i != victim && i != thief ==> post.schedulers_spec()[i]
                == pre.schedulers_spec()[i],
    ensures
        moved <= max,
        2 * moved <= pre.queue_of(victim).len(),
        post.queue_of(victim).len() == pre.queue_of(victim).len() - moved,
        post.queue_of(victim).len() * 2 >= pre.queue_of(victim).len(),
        pending_tasks(post) =~= pending_tasks(pre),
{
    broadcast use vstd::seq_lib::group_to_multiset_ensures;

    let vq = pre.queue_of(victim);
    let taken = vq.take(moved);
    let kept = vq.skip(moved);
    assert(vq =~= taken + kept);
    vstd::seq_lib::lemma_multiset_commutative(taken, kept);
    vstd::seq_lib::lemma_multiset_commutative(pre.queue_of(thief), taken);
    // the victim loses `taken`, the thief gains it: walk the slots once
    // with the combined change
    assert(post.queue_of(victim).to_multiset().add(taken.to_multiset()) =~= vq.to_multiset());
    assert(victim < pre.active_cores_spec());
    lemma_queued_moved(pre, post, pre.active_cores_spec(), victim, thief, taken.to_multiset());
}

/// When one scheduler loses exactly `delta` and another gains exactly
/// `delta`, the combined multiset is unchanged.
proof fn lemma_queued_moved(
    pre: Runtime,
    post: Runtime,
    n: int,
    from: int,
    to: int,
    delta: Multiset<Task>,
)
    requires
        from != to,
        0 <= from,
        0 <= to,
        post.queue_of(from).to_multiset().add(delta) == pre.queue_of(from).to_multiset(),
        post.queue_of(to).to_multiset() == pre.queue_of(to).to_multiset().add(delta),
        forall|i: int|
            0 <= i < n && i != from && i != to ==> post.schedulers_spec()[i]
                == pre.schedulers_spec()[i],
    ensures
        from < n && to < n ==> queued_in_schedulers(post, n) =~= queued_in_schedulers(pre, n),
        from < n && to >= n ==> queued_in_schedulers(post, n).add(delta) =~= queued_in_schedulers(
            pre,
            n,
        ),
        from >= n && to < n ==> queued_in_schedulers(post, n) =~= queued_in_schedulers(
            pre,
            n,
        ).add(delta),
        from >= n && to >= n ==> queued_in_schedulers(post, n) =~= queued_in_schedulers(pre, n),
    decreases n,
{
    if n > 0 {
        lemma_queued_moved(pre, post, n - 1, from, to, delta);
    }
}

/// The identities of the tasks in `q`, as a multiset.
pub open spec fn ids_of(q: Seq<Task>) -> Multiset<u64> {
    q.map_values(|t: Task| t.id).to_multiset()
}

/// Identities of every task queued on the schedulers in slots below `n`.
pub open spec fn queued_ids(rt: Runtime, n: int) -> Multiset<u64>
    decreases n,
{
    if n <= 0 {
        Multiset::empty()
    } else {
        queued_ids(rt, n - 1).add(ids_of(rt.queue_of(n - 1)))
    }
}

/// The identity of every task waiting to run somewhere: in the shared
/// injector or on any claimed scheduler's queue.
pub open spec fn pending_ids(rt: Runtime) -> Multiset<u64> {
    ids_of(rt.injector()).add(queued_ids(rt, rt.active_cores_spec()))
}

/// The identity of every task parked on the timer's waiter queue.
pub open spec fn parked_ids(ws: Seq<Waiter>) -> Multiset<u64> {
    ids_of(ws.map_values(|w: Waiter| w.task))
}

/// Every task in the system is accounted for across one executor pass:
/// what is pending or parked afterwards, together with the identities the
/// pass completed, is exactly what was pending or parked before — no task
/// lost, none duplicated.
pub open spec fn pass_conserves_ids(
    pre_rt: Runtime,
    pre_waiters: Seq<Waiter>,
    post_rt: Runtime,
    post_waiters: Seq<Waiter>,
    completed: Seq<u64>,
) -> bool {
    pending_ids(post_rt).add(completed.to_multiset()).add(parked_ids(post_waiters))
        == pending_ids(pre_rt).add(parked_ids(pre_waiters))
}

/// Law: conservation composes across passes. When one executor pass turns
/// the system from `a` into `b` completing `c1`, and a later pass — on the
/// same core or another — turns `b` into `c` completing `c2`, the two
/// together complete exactly `c1 + c2` and account for every identity that
/// was pending or parked at the start: however many cores take turns, no
/// task is lost and none completes twice as long as each pass conserves.
pub proof fn lemma_passes_compose(
    rt_a: Runtime,
    w_a: Seq<Waiter>,
    rt_b: Runtime,
    w_b: Seq<Waiter>,
    c1: Seq<u64>,
    rt_c: Runtime,
    w_c: Seq<Waiter>,
    c2: Seq<u64>,
)
    requires
        pass_conserves_ids(rt_a, w_a, rt_b, w_b, c1),
        pass_conserves_ids(rt_b, w_b, rt_c, w_c, c2),
    ensures
        pass_conserves_ids(rt_a, w_a, rt_c, w_c, c1 + c2),
{
    vstd::seq_lib::lemma_multiset_commutative(c1, c2);
    let lhs = pending_ids(rt_c).add((c1 + c2).to_multiset()).add(parked_ids(w_c));
    let rhs = pending_ids(rt_a).add(parked_ids(w_a));
    assert forall|e: u64| lhs.count(e) == rhs.count(e) by {
        assert(pending_ids(rt_c).add(c2.to_multiset()).add(parked_ids(w_c)).count(e)
            == pending_ids(rt_b).add(parked_ids(w_b)).count(e));
        assert(pending_ids(rt_b).add(c1.to_multiset()).add(parked_ids(w_b)).count(e)
            == pending_ids(rt_a).add(parked_ids(w_a)).count(e));
    }
    assert(lhs =~= rhs);
}

/// Identities distribute over concatenation.
pub proof fn lemma_ids_concat(a: Seq<Task>, b: Seq<Task>)
    ensures
        ids_of(a + b) == ids_of(a).add(ids_of(b)),
{
    assert((a + b).map_values(|t: Task| t.id) =~= a.map_values(|t: Task| t.id) + b.map_values(
        |t: Task| t.id,
    ));
    vstd::seq_lib::lemma_multiset_commutative(
        a.map_values(|t: Task| t.id),
        b.map_values(|t: Task| t.id),
    );
}

/// Law: one scheduler pass conserves task identities — every task queued
/// before the pass either survives it (with one budget unit consumed) or
/// contributes its identity to the pass's completions, and no identity
/// appears from nowhere.
pub proof fn lemma_tick_conserves_ids(q: Seq<Task>)
    ensures
        ids_of(tick_survivors(q)).add(tick_completions(q).to_multiset()) =~= ids_of(q),
    decreases q.len(),
{
    broadcast use vstd::seq_lib::group_to_multiset_ensures;

    if q.len() == 0 {
        assert(q.map_values(|t: Task| t.id) =~= Seq::<u64>::empty());
        assert(tick_survivors(q).map_values(|t: Task| t.id) =~= Seq::<u64>::empty());
    } else {
        let rest = q.drop_last();
        let t = q.last();
        lemma_tick_conserves_ids(rest);
        assert(q.map_values(|t2: Task| t2.id) =~= rest.map_values(|t2: Task| t2.id).push(t.id));
        if t.steps > 0 {
            assert(tick_survivors(q).map_values(|t2: Task| t2.id) =~= tick_survivors(
                rest,
            ).map_values(|t2: Task| t2.id).push(t.id));
        }
    }
}

/// Scheduler queues below `n` that agree pairwise contribute the same
/// identities.
proof fn lemma_ids_queued_equal(pre: Runtime, post: Runtime, n: int)
    requires
        forall|i: int| 0 <= i < n ==> post.queue_of(i) == pre.queue_of(i),
    ensures
        queued_ids(post, n) == queued_ids(pre, n),
    decreases n,
{
    if n > 0 {
        lemma_ids_queued_equal(pre, post, n - 1);
    }
}

/// When exactly one scheduler's queue gains the identities `delta` and the
/// others stay put, the combined identities gain exactly `delta`.
proof fn lemma_ids_queued_update(
    pre: Runtime,
    post: Runtime,
    n: int,
    core: int,
    delta: Multiset<u64>,
)
    requires
        0 <= core < n,
        ids_of(post.queue_of(core)) == ids_of(pre.queue_of(core)).add(delta),
        forall|i: int| 0 <= i < n && i != core ==> post.queue_of(i) == pre.queue_of(i),
    ensures
        queued_ids(post, n) =~= queued_ids(pre, n).add(delta),
    decreases n,
{
    if core == n - 1 {
        lemma_ids_queued_equal(pre, post, n - 1);
    } else {
        lemma_ids_queued_update(pre, post, n - 1, core, delta);
    }
}

/// When exactly one scheduler's queue sheds the identities `delta` and the
/// others stay put, the combined identities shed exactly `delta`.
proof fn lemma_ids_queued_shrink(
    pre: Runtime,
    post: Runtime,
    n: int,
    core: int,
    delta: Multiset<u64>,
)
    requires
        0 <= core < n,
        ids_of(post.queue_of(core)).add(delta) == ids_of(pre.queue_of(core)),
        forall|i: int| 0 <= i < n && i != core ==> post.queue_of(i) == pre.queue_of(i),
    ensures
        queued_ids(post, n).add(delta) =~= queued_ids(pre, n),
    decreases n,
{
    if core == n - 1 {
        lemma_ids_queued_equal(pre, post, n - 1);
    } else {
        lemma_ids_queued_shrink(pre, post, n - 1, core, delta);
    }
}

/// When one scheduler loses exactly the identities `delta` and another
/// gains exactly `delta`, the combined identities are unchanged.
proof fn lemma_ids_queued_moved(
    pre: Runtime,
    post: Runtime,
    n: int,
    from: int,
    to: int,
    delta: Multiset<u64>,
)
    requires
        from != to,
        0 <= from,
        0 <= to,
        ids_of(post.queue_of(from)).add(delta) == ids_of(pre.queue_of(from)),
        ids_of(post.queue_of(to)) == ids_of(pre.queue_of(to)).add(delta),
        forall|i: int| 0 <= i < n && i != from && i != to ==> post.queue_of(i) == pre.queue_of(i),
    ensures
        from < n && to < n ==> queued_ids(post, n) =~= queued_ids(pre, n),
        from < n && to >= n ==> queued_ids(post, n).add(delta) =~= queued_ids(pre, n),
        from >= n && to < n ==> queued_ids(post, n) =~= queued_ids(pre, n).add(delta),
        from >= n && to >= n ==> queued_ids(post, n) =~= queued_ids(pre, n),
    decreases n,
{
    if n > 0 {
        lemma_ids_queued_moved(pre, post, n - 1, from, to, delta);
    }
}

/// Law: the scheduler pass of one core — its queue replaced by the pass's
/// survivors, everything else untouched — removes from the pending
/// identities exactly the identities it completed.
pub proof fn lemma_tick_core_ids(pre: Runtime, post: Runtime, core: int)
    requires
        pre.wf(),
        0 <= core < pre.active_cores_spec(),
        post.active_cores_spec() == pre.active_cores_spec(),
        post.injector() == pre.injector(),
        post.queue_of(core) == tick_survivors(pre.queue_of(core)),
        forall|i: int|
            0 <= i < pre.active_cores_spec() && i != core ==> post.queue_of(i) == pre.queue_of(i),
    ensures
        pending_ids(post).add(tick_completions(pre.queue_of(core)).to_multiset()) =~= pending_ids(
            pre,
        ),
{
    lemma_tick_conserves_ids(pre.queue_of(core));
    lemma_ids_queued_shrink(
        pre,
        post,
        pre.active_cores_spec(),
        core,
        tick_completions(pre.queue_of(core)).to_multiset(),
    );
}

/// Law: handing a batch to one core's queue adds exactly the batch's
/// identities to what is pending.
pub proof fn lemma_ids_gained(pre: Runtime, post: Runtime, core: int, batch: Seq<Task>)
    requires
        pre.wf(),
        0 <= core < pre.active_cores_spec(),
        post.active_cores_spec() == pre.active_cores_spec(),
        post.injector() == pre.injector(),
        post.queue_of(core) == pre.queue_of(core) + batch,
        forall|i: int|
            0 <= i < pre.active_cores_spec() && i != core ==> post.queue_of(i) == pre.queue_of(i),
    ensures
        pending_ids(post) =~= pending_ids(pre).add(ids_of(batch)),
{
    lemma_ids_concat(pre.queue_of(core), batch);
    lemma_ids_queued_update(pre, post, pre.active_cores_spec(), core, ids_of(batch));
}

/// Law: draining the injector's oldest tasks onto a claimed queue keeps
/// every pending identity pending — the drained tasks are the gained ones.
pub proof fn lemma_ids_injector_move(pre: Runtime, post: Runtime, thief: int, moved: int)
    requires
        pre.wf(),
        0 <= thief < pre.active_cores_spec(),
        0 <= moved <= pre.injector().len(),
        post.active_cores_spec() == pre.active_cores_spec(),
        post.injector() == pre.injector().skip(moved),
        post.queue_of(thief) == pre.queue_of(thief) + pre.injector().take(moved),
        forall|i: int|
            0 <= i < pre.active_cores_spec() && i != thief ==> post.queue_of(i) == pre.queue_of(i),
    ensures
        pending_ids(post) =~= pending_ids(pre),
{
    let taken = pre.injector().take(moved);
    let kept = pre.injector().skip(moved);
    assert(pre.injector() =~= taken + kept);
    lemma_ids_concat(taken, kept);
    lemma_ids_concat(pre.queue_of(thief), taken);
    lemma_ids_queued_update(pre, post, pre.active_cores_spec(), thief, ids_of(taken));
}

/// Law: a steal moves identities from the victim's queue to the thief's
/// and touches nothing else, so every pending identity stays pending.
pub proof fn lemma_ids_victim_move(pre: Runtime, post: Runtime, victim: int, thief: int, moved: int)
    requires
        pre.wf(),
        0 <= victim < pre.active_cores_spec(),
        0 <= thief < pre.active_cores_spec(),
        victim != thief,
        0 <= moved <= pre.queue_of(victim).len(),
        post.active_cores_spec() == pre.active_cores_spec(),
        post.injector() == pre.injector(),
        post.queue_of(victim) == pre.queue_of(victim).skip(moved),
        post.queue_of(thief) == pre.queue_of(thief) + pre.queue_of(victim).take(moved),
        forall|i: int|
            0 <= i < pre.active_cores_spec() && i != victim && i != thief ==> post.queue_of(i)
                == pre.queue_of(i),
    ensures
        pending_ids(post) =~= pending_ids(pre),
{
    let vq = pre.queue_of(victim);
    let taken = vq.take(moved);
    let kept = vq.skip(moved);
    assert(vq =~= taken + kept);
    lemma_ids_concat(taken, kept);
    lemma_ids_concat(pre.queue_of(thief), taken);
    assert(ids_of(post.queue_of(victim)).add(ids_of(taken)) =~= ids_of(vq));
    lemma_ids_queued_moved(pre, post, pre.active_cores_spec(), victim, thief, ids_of(taken));
}

/// A waiter queue's parked identities split at any point into the prefix's
/// and the suffix's.
pub proof fn lemma_parked_split(ws: Seq<Waiter>, due: int)
    requires
        0 <= due <= ws.len(),
    ensures
        parked_ids(ws) == parked_ids(ws.take(due)).add(parked_ids(ws.skip(due))),
{
    assert(ws =~= ws.take(due) + ws.skip(due));
    assert(ws.map_values(|w: Waiter| w.task) =~= ws.take(due).map_values(|w: Waiter| w.task)
        + ws.skip(due).map_values(|w: Waiter| w.task));
    lemma_ids_concat(
        ws.take(due).map_values(|w: Waiter| w.task),
        ws.skip(due).map_values(|w: Waiter| w.task),
    );
}

/// Law: lazily initializing a core-local slot is idempotent. The first
/// access fixes the slot's value; the table a later access leaves behind
/// is the same table, and it observes the same value — never a second
/// construction. The update shape is the access contract's own clause.
pub proof fn lemma_core_local_lazy_init_idempotent<T: Copy>(
    table: Seq<Option<T>>,
    key: CoreLocal<T>,
)
    requires
        key.wf(),
        table.len() == MAX_LOCALS,
    ensures
        ({
            let once = table.update(key.slot_spec(), Some(resolved_value(table, &key)));
            &&& resolved_value(once, &key) == resolved_value(table, &key)
            &&& once.update(key.slot_spec(), Some(resolved_value(once, &key))) =~= once
        }),
{
}

} // verus!
