//! Core-local storage: per-core private slot tables.
//!
//! Each physical core owns one [`CoreLocals`] block, a fixed-size table of
//! lazily initialized slots. A [`CoreLocal`] is the declaration of one named
//! slot: a key valid for every core's table, assigned a table index exactly
//! once, during an explicit registration phase handled by [`SlotAllocator`].
//! Slot indices are globally monotonic across all declarations and never
//! exceed the table capacity.
//!
//! A bare-metal design reaches the current core's block through a CPU
//! segment-base register; portably, the blocks live in a
//! [`CoreLocalRegistry`] indexed by the core number the runtime assigns at
//! startup, and a magic key stamped into every block guards against reading
//! a table that was never initialized.

use vstd::prelude::*;

verus! {

/// Capacity of each core's slot table: at most this many distinct
/// `CoreLocal` declarations may ever be registered.
pub const MAX_LOCALS: usize = 64;

/// Magic value stamped into every initialized block; it must match before
/// any slot access.
pub const LOCALS_KEY: u64 = 0x424947424F4F4253;

/// Hands out slot indices for `CoreLocal` declarations, one at a time,
/// monotonically. One allocator serves the whole process: indices are
/// shared by every core's table.
pub struct SlotAllocator {
    next_slot: usize,
}

impl SlotAllocator {
    /// How many slots have been handed out so far.
    pub closed spec fn allocated(&self) -> int {
        self.next_slot as int
    }

    pub fn new() -> (r: Self)
        ensures
            r.allocated() == 0,
    {
        SlotAllocator { next_slot: 0 }
    }

    /// Claims the next slot index. Registering more than [`MAX_LOCALS`]
    /// distinct declarations is a fatal condition, ruled out here before
    /// the table is ever touched.
    pub fn next_slot(&mut self) -> (slot: usize)
        requires
            old(self).allocated() < MAX_LOCALS,
        ensures
            slot == old(self).allocated(),
            final(self).allocated() == old(self).allocated() + 1,
            slot < MAX_LOCALS,
    {
        let slot = self.next_slot;
        self.next_slot = self.next_slot + 1;
        slot
    }
}

/// The declaration of one named core-local slot, independent of any
/// specific core: a key into every core's table, plus the value a slot
/// starts from the first time the key is touched on a core.
#[derive(Clone, Copy)]
pub struct CoreLocal<T> {
    slot: usize,
    init: T,
}

impl<T: Copy> CoreLocal<T> {
    /// The table index this key was registered under.
    pub closed spec fn slot_spec(&self) -> int {
        self.slot as int
    }

    /// The value a slot holds right after its lazy initialization.
    pub closed spec fn init_spec(&self) -> T {
        self.init
    }

    /// A registered key always points inside the table.
    pub open spec fn wf(&self) -> bool {
        0 <= self.slot_spec() < MAX_LOCALS
    }

    /// Registers a new slot, claiming the next free index.
    pub fn new(alloc: &mut SlotAllocator, init: T) -> (r: Self)
        requires
            old(alloc).allocated() < MAX_LOCALS,
        ensures
            r.wf(),
            r.slot_spec() == old(alloc).allocated(),
            r.init_spec() == init,
            final(alloc).allocated() == old(alloc).allocated() + 1,
    {
        let slot = alloc.next_slot();
        CoreLocal { slot, init }
    }

    /// Runs `f` on the value stored under this key in the given core's
    /// block, initializing the slot first if this is the first touch.
    /// Repeated calls on the same block always observe the same value.
    pub fn with<U, F: FnOnce(&T) -> U>(&self, locals: &mut CoreLocals<T>, f: F) -> (r: U)
        requires
            self.wf(),
            old(locals).wf(),
            forall|t: T| call_requires(f, (&t,)),
        ensures
            final(locals).wf(),
            final(locals)@ == old(locals)@.update(
                self.slot_spec(),
                Some(resolved_value(old(locals)@, self)),
            ),
            call_ensures(f, (&resolved_value(old(locals)@, self),), r),
    {
        locals.with(self, f)
    }
}

/// What a key's slot holds once resolved: the value already in the table,
/// or the key's initial value on first touch.
pub open spec fn resolved_value<T>(table: Seq<Option<T>>, key: &CoreLocal<T>) -> T
    where T: Copy
{
    match table[key.slot_spec()] {
        Some(v) => v,
        None => key.init_spec(),
    }
}

/// One core's private slot table. Created once per core; slots are lazily
/// populated on first typed access and live for the lifetime of the core.
pub struct CoreLocals<T> {
    key: u64,
    locals: Vec<Option<T>>,
}

impl<T: Copy> CoreLocals<T> {
    /// The table contents, one entry per slot.
    pub closed spec fn view(&self) -> Seq<Option<T>> {
        self.locals@
    }

    /// A valid block carries the magic key and a full-capacity table.
    pub open spec fn wf(&self) -> bool {
        self.key_spec() == LOCALS_KEY && self@.len() == MAX_LOCALS
    }

    /// The magic key stored in the block.
    pub closed spec fn key_spec(&self) -> u64 {
        self.key
    }

    /// A fresh block: every slot empty, magic key in place.
    pub fn new() -> (r: Self)
        ensures
            r.wf(),
            forall|i: int| 0 <= i < MAX_LOCALS ==> r@[i] is None,
    {
        let mut locals: Vec<Option<T>> = Vec::new();
        let mut i: usize = 0;
        while i < MAX_LOCALS
            invariant
                i == locals@.len(),
                i <= MAX_LOCALS,
                forall|j: int| 0 <= j < i ==> locals@[j] is None,
            decreases MAX_LOCALS - i,
        {
            locals.push(None);
            i = i + 1;
        }
        CoreLocals { key: LOCALS_KEY, locals }
    }

    /// Runs `f` on the value under `key`, initializing the slot on first
    /// touch. Whichever access initializes the slot fixes its value: a
    /// later access reads that value back rather than constructing a
    /// second one, so the slot is written at most once.
    pub fn with<U, F: FnOnce(&T) -> U>(&mut self, key: &CoreLocal<T>, f: F) -> (r: U)
        requires
            old(self).wf(),
            key.wf(),
            forall|t: T| call_requires(f, (&t,)),
        ensures
            final(self).wf(),
            final(self)@ == old(self)@.update(
                key.slot_spec(),
                Some(resolved_value(old(self)@, key)),
            ),
            call_ensures(f, (&resolved_value(old(self)@, key),), r),
    {
        let slot_idx = key.slot;
        if self.locals[slot_idx].is_none() {
            self.locals.set(slot_idx, Some(key.init));
        }
        let entry = &self.locals[slot_idx];
        match entry {
            Some(value) => {
                let r = f(value);
                proof {
                    assert(self@ =~= old(self)@.update(
                        key.slot_spec(),
                        Some(resolved_value(old(self)@, key)),
                    ));
                }
                r
            },
            None => {
                proof {
                    assert(false);
                }
                unreached()
            },
        }
    }

    /// Reads the value under `key`, initializing the slot first if this is
    /// the first touch. Models reading a slot's cell.
    pub fn get(&mut self, key: &CoreLocal<T>) -> (r: T)
        requires
            old(self).wf(),
            key.wf(),
        ensures
            final(self).wf(),
            final(self)@ == old(self)@.update(
                key.slot_spec(),
                Some(resolved_value(old(self)@, key)),
            ),
            r == resolved_value(old(self)@, key),
    {
        let slot_idx = key.slot;
        if self.locals[slot_idx].is_none() {
            self.locals.set(slot_idx, Some(key.init));
        }
        proof {
            assert(self@ =~= old(self)@.update(
                key.slot_spec(),
                Some(resolved_value(old(self)@, key)),
            ));
        }
        match &self.locals[slot_idx] {
            Some(value) => *value,
            None => unreached(),
        }
    }

    /// Overwrites the value under `key`, initializing the slot if it was
    /// never touched. Models interior mutability of a slot's cell.
    pub fn set(&mut self, key: &CoreLocal<T>, value: T)
        requires
            old(self).wf(),
            key.wf(),
        ensures
            final(self).wf(),
            final(self)@ == old(self)@.update(key.slot_spec(), Some(value)),
    {
        self.locals.set(key.slot, Some(value));
    }

    /// Whether `core` already initialized its block.
    pub fn is_initialized(registry: &CoreLocalRegistry<T>, core: usize) -> (r: bool)
        requires
            registry.wf(),
            core < crate::platform::smp::MAX_CORES,
        ensures
            r == registry.initialized(core as int),
    {
        registry.blocks[core].is_some()
    }

    /// Initializes `core`'s block. Calling it twice on the same core is a
    /// no-op, reported by the `false` result so the caller can warn.
    pub fn init(registry: &mut CoreLocalRegistry<T>, core: usize) -> (fresh: bool)
        requires
            old(registry).wf(),
            core < crate::platform::smp::MAX_CORES,
        ensures
            final(registry).wf(),
            final(registry).initialized(core as int),
            fresh == !old(registry).initialized(core as int),
            fresh ==> final(registry)@ == old(registry)@.update(
                core as int,
                Some(final(registry)@[core as int]->Some_0),
            ) && (forall|i: int|
                0 <= i < MAX_LOCALS ==> final(registry)@[core as int]->Some_0@[i] is None),
            !fresh ==> final(registry)@ == old(registry)@,
    {
        if registry.blocks[core].is_some() {
            return false;
        }
        let block = CoreLocals::new();
        registry.blocks.set(core, Some(block));
        proof {
            assert(registry@ =~= old(registry)@.update(
                core as int,
                Some(registry@[core as int]->Some_0),
            ));
        }
        true
    }

    /// The block for `core`, if that core has been initialized.
    pub fn try_current(registry: &CoreLocalRegistry<T>, core: usize) -> (r: Option<
        &CoreLocals<T>,
    >)
        requires
            registry.wf(),
            core < crate::platform::smp::MAX_CORES,
        ensures
            match r {
                Some(block) => registry.initialized(core as int) && *block == registry@[
                    core as int
                ]->Some_0,
                None => !registry.initialized(core as int),
            },
    {
        registry.blocks[core].as_ref()
    }

    /// The block for `core`. Calling this before [`Self::init`] on that
    /// core is a programming error, ruled out by the precondition.
    pub fn current(registry: &CoreLocalRegistry<T>, core: usize) -> (r: &CoreLocals<T>)
        requires
            registry.wf(),
            core < crate::platform::smp::MAX_CORES,
            registry.initialized(core as int),
        ensures
            *r == registry@[core as int]->Some_0,
    {
        match registry.blocks[core].as_ref() {
            Some(block) => block,
            None => unreached(),
        }
    }
}

/// All cores' blocks, indexed by the core number the runtime assigns at
/// startup. Stands in for the per-core segment-base register of the
/// hardware design.
pub struct CoreLocalRegistry<T> {
    blocks: Vec<Option<CoreLocals<T>>>,
}

impl<T: Copy> CoreLocalRegistry<T> {
    /// Which cores have initialized their block, and the block contents.
    pub closed spec fn view(&self) -> Seq<Option<CoreLocals<T>>> {
        self.blocks@
    }

    pub open spec fn wf(&self) -> bool {
        &&& self@.len() == crate::platform::smp::MAX_CORES
        &&& forall|i: int|
            0 <= i < self@.len() && self@[i] is Some ==> self@[i]->Some_0.wf()
    }

    /// Whether `core`'s block has been initialized.
    pub open spec fn initialized(&self, core: int) -> bool {
        0 <= core < self@.len() && self@[core] is Some
    }

    /// A registry with no core initialized yet.
    pub fn new() -> (r: Self)
        ensures
            r.wf(),
            forall|i: int| 0 <= i < r@.len() ==> !r.initialized(i),
    {
        let mut blocks: Vec<Option<CoreLocals<T>>> = Vec::new();
        let mut i: usize = 0;
        while i < crate::platform::smp::MAX_CORES
            invariant
                i == blocks@.len(),
                i <= crate::platform::smp::MAX_CORES,
                forall|j: int| 0 <= j < i ==> blocks@[j] is None,
            decreases crate::platform::smp::MAX_CORES - i,
        {
            blocks.push(None);
            i = i + 1;
        }
        CoreLocalRegistry { blocks }
    }

    /// Overwrites the value under `key` in `core`'s block.
    pub fn set_on(&mut self, core: usize, key: &CoreLocal<T>, value: T)
        requires
            old(self).wf(),
            key.wf(),
            core < crate::platform::smp::MAX_CORES,
            old(self).initialized(core as int),
        ensures
            final(self).wf(),
            final(self)@[core as int]->Some_0@ == old(self)@[core as int]->Some_0@.update(
                key.slot_spec(),
                Some(value),
            ),
            forall|i: int|
                0 <= i < old(self)@.len() && i != core ==> final(self)@[i] == old(self)@[i],
            final(self).initialized(core as int),
    {
        let block = self.blocks.remove(core);
        match block {
            Some(mut b) => {
                b.set(key, value);
                self.blocks.insert(core, Some(b));
            },
            None => {
                proof {
                    assert(false);
                }
            },
        }
    }
}

} // verus!
