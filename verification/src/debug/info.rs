//! The unwind table: one entry per function of the loaded image, covering
//! an address range, with the unwind opcodes to step out of it. Reading
//! the table out of the image file is the loader's business; this module
//! holds the table and answers which entry covers an address.

use vstd::prelude::*;

verus! {

/// One function's unwind information: its address range, prolog size,
/// raw unwind opcodes, and name when the symbol table had one.
pub struct UnwindEntry {
    start: usize,
    end: usize,
    prolog: u8,
    codes: Vec<u8>,
    name: Option<String>,
}

impl UnwindEntry {
    pub closed spec fn start_spec(&self) -> int {
        self.start as int
    }

    pub closed spec fn end_spec(&self) -> int {
        self.end as int
    }

    pub closed spec fn prolog_spec(&self) -> u8 {
        self.prolog
    }

    pub closed spec fn codes_spec(&self) -> Seq<u8> {
        self.codes@
    }

    pub closed spec fn name_spec(&self) -> Option<Seq<char>> {
        match self.name {
            Some(n) => Some(n@),
            None => None,
        }
    }

    /// Whether `addr` falls inside this entry's range.
    pub open spec fn covers(&self, addr: int) -> bool {
        self.start_spec() <= addr < self.end_spec()
    }

    pub fn new(start: usize, end: usize, prolog: u8, codes: Vec<u8>, name: Option<String>) -> (r:
        UnwindEntry)
        ensures
            r.start_spec() == start,
            r.end_spec() == end,
            r.prolog_spec() == prolog,
            r.codes_spec() == codes@,
    {
        UnwindEntry { start, end, prolog, codes, name }
    }

    pub fn start(&self) -> (r: usize)
        ensures
            r == self.start_spec(),
    {
        self.start
    }

    pub fn end(&self) -> (r: usize)
        ensures
            r == self.end_spec(),
    {
        self.end
    }

    pub fn prolog(&self) -> (r: u8)
        ensures
            r == self.prolog_spec(),
    {
        self.prolog
    }

    pub fn name(&self) -> (r: &Option<String>)
        ensures
            r is Some <==> self.name_spec() is Some,
    {
        &self.name
    }

    pub fn codes(&self) -> (r: &Vec<u8>)
        ensures
            r@ == self.codes_spec(),
    {
        &self.codes
    }

    /// The same entry shifted to where the image actually sits in memory.
    pub fn relocate(&self, base: usize) -> (r: UnwindEntry)
        requires
            self.start_spec() + base <= usize::MAX,
            self.end_spec() + base <= usize::MAX,
        ensures
            r.start_spec() == self.start_spec() + base,
            r.end_spec() == self.end_spec() + base,
            r.prolog_spec() == self.prolog_spec(),
            r.codes_spec() == self.codes_spec(),
            r.name_spec() == self.name_spec(),
    {
        let mut codes: Vec<u8> = Vec::new();
        let mut i: usize = 0;
        let n = self.codes.len();
        while i < n
            invariant
                n == self.codes_spec().len(),
                i <= n,
                codes@ == self.codes_spec().take(i as int),
            decreases n - i,
        {
            codes.push(self.codes[i]);
            proof {
                assert(codes@ =~= self.codes_spec().take(i + 1));
            }
            i = i + 1;
        }
        proof {
            assert(self.codes_spec().take(n as int) =~= self.codes_spec());
        }
        let name = match &self.name {
            Some(n_ref) => Some(n_ref.clone()),
            None => None,
        };
        UnwindEntry {
            start: self.start + base,
            end: self.end + base,
            prolog: self.prolog,
            codes,
            name,
        }
    }
}

/// The loaded image's unwind entries.
pub struct UnwindTable {
    entries: Vec<UnwindEntry>,
}

impl UnwindTable {
    pub closed spec fn entries_spec(&self) -> Seq<UnwindEntry> {
        self.entries@
    }

    pub fn new(entries: Vec<UnwindEntry>) -> (r: UnwindTable)
        ensures
            r.entries_spec() == entries@,
    {
        UnwindTable { entries }
    }

    pub fn len(&self) -> (r: usize)
        ensures
            r == self.entries_spec().len(),
    {
        self.entries.len()
    }
}

/// Whether a loaded, non-empty unwind table is present.
pub fn has_unwind_table(table: &Option<UnwindTable>) -> (r: bool)
    ensures
        r == ((*table) matches Some(t) && t.entries_spec().len() != 0),
{
    match table {
        Some(t) => t.len() != 0,
        None => false,
    }
}

/// The entry covering `addr`, if the table has one.
pub fn unwind_entry_for(table: &UnwindTable, addr: usize) -> (r: Option<&UnwindEntry>)
    ensures
        match r {
            Some(e) => e.covers(addr as int) && exists|i: int|
                0 <= i < table.entries_spec().len() && table.entries_spec()[i] == *e,
            None => forall|i: int|
                0 <= i < table.entries_spec().len() ==> !table.entries_spec()[i].covers(
                    addr as int,
                ),
        },
{
    let n = table.entries.len();
    let mut i: usize = 0;
    while i < n
        invariant
            n == table.entries_spec().len(),
            i <= n,
            forall|j: int| 0 <= j < i ==> !table.entries_spec()[j].covers(addr as int),
        decreases n - i,
    {
        let entry = &table.entries[i];
        if entry.start() <= addr && addr < entry.end() {
            return Some(entry);
        }
        i = i + 1;
    }
    None
}

} // verus!
