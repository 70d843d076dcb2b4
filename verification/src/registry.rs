//! The ledger of large memory regions that the hosted runtime has requested.

use vstd::prelude::*;

verus! {

/// The bit of the allocation-type flags that marks a large-object request.
pub const LARGE_OBJECT_FLAG: u32 = 8192;

/// A request is recorded only if its size exceeds this many bytes.
pub const RECORD_THRESHOLD: usize = 65536;

/// The position in the ledger of the record that is scrubbed after execution.
pub const SCRUB_POSITION: usize = 2;

/// A tracked region: where it starts and how many bytes were requested.
#[derive(Clone, Copy, Debug, PartialEq, Eq, Structural)]
pub struct AllocationRecord {
    pub base_address: u64,
    pub size: usize,
}

/// Whether a request with these flags and this size is recorded: the flags
/// carry the large-object bit and the size exceeds the threshold.
pub open spec fn spec_qualifies(flags: u32, size: usize) -> bool {
    flags & LARGE_OBJECT_FLAG != 0 && size > RECORD_THRESHOLD
}

/// Whether a request with these flags and this size is recorded.
pub fn qualifies(flags: u32, size: usize) -> (q: bool)
    ensures
        q == spec_qualifies(flags, size),
{
    flags & LARGE_OBJECT_FLAG != 0 && size > RECORD_THRESHOLD
}

/// An append-only ledger of allocation records, oldest first.
pub struct AllocationRegistry {
    records: Vec<AllocationRecord>,
}

impl View for AllocationRegistry {
    type V = Seq<AllocationRecord>;

    closed spec fn view(&self) -> Seq<AllocationRecord> {
        self.records@
    }
}

impl AllocationRegistry {
    /// An empty ledger.
    pub fn new() -> (registry: Self)
        ensures
            registry@ == Seq::<AllocationRecord>::empty(),
    {
        AllocationRegistry { records: Vec::new() }
    }

    /// Notes an allocation that was performed. The record is appended if and
    /// only if the request qualifies; nothing that was recorded before changes.
    pub fn record_allocation(&mut self, base_address: u64, size: usize, flags: u32) -> (recorded:
        bool)
        ensures
            recorded == spec_qualifies(flags, size),
            old(self)@.is_prefix_of(final(self)@),
            recorded ==> final(self)@ == old(self)@.push(AllocationRecord { base_address, size }),
            !recorded ==> final(self)@ == old(self)@,
    {
        if qualifies(flags, size) {
            self.records.push(AllocationRecord { base_address, size });
            true
        } else {
            false
        }
    }

    /// The number of records.
    pub fn len(&self) -> (n: usize)
        ensures
            n == self@.len(),
    {
        self.records.len()
    }

    /// The record at `index`, if there is one.
    pub fn get(&self, index: usize) -> (r: Option<AllocationRecord>)
        ensures
            index < self@.len() ==> r == Some(self@[index as int]),
            index >= self@.len() ==> r is None,
    {
        if index < self.records.len() {
            Some(self.records[index])
        } else {
            None
        }
    }

    /// The record that is scrubbed after execution: the one at the fixed
    /// position `SCRUB_POSITION`, whatever it holds.
    pub fn scrub_target(&self) -> (r: Option<AllocationRecord>)
        ensures
            SCRUB_POSITION < self@.len() ==> r == Some(self@[SCRUB_POSITION as int]),
            SCRUB_POSITION >= self@.len() ==> r is None,
    {
        self.get(SCRUB_POSITION)
    }
}

} // verus!
