//! Enumeration of the regions of a tracked allocation and the plan for
//! overwriting them.

use vstd::prelude::*;
use crate::registry::AllocationRecord;
use crate::status::HostError;

verus! {

/// The commit state of a region that is reserved but not committed.
pub const STATE_RESERVED: u32 = 8192;

/// The number of bytes of the scrub key.
pub const KEY_LENGTH: u32 = 16;

/// Every byte of the scrub key has this value.
pub const KEY_BYTE: u8 = 0x66;

/// The library that holds the transform.
pub const TRANSFORM_LIBRARY: &'static str = "Advapi32";

/// The symbol under which the transform is looked up.
pub const TRANSFORM_SYMBOL: &'static str = "SystemFunction032";

/// A region of the virtual address space, as a query describes it.
#[derive(Clone, Copy, Debug, PartialEq, Eq, Structural)]
pub struct MemoryRegion {
    pub base: u64,
    pub size: usize,
    pub state: u32,
    pub protect: u32,
}

/// A counted buffer, as the transform takes its data and its key.
#[derive(Clone, Copy, Debug, PartialEq, Eq, Structural)]
pub struct UString {
    pub length: u32,
    pub maximum_length: u32,
    pub buffer: u64,
}

/// What the enumeration does next.
#[derive(Clone, Copy, Debug, PartialEq, Eq, Structural)]
pub enum WalkStep {
    /// Query the region at this address.
    Query(u64),
    /// The cursor has reached the end of the allocation.
    Done,
    /// The cursor has left the address space before the end of the allocation.
    OutOfRange,
}

/// The sum of the sizes of `regions`.
pub open spec fn spec_total(regions: Seq<MemoryRegion>) -> int
    decreases regions.len(),
{
    if regions.len() == 0 {
        0
    } else {
        spec_total(regions.drop_last()) + regions.last().size
    }
}

/// Whether an enumeration of `record` visits exactly `regions`: before the
/// last of them was queried the cursor had not reached the end.
pub open spec fn spec_walked(record: AllocationRecord, regions: Seq<MemoryRegion>) -> bool {
    regions.len() > 0 ==> spec_total(regions.drop_last()) < record.size
}

/// Whether each region starts where the cursor stood when it was queried.
pub open spec fn spec_contiguous(record: AllocationRecord, regions: Seq<MemoryRegion>) -> bool {
    forall|i: int|
        0 <= i < regions.len() ==> (#[trigger] regions[i]).base == record.base_address
            + spec_total(regions.take(i))
}

/// The sum of sizes never decreases as regions are added.
pub proof fn lemma_total_monotone(regions: Seq<MemoryRegion>, i: int)
    requires
        0 <= i <= regions.len(),
    ensures
        0 <= spec_total(regions.take(i)) <= spec_total(regions),
    decreases regions.len() - i,
{
    if i == regions.len() {
        assert(regions.take(i) =~= regions);
        lemma_total_nonnegative(regions);
    } else {
        lemma_total_monotone(regions, i + 1);
        lemma_total_nonnegative(regions.take(i));
        assert(regions.take(i + 1).drop_last() =~= regions.take(i));
    }
}

/// The sum of sizes is never negative.
pub proof fn lemma_total_nonnegative(regions: Seq<MemoryRegion>)
    ensures
        0 <= spec_total(regions),
    decreases regions.len(),
{
    if regions.len() > 0 {
        lemma_total_nonnegative(regions.drop_last());
    }
}

/// Each step of the enumeration moves the cursor forward by the size of the
/// region that was visited: strictly forward for a region that is not empty.
pub proof fn lemma_walk_progress(regions: Seq<MemoryRegion>, region: MemoryRegion)
    ensures
        spec_total(regions.push(region)) == spec_total(regions) + region.size,
        region.size > 0 ==> spec_total(regions.push(region)) > spec_total(regions),
{
    assert(regions.push(region).drop_last() =~= regions);
}

/// Before each region of an enumeration was queried, the cursor had not
/// reached the end of the allocation.
pub proof fn lemma_walk_prefixes(record: AllocationRecord, regions: Seq<MemoryRegion>, i: int)
    requires
        spec_walked(record, regions),
        0 <= i < regions.len(),
    ensures
        spec_total(regions.take(i)) < record.size,
{
    lemma_total_monotone(regions.drop_last(), i);
    assert(regions.drop_last().take(i) =~= regions.take(i));
}

/// An enumeration in which no region is empty visits at most as many regions
/// as the allocation has bytes, so it ends.
pub proof fn lemma_walk_bounded(record: AllocationRecord, regions: Seq<MemoryRegion>)
    requires
        spec_walked(record, regions),
        forall|i: int| 0 <= i < regions.len() ==> (#[trigger] regions[i]).size > 0,
    ensures
        regions.len() <= record.size,
{
    if regions.len() > 0 {
        lemma_total_at_least_len(regions.drop_last());
    }
}

/// Where no region is empty the sum of sizes is at least the number of regions.
proof fn lemma_total_at_least_len(regions: Seq<MemoryRegion>)
    requires
        forall|i: int| 0 <= i < regions.len() ==> (#[trigger] regions[i]).size > 0,
    ensures
        spec_total(regions) >= regions.len(),
    decreases regions.len(),
{
    if regions.len() > 0 {
        lemma_total_at_least_len(regions.drop_last());
    }
}

/// An enumeration that has reached the end has visited at least the declared
/// size, and overshoots it by less than the size of the last region. Where
/// each region starts at the cursor and the last one ends with the
/// allocation, the visited sizes add up to the declared size exactly.
pub proof fn lemma_walk_sum(record: AllocationRecord, regions: Seq<MemoryRegion>)
    requires
        spec_walked(record, regions),
        spec_total(regions) >= record.size,
    ensures
        regions.len() > 0 ==> spec_total(regions) < record.size + regions.last().size,
        regions.len() == 0 ==> record.size == 0 && spec_total(regions) == record.size,
        regions.len() > 0 && spec_contiguous(record, regions) && regions.last().base
            + regions.last().size == record.base_address + record.size ==> spec_total(regions)
            == record.size,
{
    if regions.len() > 0 {
        assert(regions.take(regions.len() - 1) =~= regions.drop_last());
    }
}

/// The regions visited so far, with the sum of their sizes, which stops at
/// the largest 64-bit number.
struct Trail {
    offset: u64,
    regions: Vec<MemoryRegion>,
}

impl Trail {
    spec fn wf(self) -> bool {
        self.offset == if spec_total(self.regions@) <= u64::MAX {
            spec_total(self.regions@)
        } else {
            u64::MAX as int
        }
    }

    fn empty() -> (trail: Self)
        ensures
            trail.wf(),
            trail.regions@ == Seq::<MemoryRegion>::empty(),
    {
        Trail { offset: 0, regions: Vec::new() }
    }

    fn push(&mut self, region: MemoryRegion)
        requires
            old(self).wf(),
        ensures
            final(self).wf(),
            final(self).regions@ == old(self).regions@.push(region),
    {
        proof {
            lemma_walk_progress(self.regions@, region);
        }
        let size: u64 = region.size as u64;
        self.offset = if size > u64::MAX - self.offset {
            u64::MAX
        } else {
            self.offset + size
        };
        self.regions.push(region);
    }
}

/// The state of an enumeration: the allocation and the regions visited so far.
pub struct RegionWalk {
    record: AllocationRecord,
    trail: Trail,
}

impl RegionWalk {
    /// The allocation that is enumerated.
    pub closed spec fn record(self) -> AllocationRecord {
        self.record
    }

    /// The regions visited so far, in the order of the visits.
    pub closed spec fn visited(self) -> Seq<MemoryRegion> {
        self.trail.regions@
    }

    #[verifier::type_invariant]
    pub closed spec fn wf(self) -> bool {
        &&& spec_walked(self.record, self.trail.regions@)
        &&& self.trail.wf()
    }

    /// The address at which the next query is made.
    pub open spec fn spec_cursor(self) -> int {
        self.record().base_address + spec_total(self.visited())
    }

    /// Whether the cursor has reached the end of the allocation.
    pub open spec fn spec_finished(self) -> bool {
        spec_total(self.visited()) >= self.record().size
    }

    /// An enumeration of `record` that has visited nothing yet.
    pub fn start(record: AllocationRecord) -> (walk: Self)
        ensures
            walk.record() == record,
            walk.visited() == Seq::<MemoryRegion>::empty(),
    {
        RegionWalk { record, trail: Trail::empty() }
    }

    /// What to do next: query at the cursor, unless the cursor has reached the
    /// end of the allocation or cannot be written as an address.
    pub fn next_step(&self) -> (step: WalkStep)
        ensures
            self.spec_finished() ==> step == WalkStep::Done,
            !self.spec_finished() && self.spec_cursor() <= u64::MAX ==> step == WalkStep::Query(
                self.spec_cursor() as u64,
            ),
            !self.spec_finished() && self.spec_cursor() > u64::MAX ==> step
                == WalkStep::OutOfRange,
    {
        proof {
            use_type_invariant(self);
        }
        if self.trail.offset >= self.record.size as u64 {
            WalkStep::Done
        } else if self.trail.offset > u64::MAX - self.record.base_address {
            WalkStep::OutOfRange
        } else {
            WalkStep::Query(self.record.base_address + self.trail.offset)
        }
    }

    /// Notes the region that the query at the cursor reported and moves the
    /// cursor forward by its size. Once the cursor has reached the end nothing
    /// is noted any more, and the result says so.
    pub fn record_region(&mut self, region: MemoryRegion) -> (noted: bool)
        ensures
            noted == !old(self).spec_finished(),
            final(self).record() == old(self).record(),
            noted ==> final(self).visited() == old(self).visited().push(region),
            noted ==> final(self).spec_cursor() == old(self).spec_cursor() + region.size,
            !noted ==> final(self).visited() == old(self).visited(),
    {
        proof {
            use_type_invariant(&*self);
            lemma_walk_progress(self.trail.regions@, region);
        }
        if self.trail.offset >= self.record.size as u64 {
            return false;
        }
        let mut trail = Trail::empty();
        std::mem::swap(&mut trail, &mut self.trail);
        trail.push(region);
        assert(trail.regions@.drop_last() =~= old(self).trail.regions@);
        self.trail = trail;
        true
    }

    /// The regions visited so far, in the order of the visits.
    pub fn regions(&self) -> (regions: &Vec<MemoryRegion>)
        ensures
            regions@ == self.visited(),
    {
        &self.trail.regions
    }

    /// Ends the enumeration and hands out the regions that it visited.
    pub fn into_regions(self) -> (regions: Vec<MemoryRegion>)
        ensures
            regions@ == self.visited(),
            spec_walked(self.record(), regions@),
    {
        proof {
            use_type_invariant(&self);
        }
        self.trail.regions
    }
}

/// The largest number of bytes that one counted buffer can describe.
pub const MAX_BUFFER: u64 = 0xFFFF_FFFF;

/// Whether `region` is to be transformed but is larger than one counted
/// buffer can describe.
pub open spec fn spec_oversized(region: MemoryRegion) -> bool {
    region.state != STATE_RESERVED && region.size > MAX_BUFFER
}

/// The buffer that the transform is applied to for `region`: the region's
/// base and size. There is none for a region that is only reserved, nor for
/// one that is oversized.
pub open spec fn spec_descriptor(region: MemoryRegion) -> Option<UString> {
    if region.state == STATE_RESERVED || region.size > MAX_BUFFER {
        None
    } else {
        Some(
            UString {
                length: region.size as u32,
                maximum_length: region.size as u32,
                buffer: region.base,
            },
        )
    }
}

/// Whether the region at `k` is the first of `regions` that is oversized.
pub open spec fn spec_first_oversized(regions: Seq<MemoryRegion>, k: int) -> bool {
    &&& 0 <= k < regions.len()
    &&& spec_oversized(regions[k])
    &&& forall|j: int| 0 <= j < k ==> !spec_oversized(#[trigger] regions[j])
}

/// Whether none of `regions` is oversized.
pub open spec fn spec_none_oversized(regions: Seq<MemoryRegion>) -> bool {
    forall|j: int| 0 <= j < regions.len() ==> !spec_oversized(#[trigger] regions[j])
}

/// The buffer that the transform is applied to for `region`: none for a
/// region that is only reserved, a failure for one that is oversized, since
/// a buffer that counts only a part of it would leave the rest as it is.
pub fn descriptor(region: &MemoryRegion) -> (r: Result<Option<UString>, HostError>)
    ensures
        spec_oversized(*region) ==> r == Err::<Option<UString>, HostError>(
            HostError::OversizedRegion { base: region.base },
        ),
        !spec_oversized(*region) ==> r == Ok::<Option<UString>, HostError>(
            spec_descriptor(*region),
        ),
{
    if region.state == STATE_RESERVED {
        Ok(None)
    } else if region.size as u64 > MAX_BUFFER {
        Err(HostError::OversizedRegion { base: region.base })
    } else {
        let length: u32 = region.size as u32;
        Ok(Some(UString { length, maximum_length: length, buffer: region.base }))
    }
}

/// The buffers to transform, one for each region that is not only reserved,
/// in the order of the regions. Where a region is oversized there is no plan:
/// the failure names the first such region.
pub fn scrub_plan(regions: &Vec<MemoryRegion>) -> (r: Result<Vec<UString>, HostError>)
    ensures
        forall|k: int| #[trigger]
            spec_first_oversized(regions@, k) ==> r == Err::<Vec<UString>, HostError>(
                HostError::OversizedRegion { base: regions@[k].base },
            ),
        spec_none_oversized(regions@) ==> (r matches Ok(plan) && plan@ == regions@.filter_map(
            |r: MemoryRegion| spec_descriptor(r),
        )),
{
    let ghost f = |r: MemoryRegion| spec_descriptor(r);
    let mut plan: Vec<UString> = Vec::new();
    let mut i: usize = 0;
    while i < regions.len()
        invariant
            0 <= i <= regions.len(),
            f == |r: MemoryRegion| spec_descriptor(r),
            plan@ == regions@.take(i as int).filter_map(f),
            forall|j: int| 0 <= j < i ==> !spec_oversized(#[trigger] regions@[j]),
        decreases regions.len() - i,
    {
        proof {
            regions@.lemma_filter_map_take_succ(f, i as int);
        }
        match descriptor(&regions[i]) {
            Ok(Some(d)) => {
                plan.push(d);
            },
            Ok(None) => {},
            Err(e) => {
                assert(spec_oversized(regions@[i as int]));
                assert forall|k: int| #[trigger]
                    spec_first_oversized(regions@, k) implies k == i by {
                    if k < i {
                        assert(!spec_oversized(regions@[k]));
                    } else if k > i {
                        assert(!spec_oversized(regions@[i as int]));
                    }
                }
                return Err(e);
            },
        }
        i = i + 1;
    }
    assert(regions@.take(regions@.len() as int) =~= regions@);
    Ok(plan)
}

/// The key of the transform: sixteen bytes of one fixed value.
pub fn scrub_key() -> (key: [u8; 16])
    ensures
        forall|i: int| 0 <= i < 16 ==> key@[i] == KEY_BYTE,
{
    [KEY_BYTE; 16]
}

/// The counted buffer that describes the key at `address`.
pub fn key_descriptor(address: u64) -> (d: UString)
    ensures
        d == (UString { length: KEY_LENGTH, maximum_length: KEY_LENGTH, buffer: address }),
{
    UString { length: KEY_LENGTH, maximum_length: KEY_LENGTH, buffer: address }
}

/// The address of a function that was looked up in a library: a lookup that
/// found nothing, or the null address, is a failure to resolve the symbol.
pub fn get_function_from_dll(address: Option<usize>) -> (r: Result<usize, HostError>)
    ensures
        address matches Some(a) ==> (a != 0 ==> r == Ok::<usize, HostError>(a)),
        address == Some(0usize) || address is None ==> r == Err::<usize, HostError>(
            HostError::SymbolResolutionFailure,
        ),
{
    match address {
        Some(a) => {
            if a == 0 {
                Err(HostError::SymbolResolutionFailure)
            } else {
                Ok(a)
            }
        },
        None => Err(HostError::SymbolResolutionFailure),
    }
}

} // verus!
