//! The services that the host offers to the hosted runtime: capability
//! negotiation, the memory manager and its allocator.

use vstd::prelude::*;
use crate::dispatch::{ForeignObjectHandle, InterfaceIdentifier, Reply};
use crate::registry::{spec_qualifies, AllocationRecord, AllocationRegistry};
use crate::status::{is_success, STATUS_NO_INTERFACE, STATUS_OK, STATUS_OUT_OF_MEMORY};

verus! {

/// The value of the identifier of the memory manager's capability contract.
pub const MEMORY_MANAGER_IID: u128 = 0x7bc698d1_f9e3_4460_9cde_d04248e9fa25;

/// The memory load that the host reports, in percent.
pub const MEMORY_LOAD: u32 = 30;

/// The number of available bytes that the host reports.
pub const AVAILABLE_BYTES: usize = 104857600;

/// The options with which the allocator's heap is created: no serialization.
pub const HEAP_OPTIONS: u32 = 1;

/// The options of each allocation from the heap: no serialization, and a
/// failure is signalled rather than returned.
pub const ALLOC_OPTIONS: u32 = 5;

/// What goes back to the hosted runtime from a callback: the status, and the
/// handle written to the output.
#[derive(Clone, Copy, Debug, PartialEq, Eq, Structural)]
pub struct HostReply {
    pub status: i32,
    pub output: ForeignObjectHandle,
}

/// What the negotiator does for a capability query.
#[derive(Clone, Copy, Debug, PartialEq, Eq, Structural)]
pub enum ManagerDecision {
    /// Construct a memory manager and query it for the identifier.
    CreateMemoryManager,
    /// Answer at once, with this reply.
    Refuse(HostReply),
}

/// What the memory manager does for a request to change a protection.
#[derive(Clone, Copy, Debug, PartialEq, Eq, Structural)]
pub enum ProtectDecision {
    /// Nothing is changed, and this status goes back.
    Skip(i32),
    /// The protection is changed to these flags.
    Apply(u32),
}

/// The advisory calls of the hosted runtime.
#[derive(Clone, Copy, Debug, PartialEq, Eq, Structural)]
pub enum Advisory {
    RegisterMemoryNotificationCallback,
    NeedsVirtualAddressSpace,
    AcquiredVirtualAddressSpace,
    ReleasedVirtualAddressSpace,
    SetAppDomainManager,
}

/// The status that goes back for the outcome of a native call: success for
/// `Ok`, the code of the error else.
pub fn status_of(outcome: Result<(), i32>) -> (status: i32)
    ensures
        outcome is Ok ==> status == STATUS_OK,
        outcome matches Err(code) ==> status == code,
{
    match outcome {
        Ok(()) => STATUS_OK,
        Err(code) => code,
    }
}

/// The capability negotiator.
#[derive(Clone, Copy, Debug, PartialEq, Eq, Structural)]
pub struct MyHostControl {}

impl MyHostControl {
    /// Decides on a capability query. Only the memory manager is offered: any
    /// other identifier is refused as not supported, with a null output.
    pub fn get_host_manager(&self, riid: InterfaceIdentifier) -> (d: ManagerDecision)
        ensures
            riid.value == MEMORY_MANAGER_IID ==> d == ManagerDecision::CreateMemoryManager,
            riid.value != MEMORY_MANAGER_IID ==> d == ManagerDecision::Refuse(
                HostReply { status: STATUS_NO_INTERFACE, output: ForeignObjectHandle { address: 0 } },
            ),
    {
        if riid.value == MEMORY_MANAGER_IID {
            ManagerDecision::CreateMemoryManager
        } else {
            ManagerDecision::Refuse(
                HostReply { status: STATUS_NO_INTERFACE, output: ForeignObjectHandle::null() },
            )
        }
    }

    /// The reply once the memory manager was queried for the identifier: the
    /// handle that the query wrote is handed back, with the query's status.
    pub fn memory_manager_reply(&self, query: &Reply<ForeignObjectHandle>) -> (reply: HostReply)
        ensures
            reply.output == query.value,
            reply.status == query.status,
    {
        HostReply { status: query.status, output: query.value }
    }

    /// The status of an advisory call: always success.
    pub fn acknowledge(&self, call: Advisory) -> (status: i32)
        ensures
            is_success(status),
    {
        STATUS_OK
    }
}

/// The memory manager.
#[derive(Clone, Copy, Debug, PartialEq, Eq, Structural)]
pub struct MyHostMemoryManager {}

impl MyHostMemoryManager {
    /// The allocator over the heap that was created for it; none if the heap
    /// could not be created.
    pub fn create_malloc(&self, heap: usize) -> (r: Option<MyHostMalloc>)
        ensures
            heap != 0 ==> r == Some(MyHostMalloc { heap }),
            heap == 0 ==> r is None,
    {
        if heap == 0 {
            None
        } else {
            Some(MyHostMalloc { heap })
        }
    }

    /// The status after virtual memory was requested, and what the ledger
    /// keeps of the request. A request that could not be satisfied, one whose
    /// address is null, is reported as out of memory and leaves the ledger as
    /// it was. One that was satisfied succeeds, and is appended to the ledger
    /// if and only if its flags carry the large-object bit and its size
    /// exceeds the threshold.
    pub fn virtual_alloc(
        &self,
        registry: &mut AllocationRegistry,
        address: u64,
        size: usize,
        allocation_type: u32,
    ) -> (status: i32)
        ensures
            address == 0 ==> status == STATUS_OUT_OF_MEMORY && final(registry)@ == old(registry)@,
            address != 0 ==> is_success(status),
            address != 0 && spec_qualifies(allocation_type, size) ==> final(registry)@ == old(
                registry,
            )@.push(AllocationRecord { base_address: address, size }),
            address != 0 && !spec_qualifies(allocation_type, size) ==> final(registry)@ == old(
                registry,
            )@,
    {
        if address == 0 {
            return STATUS_OUT_OF_MEMORY;
        }
        registry.record_allocation(address, size, allocation_type);
        STATUS_OK
    }

    /// The status after virtual memory was freed: that of the native call.
    pub fn virtual_free(&self, outcome: Result<(), i32>) -> (status: i32)
        ensures
            outcome is Ok ==> status == STATUS_OK,
            outcome matches Err(code) ==> status == code,
    {
        status_of(outcome)
    }

    /// The status after virtual memory was queried: always success.
    pub fn virtual_query(&self) -> (status: i32)
        ensures
            is_success(status),
    {
        STATUS_OK
    }

    /// Decides on a request to change a protection: a request for no flags
    /// at all changes nothing and succeeds.
    pub fn virtual_protect(&self, new_protect: u32) -> (d: ProtectDecision)
        ensures
            new_protect == 0 ==> d == ProtectDecision::Skip(STATUS_OK),
            new_protect != 0 ==> d == ProtectDecision::Apply(new_protect),
    {
        if new_protect == 0 {
            ProtectDecision::Skip(STATUS_OK)
        } else {
            ProtectDecision::Apply(new_protect)
        }
    }

    /// The status after a protection was changed: that of the native call.
    pub fn virtual_protect_status(&self, outcome: Result<(), i32>) -> (status: i32)
        ensures
            outcome is Ok ==> status == STATUS_OK,
            outcome matches Err(code) ==> status == code,
    {
        status_of(outcome)
    }

    /// The memory load that is reported: the load in percent and the number
    /// of available bytes, both fixed.
    pub fn get_memory_load(&self) -> (load: (u32, usize))
        ensures
            load == (MEMORY_LOAD, AVAILABLE_BYTES),
    {
        (MEMORY_LOAD, AVAILABLE_BYTES)
    }

    /// The status of an advisory call: always success.
    pub fn acknowledge(&self, call: Advisory) -> (status: i32)
        ensures
            is_success(status),
    {
        STATUS_OK
    }
}

/// The allocator for small requests, over a heap of its own.
#[derive(Clone, Copy, Debug, PartialEq, Eq, Structural)]
pub struct MyHostMalloc {
    pub heap: usize,
}

impl MyHostMalloc {
    /// The status after an allocation from the heap: out of memory if the
    /// heap handed back the null address, success else.
    pub fn allocate(&self, memory: usize) -> (status: i32)
        ensures
            memory == 0 ==> status == STATUS_OUT_OF_MEMORY,
            memory != 0 ==> status == STATUS_OK,
    {
        if memory == 0 {
            STATUS_OUT_OF_MEMORY
        } else {
            STATUS_OK
        }
    }

    /// The status after an allocation that names its place in the source: as
    /// for any allocation.
    pub fn debug_alloc(&self, memory: usize) -> (status: i32)
        ensures
            memory == 0 ==> status == STATUS_OUT_OF_MEMORY,
            memory != 0 ==> status == STATUS_OK,
    {
        self.allocate(memory)
    }

    /// The status after memory was given back to the heap: that of the
    /// native call.
    pub fn free(&self, outcome: Result<(), i32>) -> (status: i32)
        ensures
            outcome is Ok ==> status == STATUS_OK,
            outcome matches Err(code) ==> status == code,
    {
        status_of(outcome)
    }
}

} // verus!
