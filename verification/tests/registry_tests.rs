use clr_scrub::host::{
    Advisory, HostReply, ManagerDecision, MyHostControl, MyHostMalloc, MyHostMemoryManager,
    ProtectDecision, AVAILABLE_BYTES, MEMORY_LOAD, MEMORY_MANAGER_IID,
};
use clr_scrub::dispatch::{ForeignObjectHandle, InterfaceIdentifier, Reply};
use clr_scrub::payload::wipe_payload;
use clr_scrub::registry::{
    qualifies, AllocationRecord, AllocationRegistry, LARGE_OBJECT_FLAG, SCRUB_POSITION,
};
use clr_scrub::status::{STATUS_NO_INTERFACE, STATUS_OK, STATUS_OUT_OF_MEMORY};

#[test]
fn threshold_is_strict() {
    assert!(!qualifies(LARGE_OBJECT_FLAG, 65536));
    assert!(qualifies(LARGE_OBJECT_FLAG, 65537));
    assert!(!qualifies(0, 65536));
    assert!(!qualifies(0, 65537));
    assert!(!qualifies(4096, 65537));
    assert!(qualifies(4096 | 8192, 65537));
    assert!(!qualifies(8192, 0));
}

#[test]
fn record_is_appended_only_when_it_qualifies() {
    let mut registry = AllocationRegistry::new();
    assert_eq!(registry.len(), 0);
    assert!(!registry.record_allocation(0x1000, 65536, 8192));
    assert_eq!(registry.len(), 0);
    assert!(!registry.record_allocation(0x1000, 65537, 4096));
    assert_eq!(registry.len(), 0);
    assert!(registry.record_allocation(0x1000, 65537, 8192));
    assert_eq!(registry.len(), 1);
    assert_eq!(registry.get(0), Some(AllocationRecord { base_address: 0x1000, size: 65537 }));
    assert_eq!(registry.get(1), None);
}

#[test]
fn ledger_keeps_the_order_of_the_requests() {
    let mut registry = AllocationRegistry::new();
    assert_eq!(registry.scrub_target(), None);
    registry.record_allocation(0x10000, 70000, 8192);
    registry.record_allocation(0x20000, 10, 8192);
    registry.record_allocation(0x30000, 80000, 8192);
    assert_eq!(registry.scrub_target(), None);
    registry.record_allocation(0x40000, 90000, 8192);
    registry.record_allocation(0x50000, 100000, 8192);
    assert_eq!(registry.len(), 4);
    assert_eq!(SCRUB_POSITION, 2);
    assert_eq!(
        registry.scrub_target(),
        Some(AllocationRecord { base_address: 0x40000, size: 90000 })
    );
    assert_eq!(registry.get(0), Some(AllocationRecord { base_address: 0x10000, size: 70000 }));
    assert_eq!(registry.get(3), Some(AllocationRecord { base_address: 0x50000, size: 100000 }));
}

#[test]
fn virtual_alloc_records_under_the_same_rule() {
    let manager = MyHostMemoryManager {};
    let mut registry = AllocationRegistry::new();
    assert_eq!(manager.virtual_alloc(&mut registry, 0x7000_0000, 65536, 8192), STATUS_OK);
    assert_eq!(registry.len(), 0);
    assert_eq!(manager.virtual_alloc(&mut registry, 0x7000_0000, 65537, 0), STATUS_OK);
    assert_eq!(registry.len(), 0);
    assert_eq!(manager.virtual_alloc(&mut registry, 0x7000_0000, 65537, 8192), STATUS_OK);
    assert_eq!(registry.len(), 1);
    assert_eq!(
        registry.get(0),
        Some(AllocationRecord { base_address: 0x7000_0000, size: 65537 })
    );
    assert_eq!(manager.virtual_alloc(&mut registry, 0x8000_0000, 1 << 20, 8192 | 4096), STATUS_OK);
    assert_eq!(
        registry.get(1),
        Some(AllocationRecord { base_address: 0x8000_0000, size: 1 << 20 })
    );
}

#[test]
fn failed_allocation_is_reported_and_not_recorded() {
    let manager = MyHostMemoryManager {};
    let mut registry = AllocationRegistry::new();
    assert_eq!(manager.virtual_alloc(&mut registry, 0, 65537, 8192), STATUS_OUT_OF_MEMORY);
    assert_eq!(registry.len(), 0);
    assert_eq!(manager.virtual_alloc(&mut registry, 0, 1 << 20, 8192), STATUS_OUT_OF_MEMORY);
    assert_eq!(manager.virtual_alloc(&mut registry, 0, 16, 4096), STATUS_OUT_OF_MEMORY);
    assert_eq!(registry.len(), 0);
    assert_eq!(manager.virtual_alloc(&mut registry, 0x1000, 65537, 8192), STATUS_OK);
    assert_eq!(manager.virtual_alloc(&mut registry, 0, 65537, 8192), STATUS_OUT_OF_MEMORY);
    assert_eq!(registry.len(), 1);
    assert_eq!(registry.get(0), Some(AllocationRecord { base_address: 0x1000, size: 65537 }));
}

#[test]
fn only_the_memory_manager_is_offered() {
    let control = MyHostControl {};
    let wanted = InterfaceIdentifier { value: MEMORY_MANAGER_IID };
    assert_eq!(control.get_host_manager(wanted), ManagerDecision::CreateMemoryManager);
    let other = InterfaceIdentifier { value: 0x05F696DC_2B29_3663_AD8B_C4389CF2A713 };
    assert_eq!(
        control.get_host_manager(other),
        ManagerDecision::Refuse(HostReply {
            status: STATUS_NO_INTERFACE,
            output: ForeignObjectHandle { address: 0 },
        })
    );
    assert_eq!(STATUS_NO_INTERFACE as u32, 0x80004002);
}

#[test]
fn memory_manager_reply_hands_the_query_back() {
    let control = MyHostControl {};
    let query = Reply { status: 0, os_error: 0, value: ForeignObjectHandle { address: 0xabc0 } };
    assert_eq!(
        control.memory_manager_reply(&query),
        HostReply { status: 0, output: ForeignObjectHandle { address: 0xabc0 } }
    );
    let failed = Reply {
        status: STATUS_NO_INTERFACE,
        os_error: 0,
        value: ForeignObjectHandle { address: 0 },
    };
    assert_eq!(
        control.memory_manager_reply(&failed),
        HostReply { status: STATUS_NO_INTERFACE, output: ForeignObjectHandle { address: 0 } }
    );
}

#[test]
fn advisory_calls_always_succeed() {
    let control = MyHostControl {};
    let manager = MyHostMemoryManager {};
    assert_eq!(control.acknowledge(Advisory::SetAppDomainManager), 0);
    assert_eq!(manager.acknowledge(Advisory::RegisterMemoryNotificationCallback), 0);
    assert_eq!(manager.acknowledge(Advisory::NeedsVirtualAddressSpace), 0);
    assert_eq!(manager.acknowledge(Advisory::AcquiredVirtualAddressSpace), 0);
    assert_eq!(manager.acknowledge(Advisory::ReleasedVirtualAddressSpace), 0);
    assert_eq!(manager.virtual_query(), 0);
}

#[test]
fn protect_with_no_flags_changes_nothing() {
    let manager = MyHostMemoryManager {};
    assert_eq!(manager.virtual_protect(0), ProtectDecision::Skip(0));
    assert_eq!(manager.virtual_protect(0x40), ProtectDecision::Apply(0x40));
    assert_eq!(manager.virtual_protect_status(Ok(())), 0);
    assert_eq!(manager.virtual_protect_status(Err(-2147024891)), -2147024891);
    assert_eq!(manager.virtual_free(Ok(())), 0);
    assert_eq!(manager.virtual_free(Err(-2147024809)), -2147024809);
}

#[test]
fn memory_load_is_fixed() {
    let manager = MyHostMemoryManager {};
    assert_eq!(manager.get_memory_load(), (30, 100 * 1024 * 1024));
    assert_eq!(MEMORY_LOAD, 30);
    assert_eq!(AVAILABLE_BYTES, 104857600);
}

#[test]
fn host_malloc_signals_out_of_memory() {
    let manager = MyHostMemoryManager {};
    assert_eq!(manager.create_malloc(0), None);
    let malloc = manager.create_malloc(0x5000).unwrap();
    assert_eq!(malloc, MyHostMalloc { heap: 0x5000 });
    assert_eq!(malloc.allocate(0x6000), STATUS_OK);
    assert_eq!(malloc.allocate(0), STATUS_OUT_OF_MEMORY);
    assert_eq!(malloc.debug_alloc(0x6000), STATUS_OK);
    assert_eq!(malloc.debug_alloc(0), STATUS_OUT_OF_MEMORY);
    assert_eq!(STATUS_OUT_OF_MEMORY as u32, 0x8007000E);
    assert_eq!(malloc.free(Ok(())), STATUS_OK);
    assert_eq!(malloc.free(Err(-5)), -5);
}

#[test]
fn wiped_payload_is_empty() {
    let mut payload: Vec<u8> = vec![0x4d, 0x5a, 1, 2, 3];
    wipe_payload(&mut payload);
    assert!(payload.is_empty());
    assert_eq!(payload, Vec::<u8>::new());
}
