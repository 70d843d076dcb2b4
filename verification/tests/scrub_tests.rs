use clr_scrub::driver::{advance, may_scrub, start, DriverState};
use clr_scrub::marshal::{create_assembly_safearray, create_final_array, unwrap_final_array};
use clr_scrub::payload::wipe_payload;
use clr_scrub::registry::{AllocationRecord, AllocationRegistry};
use clr_scrub::scrub::{
    descriptor, get_function_from_dll, key_descriptor, scrub_key, scrub_plan, MemoryRegion,
    RegionWalk, UString, WalkStep, KEY_BYTE, KEY_LENGTH, MAX_BUFFER, STATE_RESERVED,
    TRANSFORM_LIBRARY,
    TRANSFORM_SYMBOL,
};
use clr_scrub::status::HostError;

fn region(base: u64, size: usize, state: u32) -> MemoryRegion {
    MemoryRegion { base, size, state, protect: 4 }
}

#[test]
fn walk_visits_regions_until_the_end() {
    let record = AllocationRecord { base_address: 0x10000, size: 0x30000 };
    let mut walk = RegionWalk::start(record);
    assert_eq!(walk.next_step(), WalkStep::Query(0x10000));
    assert!(walk.record_region(region(0x10000, 0x20000, 0x1000)));
    assert_eq!(walk.next_step(), WalkStep::Query(0x30000));
    assert!(walk.record_region(region(0x30000, 0x10000, 0x2000)));
    assert_eq!(walk.next_step(), WalkStep::Done);
    assert!(!walk.record_region(region(0x40000, 0x10000, 0x1000)));
    assert_eq!(walk.regions().len(), 2);
    let regions = walk.into_regions();
    let total: usize = regions.iter().map(|r| r.size).sum();
    assert_eq!(total, 0x30000);
    assert_eq!(regions, vec![region(0x10000, 0x20000, 0x1000), region(0x30000, 0x10000, 0x2000)]);
}

#[test]
fn walk_of_an_empty_allocation_is_done_at_once() {
    let mut walk = RegionWalk::start(AllocationRecord { base_address: 0x10000, size: 0 });
    assert_eq!(walk.next_step(), WalkStep::Done);
    assert!(!walk.record_region(region(0x10000, 0x1000, 0x1000)));
    assert!(walk.into_regions().is_empty());
}

#[test]
fn walk_may_overshoot_by_less_than_the_last_region() {
    let mut walk = RegionWalk::start(AllocationRecord { base_address: 0x10000, size: 100000 });
    assert!(walk.record_region(region(0x10000, 102400, 0x1000)));
    assert_eq!(walk.next_step(), WalkStep::Done);
    let regions = walk.into_regions();
    assert_eq!(regions.len(), 1);
    assert_eq!(regions[0].size, 102400);
}

#[test]
fn empty_region_leaves_the_cursor_in_place() {
    let mut walk = RegionWalk::start(AllocationRecord { base_address: 0x10000, size: 0x1000 });
    assert!(walk.record_region(region(0x10000, 0, 0x1000)));
    assert_eq!(walk.next_step(), WalkStep::Query(0x10000));
    assert!(walk.record_region(region(0x10000, 0x1000, 0x1000)));
    assert_eq!(walk.next_step(), WalkStep::Done);
}

#[test]
fn walk_stops_at_the_end_of_the_address_space() {
    let record = AllocationRecord { base_address: u64::MAX - 0xfff, size: 0x3000 };
    let mut walk = RegionWalk::start(record);
    assert_eq!(walk.next_step(), WalkStep::Query(u64::MAX - 0xfff));
    assert!(walk.record_region(region(u64::MAX - 0xfff, 0x1000, 0x1000)));
    assert_eq!(walk.next_step(), WalkStep::OutOfRange);
}

#[test]
fn reserved_regions_are_left_alone() {
    let regions = vec![
        region(0x10000, 0x1000, 0x1000),
        region(0x11000, 0x2000, STATE_RESERVED),
        region(0x13000, 0x3000, 0x1000),
        region(0x16000, 0x1000, 0x10000),
    ];
    let plan = scrub_plan(&regions);
    assert_eq!(
        plan,
        Ok(vec![
            UString { length: 0x1000, maximum_length: 0x1000, buffer: 0x10000 },
            UString { length: 0x3000, maximum_length: 0x3000, buffer: 0x13000 },
            UString { length: 0x1000, maximum_length: 0x1000, buffer: 0x16000 },
        ])
    );
    assert_eq!(scrub_plan(&Vec::new()), Ok(Vec::<UString>::new()));
    assert_eq!(STATE_RESERVED, 8192);
}

#[test]
fn descriptor_counts_the_whole_region() {
    assert_eq!(descriptor(&region(0x10000, 0x2000, STATE_RESERVED)), Ok(None));
    assert_eq!(
        descriptor(&region(0x10000, 0x2000, 0x1000)),
        Ok(Some(UString { length: 0x2000, maximum_length: 0x2000, buffer: 0x10000 }))
    );
    assert_eq!(
        descriptor(&region(0x10000, 0xffff_ffff, 0x1000)),
        Ok(Some(UString { length: 0xffff_ffff, maximum_length: 0xffff_ffff, buffer: 0x10000 }))
    );
    assert_eq!(
        descriptor(&region(0x10000, 0, 0x1000)),
        Ok(Some(UString { length: 0, maximum_length: 0, buffer: 0x10000 }))
    );
    assert_eq!(MAX_BUFFER, 0xffff_ffff);
}

#[test]
fn oversized_region_is_a_failure() {
    let four_gib = match (u32::MAX as usize).checked_add(1) {
        Some(size) => size,
        None => return,
    };
    assert_eq!(
        descriptor(&region(0x10000, four_gib, 0x1000)),
        Err(HostError::OversizedRegion { base: 0x10000 })
    );
    assert_eq!(descriptor(&region(0x10000, four_gib, STATE_RESERVED)), Ok(None));
    let regions = vec![
        region(0x10000, 0x1000, 0x1000),
        region(0x11000, four_gib, STATE_RESERVED),
        region(0x2_0001_1000, four_gib + 5, 0x1000),
        region(0x4_0001_1005, usize::MAX, 0x1000),
    ];
    assert_eq!(scrub_plan(&regions), Err(HostError::OversizedRegion { base: 0x2_0001_1000 }));
    let fine = vec![region(0x10000, 0x1000, 0x1000), region(0x11000, four_gib, STATE_RESERVED)];
    assert_eq!(
        scrub_plan(&fine),
        Ok(vec![UString { length: 0x1000, maximum_length: 0x1000, buffer: 0x10000 }])
    );
}

#[test]
fn key_is_sixteen_fixed_bytes() {
    assert_eq!(scrub_key(), [0x66u8; 16]);
    assert_eq!(KEY_BYTE, 0x66);
    assert_eq!(KEY_LENGTH, 16);
    assert_eq!(
        key_descriptor(0x7ffe_0000),
        UString { length: 16, maximum_length: 16, buffer: 0x7ffe_0000 }
    );
    assert_eq!(TRANSFORM_LIBRARY, "Advapi32");
    assert_eq!(TRANSFORM_SYMBOL, "SystemFunction032");
}

#[test]
fn unresolved_symbol_is_a_failure() {
    assert_eq!(get_function_from_dll(Some(0x7ff8_1234)), Ok(0x7ff8_1234));
    assert_eq!(get_function_from_dll(None), Err(HostError::SymbolResolutionFailure));
    assert_eq!(get_function_from_dll(Some(0)), Err(HostError::SymbolResolutionFailure));
}

#[test]
fn every_committed_region_of_the_target_is_planned() {
    let mut payload: Vec<u8> = vec![0x4d, 0x5a, 0x00, 0x01];
    let bytes = create_assembly_safearray(&payload, 0x5000).unwrap();
    assert_eq!(bytes.len(), 4);
    let arguments =
        create_final_array(vec!["a".to_string(), "b".to_string()], 0x5000, &vec![0, 0], 0x6000, 0)
            .unwrap();
    assert_eq!(
        unwrap_final_array(&arguments),
        Some(vec!["a".to_string(), "b".to_string()])
    );

    let mut registry = AllocationRegistry::new();
    registry.record_allocation(0x1000_0000, 0x20000, 8192);
    registry.record_allocation(0x2000_0000, 0x40000, 8192);
    registry.record_allocation(0x3000_0000, 0x30000, 8192);

    let mut state = start();
    while let DriverState::Pending(_) = state {
        state = advance(state, Ok(()));
    }
    assert!(may_scrub(state));
    wipe_payload(&mut payload);
    assert!(payload.is_empty());

    let target = registry.scrub_target().unwrap();
    assert_eq!(target, AllocationRecord { base_address: 0x3000_0000, size: 0x30000 });
    let answers = vec![
        region(0x3000_0000, 0x10000, 0x1000),
        region(0x3001_0000, 0x8000, STATE_RESERVED),
        region(0x3001_8000, 0x18000, 0x1000),
    ];
    let mut walk = RegionWalk::start(target);
    let mut next = 0;
    while let WalkStep::Query(address) = walk.next_step() {
        assert_eq!(address, answers[next].base);
        assert!(walk.record_region(answers[next]));
        next += 1;
    }
    assert_eq!(next, 3);
    let regions = walk.into_regions();
    let visited: usize = regions.iter().map(|r| r.size).sum();
    assert_eq!(visited, target.size);
    let plan = scrub_plan(&regions).unwrap();
    let committed: Vec<&MemoryRegion> =
        regions.iter().filter(|r| r.state != STATE_RESERVED).collect();
    assert_eq!(plan.len(), committed.len());
    for (buffer, region) in plan.iter().zip(committed.iter()) {
        assert_eq!(buffer.buffer, region.base);
        assert_eq!(buffer.length as usize, region.size);
        assert_eq!(buffer.maximum_length, buffer.length);
    }
}
