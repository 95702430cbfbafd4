use reedos::clint::arm_timer;
use reedos::clint::compare_address;
use reedos::clint::counter_address;
use reedos::clint::RegisterWrite;
use reedos::clint::MTIMECMP_OFFSET;
use reedos::clint::MTIMECMP_SLOTS;
use reedos::clint::MTIMECMP_STRIDE;
use reedos::clint::MTIME_OFFSET;
use reedos::param::CLINT_BASE;
use reedos::param::NHART;

#[test]
fn offsets_of_the_interruptor() {
    assert_eq!(MTIMECMP_OFFSET, 0x4000);
    assert_eq!(MTIME_OFFSET, 0xBFF8);
    assert_eq!(MTIMECMP_STRIDE, 8);
    assert_eq!(MTIMECMP_SLOTS, 4095);
}

#[test]
fn counter_sits_at_its_offset() {
    assert_eq!(counter_address(0), 0xBFF8);
    assert_eq!(counter_address(CLINT_BASE), 0x200BFF8);
}

#[test]
fn each_hart_has_its_own_slot() {
    assert_eq!(compare_address(0, CLINT_BASE), 0x2004000);
    assert_eq!(compare_address(1, CLINT_BASE), 0x2004008);
    assert_eq!(compare_address(7, 0x1000), 0x5038);
}

#[test]
fn arming_writes_count_plus_interval_to_the_harts_slot() {
    let write = arm_timer(1, CLINT_BASE, 1_000_000, 5);
    assert_eq!(write, RegisterWrite { address: 0x2004008, value: 1_000_005 });
    let write = arm_timer(0, CLINT_BASE, 0, 0);
    assert_eq!(write, RegisterWrite { address: 0x2004000, value: 0 });
    let write = arm_timer(3, 0, 1, u64::MAX - 1);
    assert_eq!(write, RegisterWrite { address: 0x4018, value: u64::MAX });
}

#[test]
fn written_value_is_neither_address() {
    let write = arm_timer(0, CLINT_BASE, 10, 20);
    assert_eq!(write.value, 30);
    assert_ne!(write.value, write.address as u64 + 0xBFF8 + 10);
    assert_ne!(write.address, counter_address(CLINT_BASE));
}

#[test]
fn arming_one_hart_does_not_depend_on_another() {
    let alone = arm_timer(1, CLINT_BASE, 100, 7);
    let mut registers = std::collections::BTreeMap::new();
    registers.insert(counter_address(CLINT_BASE), 7u64);
    for hart in 0..NHART as u64 {
        let count = registers[&counter_address(CLINT_BASE)];
        let write = arm_timer(hart, CLINT_BASE, 100 * hart, count);
        registers.insert(write.address, write.value);
    }
    assert_eq!(registers[&alone.address], alone.value);
    assert_eq!(registers[&compare_address(0, CLINT_BASE)], 7);
    assert_eq!(registers[&counter_address(CLINT_BASE)], 7);
    assert_eq!(registers.len(), 3);
}

#[test]
fn slots_of_different_harts_do_not_overlap() {
    for a in 0..16u64 {
        for b in 0..16u64 {
            let first = compare_address(a, CLINT_BASE);
            let second = compare_address(b, CLINT_BASE);
            if a < b {
                assert!(first + 8 <= second);
            }
            assert_eq!(a == b, first == second);
        }
    }
}

#[test]
fn last_slot_ends_where_the_counter_begins() {
    let last = compare_address(MTIMECMP_SLOTS - 1, CLINT_BASE);
    assert_eq!(last + 8, counter_address(CLINT_BASE));
    assert_eq!(compare_address(MTIMECMP_SLOTS, CLINT_BASE), counter_address(CLINT_BASE));
}
