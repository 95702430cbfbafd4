//! Arming a hart's timer.
//!
//! The core-local interruptor is a block of memory-mapped registers. From its
//! base address `B`, every hart owns an 8-byte compare register at
//! `B + 0x4000 + 8 * hart`, and all harts share one free-running counter at
//! `B + 0xBFF8`. A hart's timer interrupt is raised once the counter has
//! reached the hart's compare register.
//!
//! Arming is one-shot: read the counter, add the interval, write the sum to the
//! hart's own compare register, and do so again after each timer interrupt.
//! Three things take part and must be kept apart: the address that is read,
//! the address that is written, and the value that is written.
//!
//! This module computes; it touches no memory. Its caller performs the one
//! read at [`counter_address`] and the one write that [`arm_timer`] hands back.

use vstd::prelude::*;

verus! {

/// Offset of the first compare register from the base.
pub const MTIMECMP_OFFSET: usize = 0x4000;

/// Offset of the free-running counter from the base.
pub const MTIME_OFFSET: usize = 0xBFF8;

/// Bytes from one hart's compare register to the next.
pub const MTIMECMP_STRIDE: usize = 8;

/// The hart number whose compare slot would fall on the counter: the table of
/// compare registers ends below it.
pub const MTIMECMP_SLOTS: u64 = 0xFFF;

/// The address of the compare register of `hart`.
pub open spec fn spec_compare_address(hart: int, base: int) -> int {
    base + 0x4000 + 8 * hart
}

/// The address of the free-running counter.
pub open spec fn spec_counter_address(base: int) -> int {
    base + 0xBFF8
}

/// One store of a 64-bit value to a memory-mapped register.
#[derive(Clone, Copy, PartialEq, Eq, Structural, Debug)]
pub struct RegisterWrite {
    pub address: usize,
    pub value: u64,
}

/// The registers of the interruptor by address, for stating what a sequence of
/// writes leaves behind.
pub open spec fn spec_apply(registers: Map<int, u64>, write: RegisterWrite) -> Map<int, u64> {
    registers.insert(write.address as int, write.value)
}

/// The write that arms the timer of `hart`, given the value `count` that the
/// counter showed.
pub open spec fn spec_arm_timer(hart: u64, base: usize, interval: u64, count: u64) -> RegisterWrite {
    RegisterWrite {
        address: spec_compare_address(hart as int, base as int) as usize,
        value: (count + interval) as u64,
    }
}

/// The address to read the free-running counter from.
pub fn counter_address(base: usize) -> (address: usize)
    requires
        spec_counter_address(base as int) <= usize::MAX,
    ensures
        address == spec_counter_address(base as int),
{
    base + MTIME_OFFSET
}

/// The address of the compare register that belongs to `hart`.
pub fn compare_address(hart: u64, base: usize) -> (address: usize)
    requires
        spec_compare_address(hart as int, base as int) <= usize::MAX,
    ensures
        address == spec_compare_address(hart as int, base as int),
{
    base + MTIMECMP_OFFSET + MTIMECMP_STRIDE * (hart as usize)
}

/// Arms the timer of `hart` to fire `interval` ticks after the counter showed
/// `count`: the write of `count + interval` to the hart's compare register.
///
/// The address depends on `hart` and `base` alone and the value on `count` and
/// `interval` alone.
pub fn arm_timer(hart: u64, base: usize, interval: u64, count: u64) -> (write: RegisterWrite)
    requires
        spec_compare_address(hart as int, base as int) <= usize::MAX,
        count + interval <= u64::MAX,
    ensures
        write == spec_arm_timer(hart, base, interval, count),
        write.address == spec_compare_address(hart as int, base as int),
        write.value == count + interval,
{
    RegisterWrite { address: compare_address(hart, base), value: count + interval }
}

/// What arming writes: exactly `count + interval`, to the compare register of
/// `hart`. The value is the same for every hart and every base, so that neither
/// the register's address nor the counter's offset is part of it.
pub proof fn arming_writes_count_plus_interval(hart: u64, base: usize, interval: u64, count: u64)
    requires
        spec_compare_address(hart as int, base as int) <= usize::MAX,
        count + interval <= u64::MAX,
    ensures
        spec_arm_timer(hart, base, interval, count).address == spec_compare_address(
            hart as int,
            base as int,
        ),
        spec_arm_timer(hart, base, interval, count).value == count + interval,
        forall|other_hart: u64, other_base: usize|
            (#[trigger] spec_arm_timer(other_hart, other_base, interval, count)).value
                == spec_arm_timer(hart, base, interval, count).value,
{
}

/// Arming keeps no state: the write is fixed by the hart, the base, the
/// interval and the count that was read, and what it leaves in the hart's
/// compare register does not depend on what that register, or any other, held
/// before.
pub proof fn arming_keeps_no_state(
    before: Map<int, u64>,
    other: Map<int, u64>,
    hart: u64,
    base: usize,
    interval: u64,
    count: u64,
)
    requires
        spec_compare_address(hart as int, base as int) <= usize::MAX,
        count + interval <= u64::MAX,
    ensures
        ({
            let write = spec_arm_timer(hart, base, interval, count);
            let slot = spec_compare_address(hart as int, base as int);
            &&& spec_apply(before, write)[slot] == count + interval
            &&& spec_apply(other, write)[slot] == count + interval
            &&& forall|address: int|
                address != slot ==> spec_apply(before, write)[address] == before[address]
        }),
{
    let write = spec_arm_timer(hart, base, interval, count);
    assert(write.address as int == spec_compare_address(hart as int, base as int));
}

/// The compare registers of two harts do not overlap, and the register of a
/// hart below [`MTIMECMP_SLOTS`] ends at or before the counter.
pub proof fn compare_slots_are_apart(base: int, a: int, b: int)
    requires
        0 <= a,
        0 <= b,
    ensures
        a < b ==> spec_compare_address(a, base) + 8 <= spec_compare_address(b, base),
        a != b ==> spec_compare_address(a, base) != spec_compare_address(b, base),
        a < MTIMECMP_SLOTS ==> spec_compare_address(a, base) + 8 <= spec_counter_address(base),
        a == MTIMECMP_SLOTS <==> spec_compare_address(a, base) == spec_counter_address(base),
{
}

/// Arming is independent between harts: when two different harts arm, each
/// compare register ends up holding its own hart's `count + interval`, in
/// whichever order the two writes land, and every other register keeps its
/// value. The counter is among those unless one of the two harts is number
/// [`MTIMECMP_SLOTS`], whose slot would be the counter itself.
pub proof fn arming_is_independent(
    registers: Map<int, u64>,
    base: usize,
    a: u64,
    interval_a: u64,
    count_a: u64,
    b: u64,
    interval_b: u64,
    count_b: u64,
)
    requires
        a != b,
        spec_compare_address(a as int, base as int) <= usize::MAX,
        spec_compare_address(b as int, base as int) <= usize::MAX,
        count_a + interval_a <= u64::MAX,
        count_b + interval_b <= u64::MAX,
    ensures
        ({
            let write_a = spec_arm_timer(a, base, interval_a, count_a);
            let write_b = spec_arm_timer(b, base, interval_b, count_b);
            let a_then_b = spec_apply(spec_apply(registers, write_a), write_b);
            let b_then_a = spec_apply(spec_apply(registers, write_b), write_a);
            &&& a_then_b == b_then_a
            &&& a_then_b[spec_compare_address(a as int, base as int)] == count_a + interval_a
            &&& a_then_b[spec_compare_address(b as int, base as int)] == count_b + interval_b
            &&& forall|address: int|
                address != spec_compare_address(a as int, base as int) && address
                    != spec_compare_address(b as int, base as int) ==> (a_then_b.dom().contains(
                    address,
                ) <==> registers.dom().contains(address)) && a_then_b[address]
                    == registers[address]
            &&& a != MTIMECMP_SLOTS && b != MTIMECMP_SLOTS ==> a_then_b[spec_counter_address(
                base as int,
            )] == registers[spec_counter_address(base as int)]
        }),
{
    compare_slots_are_apart(base as int, a as int, b as int);
    compare_slots_are_apart(base as int, b as int, a as int);
    let write_a = spec_arm_timer(a, base, interval_a, count_a);
    let write_b = spec_arm_timer(b, base, interval_b, count_b);
    assert(write_a.address as int == spec_compare_address(a as int, base as int));
    assert(write_b.address as int == spec_compare_address(b as int, base as int));
    let a_then_b = spec_apply(spec_apply(registers, write_a), write_b);
    let b_then_a = spec_apply(spec_apply(registers, write_b), write_a);
    assert(a_then_b =~= b_then_a);
}

} // verus!
