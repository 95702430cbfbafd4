//! The memory layout of the machine and the number of its harts.

use crate::clint::spec_compare_address;
use crate::clint::spec_counter_address;
use crate::clint::MTIMECMP_SLOTS;
use vstd::prelude::*;

verus! {

/// Base address of the UART.
pub const UART_BASE: usize = 0x10000000;

/// Base address of the core-local interruptor, where the timer is.
pub const CLINT_BASE: usize = 0x2000000;

/// Number of harts.
pub const NHART: usize = 2;

/// What is printed at boot.
pub const BANNER: &'static str = "\nMellow Swirled to\n                       __\n   ________  ___  ____/ /___  _____\n  / ___/ _ \\/ _ \\/ __  / __ \\/ ___/\n / /  /  __/  __/ /_/ / /_/ (__  )\n/_/   \\___/\\___/\\__,_/\\____/____/\n\n";

/// On this machine every hart's compare register and the counter have
/// addresses that fit the machine word, and every hart has a compare register
/// of its own below the counter.
pub proof fn layout_fits(hart: u64)
    requires
        hart < NHART,
    ensures
        spec_compare_address(hart as int, CLINT_BASE as int) <= usize::MAX,
        spec_counter_address(CLINT_BASE as int) <= usize::MAX,
        hart < MTIMECMP_SLOTS,
{
}

} // verus!
