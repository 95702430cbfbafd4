//! Bit positions in the privileged registers of a RISC-V hart.
//!
//! Each register is one machine word whose meaning the architecture fixes. The
//! accesses themselves are privileged instructions and are not made here; this
//! module names the fields that their callers set and test.

use vstd::prelude::*;

verus! {

/// `mstatus`: the field that holds the privilege mode to return to, bits 12
/// and 11.
pub const MSTATUS_MPP_MASK: u64 = 0x1800;

/// `mstatus`: previous mode machine.
pub const MSTATUS_MPP_M: u64 = 0x1800;

/// `mstatus`: previous mode supervisor.
pub const MSTATUS_MPP_S: u64 = 0x0800;

/// `mstatus`: previous mode user.
pub const MSTATUS_MPP_U: u64 = 0x0000;

/// `mstatus`: machine-mode interrupt enable, bit 3.
pub const MSTATUS_MIE: u64 = 0x8;

/// `sstatus`: previous mode, 1 for supervisor and 0 for user, bit 8.
pub const SSTATUS_SPP: u64 = 0x100;

/// `sstatus`: supervisor previous interrupt enable, bit 5.
pub const SSTATUS_SPIE: u64 = 0x20;

/// `sstatus`: user previous interrupt enable, bit 4.
pub const SSTATUS_UPIE: u64 = 0x10;

/// `sstatus`: supervisor interrupt enable, bit 1.
pub const SSTATUS_SIE: u64 = 0x2;

/// `sstatus`: user interrupt enable, bit 0.
pub const SSTATUS_UIE: u64 = 0x1;

/// `mie`: machine external interrupts, bit 11.
pub const MIE_MEIE: u64 = 0x800;

/// `mie`: machine timer interrupts, bit 7.
pub const MIE_MTIE: u64 = 0x80;

/// `mie`: machine software interrupts, bit 3.
pub const MIE_MSIE: u64 = 0x8;

/// `sie`: supervisor external interrupts, bit 9.
pub const SIE_SEIE: u64 = 0x200;

/// `sie`: supervisor timer interrupts, bit 5.
pub const SIE_STIE: u64 = 0x20;

/// `sie`: supervisor software interrupts, bit 1.
pub const SIE_SSIE: u64 = 0x2;

/// Every field sits at the bit position that the architecture gives it, and
/// each of the three previous modes lies within the previous-mode field.
pub proof fn fields_sit_at_their_bits()
    ensures
        MSTATUS_MPP_MASK == 3u64 << 11,
        MSTATUS_MPP_M == 3u64 << 11,
        MSTATUS_MPP_S == 1u64 << 11,
        MSTATUS_MPP_U == 0u64 << 11,
        MSTATUS_MPP_M & MSTATUS_MPP_MASK == MSTATUS_MPP_M,
        MSTATUS_MPP_S & MSTATUS_MPP_MASK == MSTATUS_MPP_S,
        MSTATUS_MPP_U & MSTATUS_MPP_MASK == MSTATUS_MPP_U,
        MSTATUS_MIE == 1u64 << 3,
        MSTATUS_MIE & MSTATUS_MPP_MASK == 0,
        SSTATUS_SPP == 1u64 << 8,
        SSTATUS_SPIE == 1u64 << 5,
        SSTATUS_UPIE == 1u64 << 4,
        SSTATUS_SIE == 1u64 << 1,
        SSTATUS_UIE == 1u64 << 0,
        MIE_MEIE == 1u64 << 11,
        MIE_MTIE == 1u64 << 7,
        MIE_MSIE == 1u64 << 3,
        SIE_SEIE == 1u64 << 9,
        SIE_STIE == 1u64 << 5,
        SIE_SSIE == 1u64 << 1,
{
    assert(0x1800u64 == 3u64 << 11) by (bit_vector);
    assert(0x0800u64 == 1u64 << 11) by (bit_vector);
    assert(0x0000u64 == 0u64 << 11) by (bit_vector);
    assert(0x1800u64 & 0x1800u64 == 0x1800u64) by (bit_vector);
    assert(0x0800u64 & 0x1800u64 == 0x0800u64) by (bit_vector);
    assert(0x0000u64 & 0x1800u64 == 0x0000u64) by (bit_vector);
    assert(0x8u64 & 0x1800u64 == 0u64) by (bit_vector);
    assert(0x8u64 == 1u64 << 3) by (bit_vector);
    assert(0x100u64 == 1u64 << 8) by (bit_vector);
    assert(0x20u64 == 1u64 << 5) by (bit_vector);
    assert(0x10u64 == 1u64 << 4) by (bit_vector);
    assert(0x2u64 == 1u64 << 1) by (bit_vector);
    assert(0x1u64 == 1u64 << 0) by (bit_vector);
    assert(0x800u64 == 1u64 << 11) by (bit_vector);
    assert(0x80u64 == 1u64 << 7) by (bit_vector);
    assert(0x200u64 == 1u64 << 9) by (bit_vector);
}

} // verus!
