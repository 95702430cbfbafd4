use reedos::param::BANNER;
use reedos::param::CLINT_BASE;
use reedos::param::NHART;
use reedos::param::UART_BASE;
use reedos::riscv::MIE_MEIE;
use reedos::riscv::MIE_MSIE;
use reedos::riscv::MIE_MTIE;
use reedos::riscv::MSTATUS_MIE;
use reedos::riscv::MSTATUS_MPP_M;
use reedos::riscv::MSTATUS_MPP_MASK;
use reedos::riscv::MSTATUS_MPP_S;
use reedos::riscv::MSTATUS_MPP_U;
use reedos::riscv::SIE_SEIE;
use reedos::riscv::SIE_SSIE;
use reedos::riscv::SIE_STIE;
use reedos::riscv::SSTATUS_SIE;
use reedos::riscv::SSTATUS_SPIE;
use reedos::riscv::SSTATUS_SPP;
use reedos::riscv::SSTATUS_UIE;
use reedos::riscv::SSTATUS_UPIE;

#[test]
fn memory_layout() {
    assert_eq!(UART_BASE, 0x1000_0000);
    assert_eq!(CLINT_BASE, 0x200_0000);
    assert_eq!(NHART, 2);
}

#[test]
fn banner_text() {
    let lines: Vec<&str> = BANNER.lines().collect();
    assert_eq!(lines.len(), 8);
    assert_eq!(lines[0], "");
    assert_eq!(lines[1], "Mellow Swirled to");
    assert_eq!(lines[6], "/_/   \\___/\\___/\\__,_/\\____/____/");
    assert!(BANNER.ends_with("\n\n"));
}

#[test]
fn machine_status_fields() {
    assert_eq!(MSTATUS_MPP_MASK, 3 << 11);
    assert_eq!(MSTATUS_MPP_M, 3 << 11);
    assert_eq!(MSTATUS_MPP_S, 1 << 11);
    assert_eq!(MSTATUS_MPP_U, 0);
    assert_eq!(MSTATUS_MIE, 1 << 3);
}

#[test]
fn supervisor_status_fields() {
    assert_eq!(SSTATUS_SPP, 1 << 8);
    assert_eq!(SSTATUS_SPIE, 1 << 5);
    assert_eq!(SSTATUS_UPIE, 1 << 4);
    assert_eq!(SSTATUS_SIE, 1 << 1);
    assert_eq!(SSTATUS_UIE, 1);
}

#[test]
fn interrupt_enable_fields() {
    assert_eq!(MIE_MEIE, 1 << 11);
    assert_eq!(MIE_MTIE, 1 << 7);
    assert_eq!(MIE_MSIE, 1 << 3);
    assert_eq!(SIE_SEIE, 1 << 9);
    assert_eq!(SIE_STIE, 1 << 5);
    assert_eq!(SIE_SSIE, 1 << 1);
}

#[test]
fn previous_mode_replaces_only_its_field() {
    let status: u64 = 0xFFFF_FFFF_FFFF_FFFF;
    let supervisor = (status & !MSTATUS_MPP_MASK) | MSTATUS_MPP_S;
    assert_eq!(supervisor & MSTATUS_MPP_MASK, MSTATUS_MPP_S);
    assert_eq!(supervisor | MSTATUS_MPP_MASK, status);
    assert_eq!(supervisor & MSTATUS_MIE, MSTATUS_MIE);
}
