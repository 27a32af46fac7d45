use bare_kernel::gpio::{select_function, GPFSEL1};
use bare_kernel::mmio::{resolve_platform, MmioReg, RegOp};

fn midr(part: u32) -> u32 {
    0x4100_0000 | (part << 4) | 0x4
}

#[test]
fn resolve_known_parts() {
    assert_eq!(resolve_platform(midr(0xC07)).addr(), 0x3F00_0000);
    assert_eq!(resolve_platform(midr(0xD03)).addr(), 0x3F00_0000);
    assert_eq!(resolve_platform(midr(0xD08)).addr(), 0xFE00_0000);
}

#[test]
fn resolve_unknown_parts_fall_back() {
    assert_eq!(resolve_platform(0).addr(), 0x3F00_0000);
    assert_eq!(resolve_platform(midr(0xD07)).addr(), 0x3F00_0000);
    assert_eq!(resolve_platform(u32::MAX).addr(), 0x3F00_0000);
    // only bits 4..=15 count
    assert_eq!(resolve_platform(0xFFFF_0000 | (0xD08 << 4) | 0xF).addr(), 0xFE00_0000);
}

#[test]
fn register_address_adds_base() {
    let reg = MmioReg::new(0xB880);
    assert_eq!(reg.offset(), 0xB880);
    assert_eq!(reg.address(&resolve_platform(midr(0xD08))), 0xFE00_B880);
    assert_eq!(reg.address(&resolve_platform(midr(0xD03))), 0x3F00_B880);
}

#[test]
fn modify_and_wait_values() {
    let op = RegOp::Modify { addr: 0, clear: 0xF0, set: 0x05 };
    assert_eq!(op.next_value(0xFF), 0x0F | 0x05);
    let w = RegOp::Write { addr: 0, value: 9 };
    assert_eq!(w.next_value(3), 3);
    assert!(RegOp::WaitSet { addr: 0, mask: 0x20 }.wait_over(0x21));
    assert!(!RegOp::WaitSet { addr: 0, mask: 0x20 }.wait_over(0x1F));
    assert!(RegOp::WaitClear { addr: 0, mask: 0x20 }.wait_over(0x1F));
    assert!(!RegOp::WaitClear { addr: 0, mask: 0x20 }.wait_over(0x20));
    assert!(RegOp::Delay { cycles: 3 }.wait_over(0));
}

#[test]
fn gpio_alt5_on_pins_14_and_15() {
    let base = resolve_platform(midr(0xD03));
    let op = select_function(&base, 14, 15, 0b010);
    assert_eq!(
        op,
        RegOp::Modify {
            addr: 0x3F00_0000 + GPFSEL1,
            clear: (7 << 12) | (7 << 15),
            set: (2 << 12) | (2 << 15),
        }
    );
    // other pins of the register are left alone
    let before: u32 = 0xFFFF_FFFF;
    assert_eq!(op.next_value(before), 0xFFFD_2FFF & 0xFFFF_FFFF);
}
