use bare_kernel::interrupt::IDTEntryOptions;

#[test]
fn entry_options_default() {
    assert_eq!(IDTEntryOptions::default().0, 0x0E);
}

#[test]
fn entry_options_present() {
    let mut options = IDTEntryOptions::default();
    options.set_present(true);
    assert_eq!(options.0, 0x8E);
}

use bare_kernel::interrupt::{
    init_idt, GateType, IDTEnrty, InterruptDescriptorTable, DOUBLE_FAULT_VECTOR, PAGE_FAULT_VECTOR,
};
use bare_kernel::lazy::OnceCell;
use bare_kernel::sync::Mutex;

#[test]
fn entry_options_fields() {
    let mut o = IDTEntryOptions::default();
    assert_eq!(o.gate_type(), GateType::InterruptGate);
    assert!(!o.present());
    o.set_gate_type(GateType::TrapGate);
    assert_eq!(o.0, 0x0F);
    assert_eq!(o.gate_type(), GateType::TrapGate);
    o.set_dpl(3);
    assert_eq!(o.0, 0x6F);
    assert_eq!(o.dpl(), 0x60);
    o.set_present(true);
    assert_eq!(o.0, 0xEF);
    o.set_present(false);
    o.set_dpl(0);
    assert_eq!(o.0, 0x0F);
    assert_eq!(IDTEntryOptions::from(0x8E).0, 0x8E);
    assert_eq!(GateType::default().bits(), 0xE);
}

#[test]
fn entry_splits_handler_address() {
    let e = IDTEnrty::new(0x1122_3344_5566_7788, 0x08);
    assert_eq!(e.fn_ptr_low, 0x7788);
    assert_eq!(e.fn_ptr_mid, 0x5566);
    assert_eq!(e.fn_ptr_high, 0x1122_3344);
    assert_eq!(e.gdt_selector, 0x08);
    assert_eq!(e.ist, 0);
    assert_eq!(e.options.0, 0x8E);
    assert_eq!(e.reserved, 0);
    let (w0, w1) = e.encode();
    assert_eq!(w0, 0x5566_8E00_0008_7788);
    assert_eq!(w1, 0x1122_3344);
}

#[test]
fn blank_entry_is_not_present() {
    let e = IDTEnrty::default();
    assert_eq!(e.encode(), (0x0000_0E00_0000_0000, 0));
    assert!(!e.options.present());
}

#[test]
fn init_idt_installs_two_handlers() {
    let mut idt: Mutex<OnceCell<InterruptDescriptorTable>> = Mutex::new(OnceCell::new());
    init_idt(&mut idt, 0xFFFF_8000_0010_2000, 0x4000, 0x08);
    let guard = idt.try_lock().ok().unwrap();
    let table = idt.get(&guard).get().unwrap();
    assert_eq!(table.len(), 256);
    assert_eq!(table.limit(), 4095);
    assert_eq!(table.entry(DOUBLE_FAULT_VECTOR), IDTEnrty::new(0xFFFF_8000_0010_2000, 0x08));
    assert_eq!(table.entry(PAGE_FAULT_VECTOR), IDTEnrty::new(0x4000, 0x08));
    for v in 0..256 {
        if v != DOUBLE_FAULT_VECTOR && v != PAGE_FAULT_VECTOR {
            assert_eq!(table.entry(v), IDTEnrty::default());
        }
    }
    let words = table.encode();
    assert_eq!(words.len(), 512);
    assert_eq!(words[2 * PAGE_FAULT_VECTOR], 0x0000_8E00_0008_4000);
    assert_eq!(words[2 * PAGE_FAULT_VECTOR + 1], 0);
    assert_eq!(words[0], 0x0000_0E00_0000_0000);
    idt.unlock(guard);
}
