use ksupport::arch::Architecture;
use ksupport::arch::SystemInfo;
use ksupport::gdt::cs;
use ksupport::gdt::null;
use ksupport::gdt::Privilege;
use ksupport::gdt::SegmentSelector;
use ksupport::idt::EntryOptions;
use ksupport::idt::IDTEntry;
use ksupport::interrupts::HALInterruptTable;

#[test]
fn segment_selector_encoding() {
    assert_eq!(SegmentSelector::for_gdt(5, Privilege::Ring0).raw(), 0x28);
    assert_eq!(SegmentSelector::for_gdt(5, Privilege::Ring3).raw(), 0x2B);
    assert_eq!(SegmentSelector::for_gdt(0, Privilege::Ring0).raw(), 0);
    assert_eq!(SegmentSelector::for_gdt(255, Privilege::Ring3).raw(), (255 << 3) | 3);
}

#[test]
fn kernel_code_segment_and_null_selector() {
    assert_eq!(cs().raw(), 0x28);
    assert_eq!(null().raw(), 0);
}

#[test]
fn privilege_bits() {
    assert_eq!(Privilege::Ring0.bits(), 0);
    assert_eq!(Privilege::Ring3.bits(), 3);
}

#[test]
fn entry_options_encoding() {
    let base = EntryOptions::disabled_ring0();
    // only the three must-be-one bits are set
    assert_eq!(base.raw(), 0x0E00);
    assert_eq!(base.with_present(true).raw(), 0x8E00);
    assert_eq!(base.with_present(true).with_present(false).raw(), 0x0E00);
    assert_eq!(base.with_privilege(Privilege::Ring3).raw(), 0x6E00);
    assert_eq!(base.with_privilege(Privilege::Ring3).with_privilege(Privilege::Ring0).raw(), 0x0E00);
    assert_eq!(base.with_interrupts_enabled(true).raw(), 0x0F00);
    assert_eq!(base.with_interrupts_enabled(true).with_interrupts_enabled(false).raw(), 0x0E00);
}

#[test]
fn missing_idt_entry_is_inert() {
    let e = IDTEntry::missing();
    assert_eq!(e.isr_low(), 0);
    assert_eq!(e.isr_mid(), 0);
    assert_eq!(e.isr_high(), 0);
    assert_eq!(e.gdt_selector().raw(), 0);
    assert_eq!(e.options().raw(), 0x0E00);
}

#[test]
fn handler_address_is_split_across_the_entry() {
    let e = IDTEntry::with_handler(0x1122_3344_5566_7788);
    assert_eq!(e.isr_low(), 0x7788);
    assert_eq!(e.isr_mid(), 0x5566);
    assert_eq!(e.isr_high(), 0x1122_3344);
    assert_eq!(e.gdt_selector().raw(), 0x28);
    assert_eq!(e.options().raw(), 0x8E00);
}

#[test]
fn system_info_carries_the_boot_findings() {
    let info = SystemInfo::describe(Architecture::X86_64, "GenuineIntel", 1 << 30);
    assert_eq!(info.cpu.0, Architecture::X86_64);
    assert_eq!(info.cpu.1, "GenuineIntel");
    assert_eq!(info.memory, 1 << 30);
}

#[test]
fn interrupt_table_starts_empty() {
    let table = HALInterruptTable::empty();
    assert!(table.div_by_zero.is_none());
    let armed = HALInterruptTable { div_by_zero: Some(0xFFFF_8000_0000_1000) };
    assert_eq!(armed.div_by_zero, Some(0xFFFF_8000_0000_1000));
}
