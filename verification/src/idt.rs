//! Interrupt-descriptor-table entry encoding.
//!
//! Hardware-format packing with no concurrency concerns: the options word
//! and the three-way split of the handler address are encoded exactly as
//! the processor reads them.

use vstd::prelude::*;

use crate::gdt;
use crate::gdt::Privilege;
use crate::gdt::SegmentSelector;

verus! {

/// The `options` field in an IDT entry.
///
/// This is all the miscellaneous options for the interrupt subsystem,
/// and must be given for every interrupt: the stack index in bits 0..3,
/// the interrupts-enabled flag in bit 8, three must-be-one bits in
/// 9..12, the minimum privilege in bits 13..15, and the present flag in
/// bit 15.
#[derive(Copy, Clone, PartialEq, Eq, Structural, Debug)]
pub struct EntryOptions {
    raw: u16,
}

impl EntryOptions {
    /// The encoded 16-bit options value.
    pub closed spec fn spec_raw(self) -> u16 {
        self.raw
    }

    /// Returns the encoded 16-bit options value.
    pub fn raw(self) -> (r: u16)
        ensures
            r == self.spec_raw(),
    {
        self.raw
    }

    /// A "disabled" options value that is mostly zeroed out, except for
    /// the three bits that have to be one: stack index zero, interrupts
    /// disabled, ring 0, not present.
    pub fn disabled_ring0() -> (r: Self)
        ensures
            r.spec_raw() == 0x0E00,
    {
        proof {
            assert((0b111u16 << 9) == 0x0E00u16) by (bit_vector);
        }
        EntryOptions { raw: 0b111u16 << 9 }
    }

    /// Returns a copy of the options with the present bit set to
    /// `present`.
    pub fn with_present(self, present: bool) -> (r: Self)
        ensures
            r.spec_raw() == (self.spec_raw() & 0x7FFF) | ((present as u16) << 15),
    {
        EntryOptions { raw: (self.raw & 0x7FFF) | ((present as u16) << 15) }
    }

    /// Returns a copy of the options with the minimum-privilege bits set
    /// to `privilege`.
    pub fn with_privilege(self, privilege: Privilege) -> (r: Self)
        ensures
            r.spec_raw() == (self.spec_raw() & 0x9FFF) | (privilege.spec_bits() << 13),
    {
        EntryOptions { raw: (self.raw & 0x9FFF) | (privilege.bits() << 13) }
    }

    /// Returns a copy of the options with the interrupt bit set to
    /// `enabled`.
    pub fn with_interrupts_enabled(self, enabled: bool) -> (r: Self)
        ensures
            r.spec_raw() == (self.spec_raw() & 0xFEFF) | ((enabled as u16) << 8),
    {
        EntryOptions { raw: (self.raw & 0xFEFF) | ((enabled as u16) << 8) }
    }
}

/// A single interrupt handler entry inside the IDT.
///
/// This can be directly read by the CPU as part of the IDT, no
/// conversion necessary: the 64-bit handler address is split into low,
/// middle and high parts around the selector and options words.
#[derive(Copy, Clone)]
pub struct IDTEntry {
    isr_low: u16,
    gdt_selector: SegmentSelector,
    options: EntryOptions,
    isr_mid: u16,
    isr_high: u32,
    reserved: u32,
}

impl IDTEntry {
    /// The low 16 bits of the handler address.
    pub closed spec fn spec_isr_low(self) -> u16 {
        self.isr_low
    }

    /// The middle 16 bits of the handler address.
    pub closed spec fn spec_isr_mid(self) -> u16 {
        self.isr_mid
    }

    /// The high 32 bits of the handler address.
    pub closed spec fn spec_isr_high(self) -> u32 {
        self.isr_high
    }

    /// The selector of the code segment the handler runs in.
    pub closed spec fn spec_gdt_selector(self) -> SegmentSelector {
        self.gdt_selector
    }

    /// The options word of the entry.
    pub closed spec fn spec_options(self) -> EntryOptions {
        self.options
    }

    /// Returns the low 16 bits of the handler address.
    pub fn isr_low(self) -> (r: u16)
        ensures
            r == self.spec_isr_low(),
    {
        self.isr_low
    }

    /// Returns the middle 16 bits of the handler address.
    pub fn isr_mid(self) -> (r: u16)
        ensures
            r == self.spec_isr_mid(),
    {
        self.isr_mid
    }

    /// Returns the high 32 bits of the handler address.
    pub fn isr_high(self) -> (r: u32)
        ensures
            r == self.spec_isr_high(),
    {
        self.isr_high
    }

    /// Returns the selector of the code segment the handler runs in.
    pub fn gdt_selector(self) -> (r: SegmentSelector)
        ensures
            r == self.spec_gdt_selector(),
    {
        self.gdt_selector
    }

    /// Returns the options word of the entry.
    pub fn options(self) -> (r: EntryOptions)
        ensures
            r == self.spec_options(),
    {
        self.options
    }

    /// Creates an empty IDT entry, used for interrupts that don't have
    /// handlers.
    ///
    /// These should be replaced with some sort of catch-all in the
    /// actual IDT, but this is valid for static initialization: null
    /// selector, disabled options, zero address.
    pub fn missing() -> (r: Self)
        ensures
            r.spec_isr_low() == 0,
            r.spec_isr_mid() == 0,
            r.spec_isr_high() == 0,
            r.spec_gdt_selector().spec_raw() == 0,
            r.spec_options().spec_raw() == 0x0E00,
    {
        IDTEntry {
            isr_low: 0,
            gdt_selector: gdt::null(),
            options: EntryOptions::disabled_ring0(),
            isr_mid: 0,
            isr_high: 0,
            reserved: 0,
        }
    }

    /// Creates an active IDT entry whose callback is the handler at the
    /// given address: the address is split 16/16/32 across the entry,
    /// the kernel code segment is selected, and the present bit is set.
    pub fn with_handler(address: u64) -> (r: Self)
        ensures
            r.spec_isr_low() == (address & 0xFFFF) as u16,
            r.spec_isr_mid() == ((address >> 16) & 0xFFFF) as u16,
            r.spec_isr_high() == ((address >> 32) & 0xFFFF_FFFF) as u32,
            r.spec_gdt_selector().spec_raw() == 0x28,
            r.spec_options().spec_raw() == 0x8E00,
    {
        let lo = (address & 0xFFFF) as u16;
        let mi = ((address >> 16) & 0xFFFF) as u16;
        let hi = ((address >> 32) & 0xFFFF_FFFF) as u32;
        proof {
            assert((0x0E00u16 & 0x7FFFu16) | (1u16 << 15) == 0x8E00u16) by (bit_vector);
        }
        IDTEntry {
            isr_low: lo,
            gdt_selector: gdt::cs(),
            options: EntryOptions::disabled_ring0().with_present(true),
            isr_mid: mi,
            isr_high: hi,
            reserved: 0,
        }
    }
}

} // verus!
