//! Segment-selector encoding for the global descriptor table.

use vstd::prelude::*;

verus! {

/// The CPU privilege level that a selector encodes.
///
/// Only ring 0 and ring 3 are used by the kernel; the two intermediate
/// rings have no role in the design.
#[derive(Copy, Clone, Debug)]
pub enum Privilege {
    Ring0,
    Ring3,
}

impl Privilege {
    /// The two-bit hardware encoding of the privilege level.
    pub open spec fn spec_bits(self) -> u16 {
        match self {
            Privilege::Ring0 => 0,
            Privilege::Ring3 => 3,
        }
    }

    /// Returns the two-bit hardware encoding of the privilege level.
    pub fn bits(self) -> (r: u16)
        ensures
            r == self.spec_bits(),
    {
        match self {
            Privilege::Ring0 => 0,
            Privilege::Ring3 => 3,
        }
    }
}

/// Models a segment selector, as defined in the processor manuals
/// and used by the interrupt descriptor table.
#[derive(Copy, Clone)]
pub struct SegmentSelector {
    raw: u16,
}

impl SegmentSelector {
    /// The encoded 16-bit selector value.
    pub closed spec fn spec_raw(self) -> u16 {
        self.raw
    }

    /// Creates a segment selector that uses the GDT, referring to the
    /// entry at a given index and privilege level.
    ///
    /// The GDT index occupies bits 3..15, bit 2 is clear to select the
    /// GDT rather than the LDT, and the ring level sits in bits 0..1.
    pub fn for_gdt(index: u8, privilege: Privilege) -> (r: Self)
        ensures
            r.spec_raw() == ((index as u16) << 3) | privilege.spec_bits(),
    {
        Self { raw: ((index as u16) << 3) | privilege.bits() }
    }

    /// Returns the encoded 16-bit selector value.
    pub fn raw(self) -> (r: u16)
        ensures
            r == self.spec_raw(),
    {
        self.raw
    }
}

/// Returns the segment selector that maps to the kernel's code segment.
///
/// The entry index is fixed by the GDT that the bootloader installs.
pub fn cs() -> (r: SegmentSelector)
    ensures
        r.spec_raw() == 0x28,
{
    proof {
        assert(((5u16 << 3) | 0u16) == 0x28) by (bit_vector);
    }
    SegmentSelector::for_gdt(5, Privilege::Ring0)
}

/// An invalid selector referring to the null segment.
pub fn null() -> (r: SegmentSelector)
    ensures
        r.spec_raw() == 0,
{
    proof {
        assert(((0u16 << 3) | 0u16) == 0u16) by (bit_vector);
    }
    SegmentSelector::for_gdt(0, Privilege::Ring0)
}

} // verus!
