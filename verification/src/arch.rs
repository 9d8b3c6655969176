//! Generic system information handed over by architecture-specific boot
//! code before control transfers to platform-independent kernel code.

use vstd::prelude::*;

verus! {

/// The architecture that the kernel is running on.
#[derive(Copy, Clone, PartialEq, Eq, Structural, Debug)]
pub enum Architecture {
    Aarch64,
    X86_64,
}

/// Generic system information that the kernel gets from the
/// arch-specific boot code.
#[derive(Copy, Clone, Debug)]
pub struct SystemInfo {
    /// The CPU architecture that the kernel is running on, with the
    /// manufacturer string the boot code read from the processor.
    pub cpu: (Architecture, &'static str),
    /// The amount of memory (in bytes) that the host system has
    /// available to it in total, including memory the kernel currently
    /// occupies.
    pub memory: usize,
}

impl SystemInfo {
    /// Bundles what the boot code collected.
    pub fn describe(arch: Architecture, manufacturer: &'static str, memory: usize) -> (r: Self)
        ensures
            r.cpu.0 == arch,
            r.cpu.1 == manufacturer,
            r.memory == memory,
    {
        SystemInfo { cpu: (arch, manufacturer), memory }
    }
}

} // verus!
