//! Synchronization core and support utilities for a bare-metal
//! microkernel.
//!
//! The heart of the crate is a family of mutual-exclusion and one-time
//! initialization primitives that kernel subsystems use to guard shared
//! hardware state:
//!
//! - [`spin_mutex::SpinMutex`]: an unfair test-and-test-and-set spin lock;
//! - [`spin_mutex::SpinFairMutex`]: a ticket lock with FIFO acquisition
//!   order;
//! - [`spin_once::SpinOnceCell`]: a cell that is written at most once;
//! - [`kmutex`] and [`konce`]: decorators that additionally suspend
//!   interrupt delivery on the current core for the duration of the
//!   critical section, closing the self-deadlock window that interrupt
//!   handlers would otherwise open.
//!
//! Each primitive carries contracts that pin down what every call does.
//! The guarantees that only make sense under concurrent interleavings are
//! modelled and proved separately, as transition systems over abstract
//! states: [`ticket_protocol`] establishes mutual exclusion, FIFO
//! fairness and release counting for the ticket lock, [`flag_protocol`]
//! establishes mutual exclusion for the flag lock, and [`once_protocol`]
//! establishes that the one-time initialization race has at most one
//! winner and a stable result.
//!
//! The remaining modules are the kernel subsystems built around the
//! primitives — the framebuffer driver, the serial port model, the serial
//! logger, and the descriptor-table encodings — together with two
//! deterministic pseudo-random generators used for test-pattern
//! generation.  Architecture-specific boot code supplies what a verified
//! library cannot contain: the privileged port and interrupt
//! instructions, and the bootloader hand-over.

pub mod arch;
pub mod basic_mutex;
pub mod flag_protocol;
pub mod gdt;
pub mod idt;
pub mod interrupts;
pub mod kframebuffer;
pub mod klog;
pub mod kmutex;
pub mod konce;
pub mod kserial;
pub mod once_protocol;
pub mod spin_mutex;
pub mod spin_once;
pub mod ticket_protocol;
pub mod xorshift128p;
pub mod xoshiro256ss;
