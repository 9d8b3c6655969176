//! Kernel-level serial (UART) driver state.
//!
//! The port-register arithmetic and the line-status decisions live here,
//! verified; the privileged `in`/`out` instructions that move bytes over
//! the wire are architecture-specific and live with the boot code, which
//! implements [`SerialBackend`] on top of this module.

use vstd::prelude::*;

use crate::interrupts::CoreInterrupts;
use crate::kmutex::KSpinFairMutex;
use crate::konce::KSpinOnceCell;

verus! {

/// A UART serial backend that can be used for logging.
///
/// This is the generic interface; the actual implementation is chosen at
/// build time based on the target architecture and supplied by the boot
/// code, which is the only place the privileged port instructions can
/// live.
pub trait SerialBackend {
    /// Initializes the serial port correctly.
    fn init(&mut self);

    /// Writes a single byte to the serial backend.
    fn send(&mut self, byte: u8);

    /// Reads a single byte from the serial backend.
    fn recv(&mut self) -> u8;
}

/// Wraps a standard x86-64 serial port, identified by its base I/O port.
///
/// The five control and status registers of the UART sit at fixed
/// offsets from the base port; this type owns that arithmetic.  It is
/// not usable from user mode due to privileged instructions, and must be
/// kept thread and interrupt safe by wrapping it in a lock.
pub struct SerialPortX86_64 {
    port: u16,
}

impl SerialPortX86_64 {
    /// The base I/O port of the UART.
    pub closed spec fn spec_port(self) -> u16 {
        self.port
    }

    /// The base port must leave room for the five register offsets.
    pub open spec fn wf(self) -> bool {
        self.spec_port() + 5 <= u16::MAX
    }

    /// Returns the base I/O port of the UART.
    pub fn port(&self) -> (r: u16)
        ensures
            r == self.spec_port(),
    {
        self.port
    }

    /// Creates a serial port with a given base port number.
    ///
    /// The given port must actually be a serial port of the current CPU,
    /// and must be initialized through [`SerialBackend::init`] before
    /// any bytes are exchanged.
    pub fn with_port(port: u16) -> (r: Self)
        requires
            port + 5 <= u16::MAX,
        ensures
            r.wf(),
            r.spec_port() == port,
    {
        SerialPortX86_64 { port }
    }

    /// Creates a serial port with the default COM1 base port (`0x3F8`).
    pub fn default_com1() -> (r: Self)
        ensures
            r.wf(),
            r.spec_port() == 0x3F8,
    {
        SerialPortX86_64::with_port(0x3F8)
    }

    /// Data register (read-write).
    pub fn port_data(&self) -> (r: u16)
        requires
            self.wf(),
        ensures
            r == self.spec_port() + 0,
    {
        self.port + 0
    }

    /// Interrupt enable register (write-only).
    pub fn port_interrupt_enable(&self) -> (r: u16)
        requires
            self.wf(),
        ensures
            r == self.spec_port() + 1,
    {
        self.port + 1
    }

    /// FIFO control register (write-only).
    pub fn port_fifo_control(&self) -> (r: u16)
        requires
            self.wf(),
        ensures
            r == self.spec_port() + 2,
    {
        self.port + 2
    }

    /// Line control register (write-only).
    pub fn port_line_ctrl(&self) -> (r: u16)
        requires
            self.wf(),
        ensures
            r == self.spec_port() + 3,
    {
        self.port + 3
    }

    /// Modem control register (write-only).
    pub fn port_modem_ctrl(&self) -> (r: u16)
        requires
            self.wf(),
        ensures
            r == self.spec_port() + 4,
    {
        self.port + 4
    }

    /// Line status register (read-only).
    pub fn port_line_status(&self) -> (r: u16)
        requires
            self.wf(),
        ensures
            r == self.spec_port() + 5,
    {
        self.port + 5
    }

    /// Whether a line-status byte reports data waiting to be read: the
    /// least-significant bit is set exactly when a byte is available.
    pub fn is_data_ready(status: u8) -> (r: bool)
        ensures
            r == ((status & 1) != 0),
    {
        (status & 1) != 0
    }

    /// Whether a line-status byte reports room to transmit: bit 5 is set
    /// exactly when the transmission buffer is empty.
    pub fn is_transmission_buffer_empty(status: u8) -> (r: bool)
        ensures
            r == ((status & 0x20) != 0),
    {
        (status & 0x20) != 0
    }
}

/// Installs the serial port into the kernel's once-cell, wrapped in a
/// fresh fair lock.
///
/// This is meant to be called from the boot code for a given
/// architecture, which then initializes the port hardware through the
/// lock; a second installation attempt is rejected by the cell and
/// changes nothing.
pub fn serial_init(
    cell: &mut KSpinOnceCell<KSpinFairMutex<SerialPortX86_64>>,
    port: SerialPortX86_64,
    irq: &mut CoreInterrupts,
)
    ensures
        final(cell).is_full(),
        old(cell).is_empty() ==> {
            &&& final(cell).stored().inv()
            &&& !final(cell).stored().is_locked()
            &&& final(cell).stored().value() == port
        },
        old(cell).is_full() ==> *final(cell) == *old(cell),
        final(irq).is_enabled() == old(irq).is_enabled(),
{
    let _ = cell.set(KSpinFairMutex::new(port), irq);
}

/// Returns a reference to the lock that guards the serial port.
///
/// The cell must have been populated by [`serial_init`] first; reading
/// it earlier would spin forever.
pub fn serial<'a>(
    cell: &'a KSpinOnceCell<KSpinFairMutex<SerialPortX86_64>>,
    irq: &mut CoreInterrupts,
) -> (r: &'a KSpinFairMutex<SerialPortX86_64>)
    requires
        cell.is_full(),
    ensures
        *r == cell.stored(),
        final(irq).is_enabled() == old(irq).is_enabled(),
{
    cell.get(irq)
}

} // verus!
