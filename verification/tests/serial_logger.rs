use ksupport::interrupts::CoreInterrupts;
use ksupport::klog::decimal_digits;
use ksupport::klog::level_label;
use ksupport::klog::KSerialLogger;
use ksupport::klog::LogLevel;
use ksupport::konce::KSpinOnceCell;
use ksupport::kserial::serial;
use ksupport::kserial::serial_init;
use ksupport::kserial::SerialPortX86_64;

#[test]
fn com1_register_offsets() {
    let port = SerialPortX86_64::default_com1();
    assert_eq!(port.port_data(), 0x3F8);
    assert_eq!(port.port_interrupt_enable(), 0x3F9);
    assert_eq!(port.port_fifo_control(), 0x3FA);
    assert_eq!(port.port_line_ctrl(), 0x3FB);
    assert_eq!(port.port_modem_ctrl(), 0x3FC);
    assert_eq!(port.port_line_status(), 0x3FD);
}

#[test]
fn custom_port_offsets() {
    let port = SerialPortX86_64::with_port(0x2F8);
    assert_eq!(port.port_data(), 0x2F8);
    assert_eq!(port.port_line_status(), 0x2FD);
}

#[test]
fn line_status_bits() {
    assert!(SerialPortX86_64::is_data_ready(0b0000_0001));
    assert!(!SerialPortX86_64::is_data_ready(0b0000_0010));
    assert!(SerialPortX86_64::is_transmission_buffer_empty(0b0010_0000));
    assert!(!SerialPortX86_64::is_transmission_buffer_empty(0b0001_0000));
    assert!(SerialPortX86_64::is_data_ready(0b0010_0001));
}

#[test]
fn serial_cell_installs_once() {
    let mut irq = CoreInterrupts::startup(true);
    let mut cell = KSpinOnceCell::uninit();
    serial_init(&mut cell, SerialPortX86_64::default_com1(), &mut irq);
    serial_init(&mut cell, SerialPortX86_64::with_port(0x2F8), &mut irq);
    let lock = serial(&cell, &mut irq);
    let _ = lock;
    assert!(irq.enabled());
}

#[test]
fn level_labels_are_fixed_width() {
    assert_eq!(level_label(LogLevel::Error), b"[error!]");
    assert_eq!(level_label(LogLevel::Warn), b"[ warn ]");
    assert_eq!(level_label(LogLevel::Info), b"[ info ]");
    assert_eq!(level_label(LogLevel::Debug), b"[debug!]");
    assert_eq!(level_label(LogLevel::Trace), b"[trace!]");
}

#[test]
fn decimal_rendering() {
    assert_eq!(decimal_digits(0), b"0");
    assert_eq!(decimal_digits(7), b"7");
    assert_eq!(decimal_digits(10), b"10");
    assert_eq!(decimal_digits(409), b"409");
    assert_eq!(decimal_digits(u32::MAX), b"4294967295");
}

#[test]
fn rendered_line_matches_the_format() {
    let logger = KSerialLogger;
    assert!(logger.enabled());
    let line = logger.render(
        LogLevel::Info,
        &b"kernel".to_vec(),
        &b"main.rs".to_vec(),
        42,
        &b"hello".to_vec(),
    );
    assert_eq!(line, b"[ info ] [kernel at main.rs:42]: hello \n");
    logger.flush();
}

#[test]
fn rendered_line_for_unknown_location() {
    // what the logger emits when a record carries no file or line
    let logger = KSerialLogger;
    let line = logger.render(
        LogLevel::Error,
        &b"boot".to_vec(),
        &b"<unknown>".to_vec(),
        0,
        &b"kernel panic!".to_vec(),
    );
    assert_eq!(line, b"[error!] [boot at <unknown>:0]: kernel panic! \n");
}
