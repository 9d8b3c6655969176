//! The serial logger: severity labels and log-line rendering.
//!
//! This is the initial logger, before the kernel has been able to set
//! anything up; it is meant to catch anything after the bootloader passes
//! control.  The logger renders each record into one line of bytes — the
//! severity label, the target, the source location and the message — and
//! hands the bytes to the serial backend.  Rendering is pure and verified
//! here; pushing the bytes over the wire, and registering the logger with
//! the logging facade, is boot-code territory.
//!
//! Flushing does nothing, as this logger is not buffered.

use vstd::prelude::*;

verus! {

/// The severity of a log record.
#[derive(Copy, Clone, PartialEq, Eq, Structural, Debug)]
pub enum LogLevel {
    Error,
    Warn,
    Info,
    Debug,
    Trace,
}

/// The fixed-width label a severity renders as.
pub open spec fn spec_level_label(level: LogLevel) -> Seq<u8> {
    match level {
        LogLevel::Error => seq![('[' as u8), ('e' as u8), ('r' as u8), ('r' as u8), ('o' as u8), ('r' as u8), ('!' as u8), (']' as u8)],
        LogLevel::Warn => seq![('[' as u8), (' ' as u8), ('w' as u8), ('a' as u8), ('r' as u8), ('n' as u8), (' ' as u8), (']' as u8)],
        LogLevel::Info => seq![('[' as u8), (' ' as u8), ('i' as u8), ('n' as u8), ('f' as u8), ('o' as u8), (' ' as u8), (']' as u8)],
        LogLevel::Debug => seq![('[' as u8), ('d' as u8), ('e' as u8), ('b' as u8), ('u' as u8), ('g' as u8), ('!' as u8), (']' as u8)],
        LogLevel::Trace => seq![('[' as u8), ('t' as u8), ('r' as u8), ('a' as u8), ('c' as u8), ('e' as u8), ('!' as u8), (']' as u8)],
    }
}

/// The decimal rendering of a number, most-significant digit first, with
/// no leading zeros (zero itself renders as one digit).
pub open spec fn spec_decimal(n: nat) -> Seq<u8>
    decreases n,
{
    if n < 10 {
        seq![(('0' as u8) + n) as u8]
    } else {
        spec_decimal(n / 10).push((('0' as u8) + (n % 10)) as u8)
    }
}

/// One rendered log line:
/// `<label> [<target> at <file>:<line>]: <message> \n`.
pub open spec fn spec_log_line(
    level: LogLevel,
    target: Seq<u8>,
    file: Seq<u8>,
    line: u32,
    message: Seq<u8>,
) -> Seq<u8> {
    spec_level_label(level) + seq![(' ' as u8), ('[' as u8)] + target + seq![(' ' as u8), ('a' as u8), ('t' as u8), (' ' as u8)] + file
        + seq![(':' as u8)] + spec_decimal(line as nat) + seq![(']' as u8), (':' as u8), (' ' as u8)] + message + seq![
        (' ' as u8),
        ('\n' as u8),
    ]
}

/// Renders the severity label.
pub fn level_label(level: LogLevel) -> (r: Vec<u8>)
    ensures
        r@ == spec_level_label(level),
{
    let mut v: Vec<u8> = Vec::new();
    match level {
        LogLevel::Error => {
            v.push(('[' as u8));
            v.push(('e' as u8));
            v.push(('r' as u8));
            v.push(('r' as u8));
            v.push(('o' as u8));
            v.push(('r' as u8));
            v.push(('!' as u8));
            v.push((']' as u8));
        },
        LogLevel::Warn => {
            v.push(('[' as u8));
            v.push((' ' as u8));
            v.push(('w' as u8));
            v.push(('a' as u8));
            v.push(('r' as u8));
            v.push(('n' as u8));
            v.push((' ' as u8));
            v.push((']' as u8));
        },
        LogLevel::Info => {
            v.push(('[' as u8));
            v.push((' ' as u8));
            v.push(('i' as u8));
            v.push(('n' as u8));
            v.push(('f' as u8));
            v.push(('o' as u8));
            v.push((' ' as u8));
            v.push((']' as u8));
        },
        LogLevel::Debug => {
            v.push(('[' as u8));
            v.push(('d' as u8));
            v.push(('e' as u8));
            v.push(('b' as u8));
            v.push(('u' as u8));
            v.push(('g' as u8));
            v.push(('!' as u8));
            v.push((']' as u8));
        },
        LogLevel::Trace => {
            v.push(('[' as u8));
            v.push(('t' as u8));
            v.push(('r' as u8));
            v.push(('a' as u8));
            v.push(('c' as u8));
            v.push(('e' as u8));
            v.push(('!' as u8));
            v.push((']' as u8));
        },
    }
    proof {
        assert(v@ =~= spec_level_label(level));
    }
    v
}

/// Renders a number in decimal, most-significant digit first.
pub fn decimal_digits(n: u32) -> (r: Vec<u8>)
    ensures
        r@ == spec_decimal(n as nat),
    decreases n,
{
    if n < 10 {
        let mut v: Vec<u8> = Vec::new();
        v.push(('0' as u8) + (n as u8));
        proof {
            assert(v@ =~= spec_decimal(n as nat));
        }
        v
    } else {
        let mut v = decimal_digits(n / 10);
        v.push(('0' as u8) + ((n % 10) as u8));
        v
    }
}

/// Appends all bytes of `src` to `dst`.
fn push_all(dst: &mut Vec<u8>, src: &Vec<u8>)
    ensures
        final(dst)@ == old(dst)@ + src@,
{
    let ghost orig = dst@;
    let n = src.len();
    let mut i: usize = 0;
    while i < n
        invariant
            i <= n,
            n == src.len(),
            dst@ == orig + src@.take(i as int),
        decreases n - i,
    {
        let v = src[i];
        dst.push(v);
        proof {
            assert(dst@ =~= orig + src@.take(i + 1));
        }
        i = i + 1;
    }
    proof {
        assert(orig + src@.take(n as int) =~= orig + src@);
    }
}

/// A logger that outputs exclusively to the kernel serial backend.
///
/// The logger holds no state of its own; the serial port it writes to is
/// guarded by its own lock.
#[derive(Copy, Clone, Debug)]
pub struct KSerialLogger;

impl KSerialLogger {
    /// The logger accepts records of every severity.
    pub fn enabled(&self) -> (r: bool)
        ensures
            r,
    {
        true
    }

    /// Renders one record into the line of bytes that goes to the serial
    /// port.
    pub fn render(
        &self,
        level: LogLevel,
        target: &Vec<u8>,
        file: &Vec<u8>,
        line: u32,
        message: &Vec<u8>,
    ) -> (r: Vec<u8>)
        ensures
            r@ == spec_log_line(level, target@, file@, line, message@),
    {
        let mut out = level_label(level);
        out.push((' ' as u8));
        out.push(('[' as u8));
        push_all(&mut out, target);
        out.push((' ' as u8));
        out.push(('a' as u8));
        out.push(('t' as u8));
        out.push((' ' as u8));
        push_all(&mut out, file);
        out.push((':' as u8));
        let digits = decimal_digits(line);
        push_all(&mut out, &digits);
        out.push((']' as u8));
        out.push((':' as u8));
        out.push((' ' as u8));
        push_all(&mut out, message);
        out.push((' ' as u8));
        out.push(('\n' as u8));
        proof {
            assert(out@ =~= spec_log_line(level, target@, file@, line, message@));
        }
        out
    }

    /// Flushing does nothing: the logger is not buffered.
    pub fn flush(&self) {
    }
}

} // verus!
