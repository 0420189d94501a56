//! The lines written to the system log table: errors reported by hand and
//! panics caught by the process-wide hook.

use vstd::prelude::*;
use crate::numbers::{decimal_digits, u32_to_text};

verus! {

/// A stand-in for a captured backtrace; the build carries no backtrace
/// support, so it holds nothing and prints as nothing.
#[derive(Clone, Copy, Debug)]
pub struct Backtrace;

impl Backtrace {
    pub fn new() -> (b: Backtrace)
        ensures
            b == Backtrace,
    {
        Backtrace
    }
}

/// Where a panic happened, as reported by the panic hook.
#[derive(Debug)]
pub struct PanicLocation {
    pub file: String,
    pub line: u32,
    pub column: u32,
}

/// The log line of an error reported by hand.
pub open spec fn manual_log_spec(error_type: Seq<char>, details: Seq<char>, error_message: Seq<char>) -> Seq<char> {
    "["@ + error_type + "] details: '"@ + details + "' - error_message: '"@ + error_message + "'"@
}

/// The log line of an error reported by hand:
/// `[<type>] details: '<details>' - error_message: '<message>'`.
pub fn manual_log_line(error_type: &str, details: &str, error_message: &str) -> (res: String)
    ensures
        res@ == manual_log_spec(error_type@, details@, error_message@),
{
    let mut s = String::from_str("[");
    s.append(error_type);
    s.append("] details: '");
    s.append(details);
    s.append("' - error_message: '");
    s.append(error_message);
    s.append("'");
    s
}

/// The name under which a thread is logged: its own, or `unnamed`.
pub fn thread_label(name: Option<&str>) -> (res: String)
    ensures
        res@ == match name {
            Some(n) => n@,
            None => "unnamed"@,
        },
{
    match name {
        Some(n) => String::from_str(n),
        None => String::from_str("unnamed"),
    }
}

/// The message of a panic: its text payload, or `Box<Any>` when the
/// payload is not text.
pub fn panic_message(payload: Option<&str>) -> (res: String)
    ensures
        res@ == match payload {
            Some(p) => p@,
            None => "Box<Any>"@,
        },
{
    match payload {
        Some(p) => String::from_str(p),
        None => String::from_str("Box<Any>"),
    }
}

/// The log line of a caught panic.
pub open spec fn panic_log_spec(thread: Seq<char>, message: Seq<char>, location: Option<(Seq<char>, u32, u32)>) -> Seq<char> {
    match location {
        Some((file, line, column)) => "[Panic]-thread '"@ + thread + "' panicked at '"@ + message
            + "': "@ + file + ":"@ + decimal_digits(line as nat) + ":"@ + decimal_digits(
            column as nat,
        ) + " "@,
        None => "[Panic]-thread '"@ + thread + "' panicked at '"@ + message + "' "@,
    }
}

/// The log line of a caught panic, with its location when the hook knows it:
/// `[Panic]-thread '<thread>' panicked at '<message>': <file>:<line>:<column> `.
pub fn panic_log_line(thread: &str, message: &str, location: &Option<PanicLocation>) -> (res: String)
    ensures
        res@ == panic_log_spec(
            thread@,
            message@,
            match location {
                Some(l) => Some((l.file@, l.line, l.column)),
                None => None,
            },
        ),
{
    let mut s = String::from_str("[Panic]-thread '");
    s.append(thread);
    s.append("' panicked at '");
    s.append(message);
    match location {
        Some(l) => {
            s.append("': ");
            s.append(l.file.as_str());
            s.append(":");
            let line = u32_to_text(l.line);
            s.append(line.as_str());
            s.append(":");
            let column = u32_to_text(l.column);
            s.append(column.as_str());
            s.append(" ");
        },
        None => {
            s.append("' ");
        },
    }
    s
}

} // verus!
