//! The console and clock edge: the two places where the logger touches
//! the outside world directly.

use vstd::prelude::*;
use std::io::Write;
use std::time::SystemTime;

verus! {

/// Relies on std's stdout/writeln: puts one line on the console.
/// Fire-and-forget output; nothing is observable of it afterwards.
#[verifier::external_body]
pub fn print_line(line: &str) {
    let mut out = std::io::stdout();
    let _ = writeln!(out, "{}", line);
}

/// Relies on std's SystemTime::now: microseconds since the unix epoch,
/// or zero for a clock that reads before the epoch. The clock decides
/// the value, so nothing is stated of it.
#[verifier::external_body]
pub fn now_unix_micros() -> u64 {
    match SystemTime::now().duration_since(SystemTime::UNIX_EPOCH) {
        Ok(elapsed) => elapsed.as_micros() as u64,
        Err(_) => 0,
    }
}

} // verus!
