//! The fatal termination path: the error line written before the hart halts
//! for good. The halt itself is the caller's.

use vstd::prelude::*;
use vstd::string::*;
use crate::logger::{Level, log_line, spec_log_line};
use crate::text::{decimal_of, push_decimal};

verus! {

/// The text of a fatal report for `message`, with the source location
/// `(file, line)` when one is known.
pub open spec fn spec_panic_message(location: Option<(Seq<char>, u32)>, message: Seq<char>) -> Seq<char> {
    match location {
        Some((file, line)) => "Kernel panic at line "@ + decimal_of(line as nat) + ", file "@ + file
            + ": "@ + message,
        None => "Kernel panic: "@ + message,
    }
}

/// A source location as file text and line number.
pub open spec fn location_view(location: Option<(&str, u32)>) -> Option<(Seq<char>, u32)> {
    match location {
        Some((file, line)) => Some((file@, line)),
        None => None,
    }
}

/// The text of a fatal report, with the source location when one is known.
pub fn panic_message(location: Option<(&str, u32)>, message: &str) -> (r: String)
    ensures
        r@ == spec_panic_message(location_view(location), message@),
{
    match location {
        Some((file, line)) => {
            let mut out = String::from_str("Kernel panic at line ");
            push_decimal(&mut out, line as u64);
            out.append(", file ");
            out.append(file);
            out.append(": ");
            out.append(message);
            assert(out@ =~= spec_panic_message(Some((file@, line)), message@));
            out
        },
        None => {
            let out = String::from_str("Kernel panic: ").concat(message);
            out
        },
    }
}

/// The error line emitted by the termination path, read at timer value
/// `ticks`. After it nothing more is written.
pub fn panic_line(ticks: usize, location: Option<(&str, u32)>, message: &str) -> (r: String)
    ensures
        r@ == spec_log_line(
            Level::Error,
            ticks,
            spec_panic_message(location_view(location), message@),
        ),
{
    let text = panic_message(location, message);
    log_line(Level::Error, ticks, text.as_str())
}

} // verus!
