//! Diagnostic lines: `<SEVERITY> [<timestamp_ms>] <message>\n`, with the
//! timestamp taken from the free-running timer.

use vstd::prelude::*;
use vstd::string::*;
use crate::text::{decimal_of, push_decimal};

verus! {

/// Frequency of the timer in Hertz, used to turn ticks into milliseconds.
/// It must match the platform's timer.
pub const CPU_FREQ: u64 = 10_000_000;

/// Milliseconds since boot for a timer reading: `ticks * 1000 / CPU_FREQ`,
/// truncated.
pub open spec fn spec_timestamp_ms(ticks: usize) -> int {
    (ticks * 1000) / (CPU_FREQ as int)
}

/// Milliseconds since boot for a timer reading, `ticks * 1000 / CPU_FREQ`
/// truncated. Exact for every reading: the product is never formed in full.
pub fn timestamp_ms(ticks: usize) -> (r: u64)
    ensures
        r == spec_timestamp_ms(ticks),
{
    let t = ticks as u64;
    let q = t / CPU_FREQ;
    let rem = t % CPU_FREQ;
    proof {
        let f = CPU_FREQ as int;
        let ti = t as int;
        let qi = q as int;
        let ri = rem as int;
        assert(ti == qi * f + ri) by (nonlinear_arith)
            requires
                qi == ti / f,
                ri == ti % f,
                f > 0,
        ;
        assert((ti * 1000) / f == qi * 1000 + (ri * 1000) / f) by (nonlinear_arith)
            requires
                ti == qi * f + ri,
                0 <= ri < f,
                qi >= 0,
                f > 0,
        ;
    }
    q * 1000 + (rem * 1000) / CPU_FREQ
}

/// The timestamp never goes backwards while the timer does not.
pub proof fn lemma_timestamp_monotonic(earlier: usize, later: usize)
    requires
        earlier <= later,
    ensures
        spec_timestamp_ms(earlier) <= spec_timestamp_ms(later),
{
    vstd::arithmetic::div_mod::lemma_div_is_ordered(
        earlier * 1000,
        later * 1000,
        CPU_FREQ as int,
    );
}

/// Severity of a diagnostic line.
#[derive(Clone, Copy, Debug, PartialEq, Eq, Structural)]
pub enum Level {
    Info,
    Warn,
    Error,
}

impl Level {
    /// The tag that opens a line of this severity.
    pub open spec fn spec_tag(self) -> Seq<char> {
        match self {
            Level::Info => "[INF]"@,
            Level::Warn => "[WRN]"@,
            Level::Error => "[ERR]"@,
        }
    }

    /// The tag that opens a line of this severity.
    pub fn tag(self) -> (r: &'static str)
        ensures
            r@ == self.spec_tag(),
    {
        match self {
            Level::Info => "[INF]",
            Level::Warn => "[WRN]",
            Level::Error => "[ERR]",
        }
    }
}

/// The diagnostic line for `message` at severity `level`, read at timer
/// value `ticks`.
pub open spec fn spec_log_line(level: Level, ticks: usize, message: Seq<char>) -> Seq<char> {
    level.spec_tag() + " ["@ + decimal_of(spec_timestamp_ms(ticks) as nat) + "] "@ + message
        + "\n"@
}

/// Renders one diagnostic line: severity tag, timestamp in milliseconds in
/// brackets, the message, and a line end.
pub fn log_line(level: Level, ticks: usize, message: &str) -> (r: String)
    ensures
        r@ == spec_log_line(level, ticks, message@),
{
    let mut out = String::from_str(level.tag());
    out.append(" [");
    push_decimal(&mut out, timestamp_ms(ticks));
    out.append("] ");
    out.append(message);
    out.append("\n");
    assert(out@ =~= spec_log_line(level, ticks, message@));
    out
}

} // verus!
