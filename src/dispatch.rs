//! The trap dispatcher's decisions: what is reported for a trap, how its
//! cause is classified, and that every trap ends in termination.

use vstd::prelude::*;
use vstd::string::*;
use crate::logger::{Level, log_line, spec_log_line};
use crate::text::{hex_of, zero_padded, push_hex, push_hex_padded};
use crate::traps::{Trap, classify, spec_classify};

verus! {

/// Width, in digits, of every register value in a trap report.
pub const REGISTER_DIGITS: usize = 8;

/// The registers captured at trap entry, in the order the trap vector hands
/// them over.
#[derive(Clone, Copy, Debug, PartialEq, Eq, Structural)]
pub struct TrapContext {
    /// Address of the trapping instruction.
    pub mepc: usize,
    /// Trap value, such as the faulting address.
    pub mtval: usize,
    /// Raw trap cause code.
    pub mcause: usize,
    /// Hardware thread that trapped.
    pub mhartid: usize,
    /// Machine status at the trap.
    pub mstatus: usize,
    /// Machine scratch register.
    pub mscratch: usize,
}

/// The dispatcher's two states. `Terminated` is absorbing.
#[derive(Clone, Copy, Debug, PartialEq, Eq, Structural)]
pub enum DispatchState {
    Dispatching,
    Terminated,
}

impl DispatchState {
    /// The state after one step: every step ends in `Terminated`.
    pub open spec fn spec_step(self) -> DispatchState {
        DispatchState::Terminated
    }

    /// Takes one step of the dispatcher.
    pub fn step(self) -> (r: DispatchState)
        ensures
            r == self.spec_step(),
    {
        DispatchState::Terminated
    }
}

/// A register value as it stands in a report: hexadecimal, zero-padded to
/// eight digits.
pub open spec fn register_text(v: usize) -> Seq<char> {
    zero_padded(hex_of(v as nat), REGISTER_DIGITS as nat)
}

/// The message that lists the whole trap context.
pub open spec fn spec_trap_summary(ctx: TrapContext) -> Seq<char> {
    "Machine trap. MEPC: 0x"@ + register_text(ctx.mepc) + " - MTVAL: 0x"@ + register_text(ctx.mtval)
        + " - MCAUSE: 0x"@ + register_text(ctx.mcause) + " - MHARTID: 0x"@ + register_text(
        ctx.mhartid,
    ) + " - MSTATUS: 0x"@ + register_text(ctx.mstatus) + " - MSCRATCH: 0x"@ + register_text(
        ctx.mscratch,
    )
}

/// The message handed to the termination path for a cause code: the
/// classified cause by name, or the raw code when it is unrecognized.
pub open spec fn spec_fatal_message(code: usize) -> Seq<char> {
    match spec_classify(code) {
        Some(t) => "Unhandled trap: "@ + t.spec_name() + "."@,
        None => "Unrecognized trap: 0x"@ + hex_of(code as nat),
    }
}

/// Appends `label` and then `v` as report text.
fn push_register(out: &mut String, label: &str, v: usize)
    ensures
        final(out)@ == old(out)@ + label@ + register_text(v),
{
    out.append(label);
    push_hex_padded(out, v as u64, REGISTER_DIGITS);
    assert(final(out)@ =~= old(out)@ + label@ + register_text(v));
}

/// The message that lists the whole trap context, each register as eight
/// or more hexadecimal digits.
pub fn trap_summary(ctx: &TrapContext) -> (r: String)
    ensures
        r@ == spec_trap_summary(*ctx),
{
    let mut out = String::new();
    push_register(&mut out, "Machine trap. MEPC: 0x", ctx.mepc);
    push_register(&mut out, " - MTVAL: 0x", ctx.mtval);
    push_register(&mut out, " - MCAUSE: 0x", ctx.mcause);
    push_register(&mut out, " - MHARTID: 0x", ctx.mhartid);
    push_register(&mut out, " - MSTATUS: 0x", ctx.mstatus);
    push_register(&mut out, " - MSCRATCH: 0x", ctx.mscratch);
    assert(out@ =~= spec_trap_summary(*ctx));
    out
}

/// The message for the termination path, given the classification of
/// `code`.
pub fn fatal_message(code: usize, cause: Option<Trap>) -> (r: String)
    requires
        cause == spec_classify(code),
    ensures
        r@ == spec_fatal_message(code),
{
    match cause {
        Some(t) => {
            let out = String::from_str("Unhandled trap: ").concat(t.name()).concat(".");
            out
        },
        None => {
            let mut out = String::from_str("Unrecognized trap: 0x");
            push_hex(&mut out, code as u64);
            out
        },
    }
}

/// What the dispatcher decided for one trap.
pub struct TrapReport {
    /// The diagnostic line that lists the trap context.
    pub record: String,
    /// The classified cause, `None` when the code is unrecognized.
    pub cause: Option<Trap>,
    /// The message handed to the termination path.
    pub fatal_message: String,
    /// The state the dispatcher ends in.
    pub state: DispatchState,
}

/// Handles one trap: reports the context as an info line read at timer
/// value `ticks`, classifies the cause, and terminates whatever the cause
/// was. No trap is returned from.
pub fn dispatch(ctx: &TrapContext, ticks: usize) -> (r: TrapReport)
    ensures
        r.record@ == spec_log_line(Level::Info, ticks, spec_trap_summary(*ctx)),
        r.cause == spec_classify(ctx.mcause),
        r.fatal_message@ == spec_fatal_message(ctx.mcause),
        r.state == DispatchState::Dispatching.spec_step(),
        r.state == DispatchState::Terminated,
{
    let summary = trap_summary(ctx);
    let record = log_line(Level::Info, ticks, summary.as_str());
    let cause = classify(ctx.mcause);
    let fatal_message = fatal_message(ctx.mcause, cause);
    TrapReport { record, cause, fatal_message, state: DispatchState::Dispatching.step() }
}

/// The dispatcher is deterministic and always terminates: the cause and the
/// fatal message depend on the cause code alone, an identical context read
/// at the same timer value gives an identical record, and once terminated
/// the dispatcher never leaves that state.
pub proof fn lemma_dispatch_deterministic(a: TrapContext, b: TrapContext, ticks_a: usize, ticks_b: usize)
    ensures
        a.mcause == b.mcause ==> spec_classify(a.mcause) == spec_classify(b.mcause),
        a.mcause == b.mcause ==> spec_fatal_message(a.mcause) == spec_fatal_message(b.mcause),
        a == b ==> spec_trap_summary(a) == spec_trap_summary(b),
        a == b && ticks_a == ticks_b ==> spec_log_line(Level::Info, ticks_a, spec_trap_summary(a))
            == spec_log_line(Level::Info, ticks_b, spec_trap_summary(b)),
        DispatchState::Dispatching.spec_step() == DispatchState::Terminated,
        DispatchState::Terminated.spec_step() == DispatchState::Terminated,
{
}

} // verus!
