use rvkernel::dispatch::{DispatchState, TrapContext, dispatch, fatal_message, trap_summary};
use rvkernel::traps::{Trap, classify, interrupt_tag};

fn context(mcause: usize) -> TrapContext {
    TrapContext { mepc: 0x8000_0010, mtval: 0, mcause, mhartid: 0, mstatus: 0, mscratch: 0 }
}

#[test]
fn illegal_instruction_scenario() {
    let report = dispatch(&context(2), 10_000_000);
    assert_eq!(report.cause, Some(Trap::IllegalInstruction));
    assert!(report.record.contains("0x80000010"));
    assert!(report.record.starts_with("[INF] [1000] Machine trap. "));
    assert!(report.fatal_message.contains("IllegalInstruction"));
    assert_eq!(report.fatal_message, "Unhandled trap: IllegalInstruction.");
    assert_eq!(report.state, DispatchState::Terminated);
    assert_eq!(report.record.matches('\n').count(), 1);
}

#[test]
fn reserved_cause_scenario() {
    let report = dispatch(&context(10), 0);
    assert_eq!(report.cause, None);
    assert_eq!(report.fatal_message, "Unrecognized trap: 0xa");
    assert!(!report.fatal_message.contains("EnvCall"));
    assert_eq!(report.state, DispatchState::Terminated);
}

#[test]
fn summary_lists_every_register() {
    let ctx = TrapContext {
        mepc: 0x8000_0010,
        mtval: 0xdead,
        mcause: 2,
        mhartid: 1,
        mstatus: 0x1800,
        mscratch: 0x8020_0000,
    };
    assert_eq!(
        trap_summary(&ctx),
        "Machine trap. MEPC: 0x80000010 - MTVAL: 0x0000dead - MCAUSE: 0x00000002 - \
         MHARTID: 0x00000001 - MSTATUS: 0x00001800 - MSCRATCH: 0x80200000"
    );
}

#[test]
fn record_is_one_info_line() {
    let report = dispatch(&context(11), 0);
    assert_eq!(
        report.record,
        "[INF] [0] Machine trap. MEPC: 0x80000010 - MTVAL: 0x00000000 - MCAUSE: 0x0000000b - \
         MHARTID: 0x00000000 - MSTATUS: 0x00000000 - MSCRATCH: 0x00000000\n"
    );
    assert_eq!(report.fatal_message, "Unhandled trap: MachineEnvCall.");
}

#[test]
fn interrupt_scenario() {
    let code = interrupt_tag() | 7;
    let report = dispatch(&context(code), 0);
    assert_eq!(report.cause, Some(Trap::MachineTimerInterrupt));
    assert_eq!(report.fatal_message, "Unhandled trap: MachineTimerInterrupt.");
    assert_eq!(report.state, DispatchState::Terminated);
}

#[test]
fn dispatch_is_deterministic() {
    for code in [0usize, 2, 10, 16, interrupt_tag() | 3, interrupt_tag() | 4] {
        let a = dispatch(&context(code), 123);
        let b = dispatch(&context(code), 123);
        assert_eq!(a.cause, b.cause);
        assert_eq!(a.record, b.record);
        assert_eq!(a.fatal_message, b.fatal_message);
        assert_eq!(a.state, DispatchState::Terminated);
        assert_eq!(b.state, DispatchState::Terminated);
    }
}

#[test]
fn terminated_is_absorbing() {
    assert_eq!(DispatchState::Dispatching.step(), DispatchState::Terminated);
    assert_eq!(DispatchState::Terminated.step(), DispatchState::Terminated);
}

#[test]
fn fatal_message_of_unknown_interrupt() {
    let code = interrupt_tag() | 2;
    let msg = fatal_message(code, classify(code));
    assert!(msg.starts_with("Unrecognized trap: 0x"));
}
