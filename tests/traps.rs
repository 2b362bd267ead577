use rvkernel::traps::{Trap, classify, interrupt_tag, tag_for_width};

const ALL: [Trap; 20] = [
    Trap::InstructionMisaligned,
    Trap::InstructionAccessFault,
    Trap::IllegalInstruction,
    Trap::Breakpoint,
    Trap::LoadMisaligned,
    Trap::LoadAccessFault,
    Trap::StoreMisaligned,
    Trap::StoreAccessFault,
    Trap::UserEnvCall,
    Trap::SupervisorEnvCall,
    Trap::MachineEnvCall,
    Trap::InstructionPageFault,
    Trap::LoadPageFault,
    Trap::StorePageFault,
    Trap::SupervisorSoftInterrupt,
    Trap::MachineSoftInterrupt,
    Trap::SupervisorTimerInterrupt,
    Trap::MachineTimerInterrupt,
    Trap::SupervisorExternalInterrupt,
    Trap::MachineExternalInterrupt,
];

#[test]
fn every_defined_cause_classifies_to_itself() {
    for t in ALL {
        assert_eq!(classify(t.code()), Some(t));
    }
}

#[test]
fn cause_codes_are_distinct() {
    for (i, a) in ALL.iter().enumerate() {
        for b in ALL.iter().skip(i + 1) {
            assert_ne!(a.code(), b.code());
        }
    }
}

#[test]
fn exception_codes_are_their_ordinals() {
    assert_eq!(Trap::InstructionMisaligned.code(), 0);
    assert_eq!(Trap::IllegalInstruction.code(), 2);
    assert_eq!(Trap::SupervisorEnvCall.code(), 9);
    assert_eq!(Trap::MachineEnvCall.code(), 11);
    assert_eq!(Trap::StorePageFault.code(), 15);
}

#[test]
fn interrupt_codes_carry_the_top_bit() {
    let top = 1usize << (usize::BITS - 1);
    assert_eq!(Trap::SupervisorSoftInterrupt.code(), 1 | top);
    assert_eq!(Trap::MachineTimerInterrupt.code(), 7 | top);
    assert_eq!(Trap::MachineExternalInterrupt.code(), 11 | top);
    assert!(Trap::MachineTimerInterrupt.is_interrupt());
    assert!(!Trap::Breakpoint.is_interrupt());
}

#[test]
fn reserved_exception_ordinals_are_unrecognized() {
    assert_eq!(classify(10), None);
    assert_eq!(classify(14), None);
}

#[test]
fn one_above_highest_exception_is_unrecognized() {
    assert_eq!(classify(16), None);
    assert_eq!(classify(usize::MAX), None);
}

#[test]
fn interrupt_with_undefined_ordinal_is_unrecognized() {
    let tag = interrupt_tag();
    assert_eq!(classify(tag), None);
    assert_eq!(classify(tag | 2), None);
    assert_eq!(classify(tag | 15), None);
}

#[test]
fn interrupt_ordinal_without_tag_is_an_exception() {
    assert_eq!(classify(7), Some(Trap::StoreAccessFault));
    assert_eq!(classify(interrupt_tag() | 7), Some(Trap::MachineTimerInterrupt));
}

#[test]
fn tag_sits_at_the_top_of_each_width() {
    assert_eq!(tag_for_width(32), 0x8000_0000);
    assert_eq!(tag_for_width(64), 0x8000_0000_0000_0000);
    assert_eq!(tag_for_width(8), 0x80);
    for w in 1..=64u32 {
        let t = tag_for_width(w);
        assert_eq!(t.count_ones(), 1);
        assert_eq!(t.trailing_zeros(), w - 1);
    }
}

#[test]
fn native_tag_follows_word_width() {
    let t = interrupt_tag();
    assert_eq!(t.count_ones(), 1);
    assert_eq!(t.leading_zeros(), 0);
    assert_eq!(t as u64, tag_for_width(usize::BITS));
}

#[test]
fn names_are_symbolic() {
    assert_eq!(Trap::IllegalInstruction.name(), "IllegalInstruction");
    assert_eq!(Trap::MachineExternalInterrupt.name(), "MachineExternalInterrupt");
    assert_eq!(Trap::MachineEnvCall.ordinal(), 11);
}

#[test]
fn interrupt_code_layout() {
    for t in ALL {
        let code = t.code();
        if t.is_interrupt() {
            assert_eq!(code >> (usize::BITS - 1), 1);
            assert_eq!(code ^ interrupt_tag(), t.ordinal());
        } else {
            assert!(code < interrupt_tag());
            assert_eq!(code, t.ordinal());
        }
    }
}
