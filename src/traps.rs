//! The trap-cause catalog: symbolic names for every architecturally defined
//! exception and interrupt, their cause codes, and classification of a raw
//! cause value.

use vstd::prelude::*;

verus! {

/// The interrupt tag for a machine word of `width` bits: a one at the top
/// bit of the word.
pub open spec fn spec_tag_for_width(width: u32) -> u64
    recommends
        1 <= width <= 64,
{
    1u64 << ((width - 1) as u64)
}

/// The interrupt tag for a word of `width` bits, `1 << (width - 1)`.
pub fn tag_for_width(width: u32) -> (r: u64)
    requires
        1 <= width <= 64,
    ensures
        r == spec_tag_for_width(width),
{
    1u64 << ((width - 1) as u64)
}

/// The tag set in every interrupt cause code on this machine.
pub open spec fn spec_interrupt_tag() -> usize {
    spec_tag_for_width(usize::BITS) as usize
}

/// The interrupt tag of the native word, derived from its width.
pub fn interrupt_tag() -> (r: usize)
    ensures
        r == spec_interrupt_tag(),
{
    tag_for_width(usize::BITS) as usize
}

} // verus!

verus! {

/// The tag for a word of `width` bits is the top bit of that word and no
/// other bit.
pub proof fn lemma_tag_is_top_bit(width: u32)
    requires
        1 <= width <= 64,
    ensures
        forall|i: u64|
            i < 64 ==> ((#[trigger] (spec_tag_for_width(width) >> i) & 1 == 1) <==> i == width - 1),
{
    let w = width as u64;
    assert forall|i: u64| i < 64 implies ((spec_tag_for_width(width) >> i) & 1 == 1) <==> i == width - 1 by {
        assert(((1u64 << ((w - 1) as u64)) >> i) & 1 == 1 <==> i == w - 1) by (bit_vector)
            requires
                1 <= w <= 64,
                i < 64,
        ;
    }
}

/// An interrupt cause built for a word of `width` bits from an ordinal
/// below sixteen has the tag at exactly the top bit of that word, nothing
/// above it, and the ordinal in the bits below.
pub proof fn lemma_interrupt_code_for_width(ordinal: u64, width: u32)
    requires
        5 <= width <= 64,
        ordinal < 16,
    ensures
        (ordinal | spec_tag_for_width(width)) >> ((width - 1) as u64) == 1,
        (ordinal | spec_tag_for_width(width)) & ((spec_tag_for_width(width) - 1) as u64) == ordinal,
{
    let w = width as u64;
    assert((ordinal | (1u64 << ((w - 1) as u64))) >> ((w - 1) as u64) == 1) by (bit_vector)
        requires
            5 <= w <= 64,
            ordinal < 16,
    ;
    assert((ordinal | (1u64 << ((w - 1) as u64))) & (((1u64 << ((w - 1) as u64)) - 1) as u64) == ordinal)
        by (bit_vector)
        requires
            5 <= w <= 64,
            ordinal < 16,
    ;
}

/// The native tag sets the top bit of a machine word and no other bit.
pub proof fn lemma_interrupt_tag_is_top_bit()
    ensures
        forall|i: usize|
            i < usize::BITS ==> ((#[trigger] (spec_interrupt_tag() >> i) & 1 == 1) <==> i == usize::BITS - 1),
{
    let t = spec_interrupt_tag();
    assert(spec_interrupt_tag() == 1usize << ((usize::BITS - 1) as usize)) by (bit_vector);
    assert forall|i: usize| i < usize::BITS implies ((t >> i) & 1 == 1) <==> i == usize::BITS - 1 by {
        assert(((t >> i) & 1 == 1) <==> i == usize::BITS - 1) by (bit_vector)
            requires
                t == 1usize << ((usize::BITS - 1) as usize),
                i < usize::BITS,
        ;
    }
}

/// How the tag bit splits the space of cause codes: a code carries the tag
/// exactly when it is at least the tag, removing it is a subtraction, and
/// setting it on a small ordinal is an addition.
pub proof fn lemma_tag_arithmetic()
    ensures
        spec_interrupt_tag() >= 0x8000_0000,
        forall|code: usize| (#[trigger] (code & spec_interrupt_tag()) == 0) <==> code < spec_interrupt_tag(),
        forall|code: usize|
            (code & spec_interrupt_tag()) != 0 ==> #[trigger] (code ^ spec_interrupt_tag()) == code - spec_interrupt_tag(),
        forall|o: usize| o < 16 ==> #[trigger] (o | spec_interrupt_tag()) == o + spec_interrupt_tag(),
{
    let t = spec_interrupt_tag();
    assert(spec_interrupt_tag() == 1usize << ((usize::BITS - 1) as usize)) by (bit_vector);
    assert(t >= 0x8000_0000) by (bit_vector)
        requires
            t == 1usize << ((usize::BITS - 1) as usize),
    ;
    assert forall|code: usize| (code & t) == 0 <==> code < t by {
        assert((code & t) == 0 <==> code < t) by (bit_vector)
            requires
                t == 1usize << ((usize::BITS - 1) as usize),
        ;
    }
    assert forall|code: usize| (code & t) != 0 implies (code ^ t) == code - t by {
        assert((code & t) != 0 ==> (code ^ t) == code - t) by (bit_vector)
            requires
                t == 1usize << ((usize::BITS - 1) as usize),
        ;
    }
    assert forall|o: usize| o < 16 implies (o | t) == o + t by {
        assert(o < 16 ==> (o | t) == o + t) by (bit_vector)
            requires
                t == 1usize << ((usize::BITS - 1) as usize),
        ;
    }
}

} // verus!

verus! {

/// Every architecturally defined trap cause. Exceptions are synchronous and
/// carry no tag; interrupts are asynchronous and carry the interrupt tag.
#[derive(Clone, Copy, Debug, PartialEq, Eq, Structural)]
pub enum Trap {
    /// Instruction address misaligned.
    InstructionMisaligned,
    /// Instruction access fault.
    InstructionAccessFault,
    /// Illegal instruction.
    IllegalInstruction,
    /// Breakpoint.
    Breakpoint,
    /// Load address misaligned.
    LoadMisaligned,
    /// Load access fault.
    LoadAccessFault,
    /// Store address misaligned.
    StoreMisaligned,
    /// Store access fault.
    StoreAccessFault,
    /// Environment call from user mode.
    UserEnvCall,
    /// Environment call from supervisor mode.
    SupervisorEnvCall,
    /// Environment call from machine mode.
    MachineEnvCall,
    /// Instruction page fault.
    InstructionPageFault,
    /// Load page fault.
    LoadPageFault,
    /// Store page fault.
    StorePageFault,
    /// Supervisor software interrupt.
    SupervisorSoftInterrupt,
    /// Machine software interrupt.
    MachineSoftInterrupt,
    /// Supervisor timer interrupt.
    SupervisorTimerInterrupt,
    /// Machine timer interrupt.
    MachineTimerInterrupt,
    /// Supervisor external interrupt.
    SupervisorExternalInterrupt,
    /// Machine external interrupt.
    MachineExternalInterrupt,
}

impl Trap {
    /// The cause's ordinal within its namespace (exceptions or interrupts).
    pub open spec fn spec_ordinal(self) -> usize {
        match self {
            Trap::InstructionMisaligned => 0,
            Trap::InstructionAccessFault => 1,
            Trap::IllegalInstruction => 2,
            Trap::Breakpoint => 3,
            Trap::LoadMisaligned => 4,
            Trap::LoadAccessFault => 5,
            Trap::StoreMisaligned => 6,
            Trap::StoreAccessFault => 7,
            Trap::UserEnvCall => 8,
            Trap::SupervisorEnvCall => 9,
            Trap::MachineEnvCall => 11,
            Trap::InstructionPageFault => 12,
            Trap::LoadPageFault => 13,
            Trap::StorePageFault => 15,
            Trap::SupervisorSoftInterrupt => 1,
            Trap::MachineSoftInterrupt => 3,
            Trap::SupervisorTimerInterrupt => 5,
            Trap::MachineTimerInterrupt => 7,
            Trap::SupervisorExternalInterrupt => 9,
            Trap::MachineExternalInterrupt => 11,
        }
    }

    /// Whether the cause is an asynchronous interrupt.
    pub open spec fn spec_is_interrupt(self) -> bool {
        match self {
            Trap::SupervisorSoftInterrupt => true,
            Trap::MachineSoftInterrupt => true,
            Trap::SupervisorTimerInterrupt => true,
            Trap::MachineTimerInterrupt => true,
            Trap::SupervisorExternalInterrupt => true,
            Trap::MachineExternalInterrupt => true,
            _ => false,
        }
    }

    /// The architectural cause code: the ordinal, with the interrupt tag set
    /// for interrupts.
    pub open spec fn spec_code(self) -> usize {
        if self.spec_is_interrupt() {
            self.spec_ordinal() | spec_interrupt_tag()
        } else {
            self.spec_ordinal()
        }
    }

    /// The symbolic name of the cause.
    pub open spec fn spec_name(self) -> Seq<char> {
        match self {
            Trap::InstructionMisaligned => "InstructionMisaligned"@,
            Trap::InstructionAccessFault => "InstructionAccessFault"@,
            Trap::IllegalInstruction => "IllegalInstruction"@,
            Trap::Breakpoint => "Breakpoint"@,
            Trap::LoadMisaligned => "LoadMisaligned"@,
            Trap::LoadAccessFault => "LoadAccessFault"@,
            Trap::StoreMisaligned => "StoreMisaligned"@,
            Trap::StoreAccessFault => "StoreAccessFault"@,
            Trap::UserEnvCall => "UserEnvCall"@,
            Trap::SupervisorEnvCall => "SupervisorEnvCall"@,
            Trap::MachineEnvCall => "MachineEnvCall"@,
            Trap::InstructionPageFault => "InstructionPageFault"@,
            Trap::LoadPageFault => "LoadPageFault"@,
            Trap::StorePageFault => "StorePageFault"@,
            Trap::SupervisorSoftInterrupt => "SupervisorSoftInterrupt"@,
            Trap::MachineSoftInterrupt => "MachineSoftInterrupt"@,
            Trap::SupervisorTimerInterrupt => "SupervisorTimerInterrupt"@,
            Trap::MachineTimerInterrupt => "MachineTimerInterrupt"@,
            Trap::SupervisorExternalInterrupt => "SupervisorExternalInterrupt"@,
            Trap::MachineExternalInterrupt => "MachineExternalInterrupt"@,
        }
    }

    /// The cause's ordinal within its namespace.
    pub fn ordinal(self) -> (r: usize)
        ensures
            r == self.spec_ordinal(),
    {
        match self {
            Trap::InstructionMisaligned => 0,
            Trap::InstructionAccessFault => 1,
            Trap::IllegalInstruction => 2,
            Trap::Breakpoint => 3,
            Trap::LoadMisaligned => 4,
            Trap::LoadAccessFault => 5,
            Trap::StoreMisaligned => 6,
            Trap::StoreAccessFault => 7,
            Trap::UserEnvCall => 8,
            Trap::SupervisorEnvCall => 9,
            Trap::MachineEnvCall => 11,
            Trap::InstructionPageFault => 12,
            Trap::LoadPageFault => 13,
            Trap::StorePageFault => 15,
            Trap::SupervisorSoftInterrupt => 1,
            Trap::MachineSoftInterrupt => 3,
            Trap::SupervisorTimerInterrupt => 5,
            Trap::MachineTimerInterrupt => 7,
            Trap::SupervisorExternalInterrupt => 9,
            Trap::MachineExternalInterrupt => 11,
        }
    }

    /// Whether the cause is an asynchronous interrupt.
    pub fn is_interrupt(self) -> (r: bool)
        ensures
            r == self.spec_is_interrupt(),
    {
        match self {
            Trap::SupervisorSoftInterrupt => true,
            Trap::MachineSoftInterrupt => true,
            Trap::SupervisorTimerInterrupt => true,
            Trap::MachineTimerInterrupt => true,
            Trap::SupervisorExternalInterrupt => true,
            Trap::MachineExternalInterrupt => true,
            _ => false,
        }
    }

    /// The architectural cause code, as the hardware writes it to `mcause`.
    pub fn code(self) -> (r: usize)
        ensures
            r == self.spec_code(),
    {
        if self.is_interrupt() {
            self.ordinal() | interrupt_tag()
        } else {
            self.ordinal()
        }
    }

    /// The symbolic name of the cause.
    pub fn name(self) -> (r: &'static str)
        ensures
            r@ == self.spec_name(),
    {
        match self {
            Trap::InstructionMisaligned => "InstructionMisaligned",
            Trap::InstructionAccessFault => "InstructionAccessFault",
            Trap::IllegalInstruction => "IllegalInstruction",
            Trap::Breakpoint => "Breakpoint",
            Trap::LoadMisaligned => "LoadMisaligned",
            Trap::LoadAccessFault => "LoadAccessFault",
            Trap::StoreMisaligned => "StoreMisaligned",
            Trap::StoreAccessFault => "StoreAccessFault",
            Trap::UserEnvCall => "UserEnvCall",
            Trap::SupervisorEnvCall => "SupervisorEnvCall",
            Trap::MachineEnvCall => "MachineEnvCall",
            Trap::InstructionPageFault => "InstructionPageFault",
            Trap::LoadPageFault => "LoadPageFault",
            Trap::StorePageFault => "StorePageFault",
            Trap::SupervisorSoftInterrupt => "SupervisorSoftInterrupt",
            Trap::MachineSoftInterrupt => "MachineSoftInterrupt",
            Trap::SupervisorTimerInterrupt => "SupervisorTimerInterrupt",
            Trap::MachineTimerInterrupt => "MachineTimerInterrupt",
            Trap::SupervisorExternalInterrupt => "SupervisorExternalInterrupt",
            Trap::MachineExternalInterrupt => "MachineExternalInterrupt",
        }
    }
}

/// Classification of a raw cause code: the one named cause with that code,
/// or none when no defined cause has it.
pub open spec fn spec_classify(code: usize) -> Option<Trap> {
    if exists|t: Trap| #[trigger] t.spec_code() == code {
        Some(choose|t: Trap| #[trigger] t.spec_code() == code)
    } else {
        None
    }
}

/// No two causes share a code.
pub proof fn lemma_codes_distinct(a: Trap, b: Trap)
    ensures
        a.spec_code() == b.spec_code() ==> a == b,
{
    lemma_tag_arithmetic();
}

/// Classifies a raw cause code. Total: every code gives either the named
/// cause whose code it is, or `None`; an unknown code is never coerced into
/// a neighbouring cause.
pub fn classify(code: usize) -> (r: Option<Trap>)
    ensures
        r == spec_classify(code),
        match r {
            Some(t) => t.spec_code() == code,
            None => forall|t: Trap| #[trigger] t.spec_code() != code,
        },
{
    proof {
        lemma_tag_arithmetic();
    }
    let tag = interrupt_tag();
    let r = if code & tag == 0 {
        match code {
            0 => Some(Trap::InstructionMisaligned),
            1 => Some(Trap::InstructionAccessFault),
            2 => Some(Trap::IllegalInstruction),
            3 => Some(Trap::Breakpoint),
            4 => Some(Trap::LoadMisaligned),
            5 => Some(Trap::LoadAccessFault),
            6 => Some(Trap::StoreMisaligned),
            7 => Some(Trap::StoreAccessFault),
            8 => Some(Trap::UserEnvCall),
            9 => Some(Trap::SupervisorEnvCall),
            11 => Some(Trap::MachineEnvCall),
            12 => Some(Trap::InstructionPageFault),
            13 => Some(Trap::LoadPageFault),
            15 => Some(Trap::StorePageFault),
            _ => None,
        }
    } else {
        match code ^ tag {
            1 => Some(Trap::SupervisorSoftInterrupt),
            3 => Some(Trap::MachineSoftInterrupt),
            5 => Some(Trap::SupervisorTimerInterrupt),
            7 => Some(Trap::MachineTimerInterrupt),
            9 => Some(Trap::SupervisorExternalInterrupt),
            11 => Some(Trap::MachineExternalInterrupt),
            _ => None,
        }
    };
    proof {
        match r {
            Some(t) => {
                assert(t.spec_code() == code);
                let c = choose|u: Trap| #[trigger] u.spec_code() == code;
                lemma_codes_distinct(c, t);
            },
            None => {},
        }
    }
    r
}

/// Classification recognises each defined cause from its own code, and
/// recognises a code only when some defined cause has it.
pub proof fn lemma_classify_round_trip(t: Trap, code: usize)
    ensures
        spec_classify(t.spec_code()) == Some(t),
        spec_classify(code) is None <==> forall|u: Trap| #[trigger] u.spec_code() != code,
{
    let c = choose|u: Trap| #[trigger] u.spec_code() == t.spec_code();
    lemma_codes_distinct(c, t);
}

/// On this machine every interrupt cause code is its ordinal with the top
/// bit of the word set, and every exception cause code lies below that bit.
pub proof fn lemma_code_layout(t: Trap)
    ensures
        t.spec_ordinal() < 16,
        t.spec_is_interrupt() ==> t.spec_code() >> ((usize::BITS - 1) as usize) == 1,
        t.spec_is_interrupt() ==> t.spec_code() ^ spec_interrupt_tag() == t.spec_ordinal(),
        !t.spec_is_interrupt() ==> t.spec_code() < spec_interrupt_tag(),
{
    lemma_tag_arithmetic();
    let o = t.spec_ordinal();
    let tag = spec_interrupt_tag();
    assert(spec_interrupt_tag() == 1usize << ((usize::BITS - 1) as usize)) by (bit_vector);
    assert((o | tag) >> ((usize::BITS - 1) as usize) == 1 && (o | tag) ^ tag == o) by (bit_vector)
        requires
            tag == 1usize << ((usize::BITS - 1) as usize),
            o < 16,
    ;
}

} // verus!
