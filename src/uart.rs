//! The diagnostic sink: a UART transmit queue. Bytes are queued in order;
//! the caller moves them to the device, polling its line status register
//! before each one.

use vstd::prelude::*;
use vstd::string::*;

verus! {

/// Base address of the UART's memory-mapped register block.
pub const UART_BASE: usize = 0x1000_0000;

/// Offset of the transmit holding register.
pub const THR_OFFSET: usize = 0;

/// Offset of the line status register.
pub const LSR_OFFSET: usize = 5;

/// Line status bit set while the transmit holding register is empty.
pub const LSR_THR_EMPTY: u8 = 0x20;

/// Whether the transmitter can take a byte, given the line status register.
pub fn transmitter_ready(lsr: u8) -> (r: bool)
    ensures
        r == (lsr & LSR_THR_EMPTY != 0),
{
    lsr & LSR_THR_EMPTY != 0
}

/// A UART seen as an append-only byte sink.
pub struct Uart {
    pending: Vec<u8>,
}

impl View for Uart {
    type V = Seq<u8>;

    /// The bytes written and not yet handed to the device, oldest first.
    closed spec fn view(&self) -> Seq<u8> {
        self.pending@
    }
}

impl Uart {
    /// A UART with nothing queued.
    pub fn new() -> (r: Uart)
        ensures
            r@ == Seq::<u8>::empty(),
    {
        Uart { pending: Vec::new() }
    }

    /// The NS16550A needs no set-up: ready as it comes out of reset.
    pub fn init(&self) {
    }

    /// Queues one byte.
    pub fn putb(&mut self, byte: u8)
        ensures
            final(self)@ == old(self)@.push(byte),
    {
        self.pending.push(byte);
    }

    /// Queues the bytes of `s`, in order.
    pub fn puts(&mut self, s: &str)
        ensures
            final(self)@ == old(self)@ + s.spec_bytes(),
    {
        let bytes = s.as_bytes();
        let n = bytes.len();
        let mut i: usize = 0;
        while i < n
            invariant
                n == bytes@.len(),
                bytes@ == s.spec_bytes(),
                i <= n,
                self@ == old(self)@ + bytes@.subrange(0, i as int),
            decreases n - i,
        {
            self.putb(bytes[i]);
            i = i + 1;
            assert(self@ =~= old(self)@ + bytes@.subrange(0, i as int));
        }
        assert(bytes@.subrange(0, n as int) =~= bytes@);
    }

    /// Hands over every queued byte, oldest first, and empties the queue.
    pub fn take_pending(&mut self) -> (r: Vec<u8>)
        ensures
            r@ == old(self)@,
            final(self)@ == Seq::<u8>::empty(),
    {
        let mut taken = Vec::new();
        std::mem::swap(&mut taken, &mut self.pending);
        taken
    }
}

} // verus!
