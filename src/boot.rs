//! Messages of the kernel's entry sequence.

use vstd::prelude::*;
use vstd::string::*;
use crate::text::{hex_of, push_hex};

verus! {

/// The line that reports where the kernel was loaded.
pub open spec fn spec_load_message(mepc: usize) -> Seq<char> {
    "Kernel loaded at address 0x"@ + hex_of(mepc as nat) + "."@
}

/// The line that reports where the kernel was loaded, the address read from
/// `mepc` in hexadecimal.
pub fn load_message(mepc: usize) -> (r: String)
    ensures
        r@ == spec_load_message(mepc),
{
    let mut out = String::from_str("Kernel loaded at address 0x");
    push_hex(&mut out, mepc as u64);
    out.append(".");
    out
}

} // verus!
