//! The registers of the virtual machine. There are 65536 registers in
//! total, one for each 16-bit index.

use vstd::prelude::*;
use crate::text::{nat_text, u64_to_string};

verus! {

/// An identifier addressing one slot of the register file. The 16-bit
/// payload statically restricts it to the valid range, so an
/// out-of-bounds register cannot be formed.
#[derive(Debug, Copy, Clone, PartialEq, Eq, Structural)]
pub struct Register(pub u16);

impl Register {
    /// The slot of the register file this register addresses.
    pub fn as_index(&self) -> (i: usize)
        ensures
            i == self.0 as usize,
    {
        self.0 as usize
    }

    /// The rendered name of the register: `r` and its index.
    pub fn render(&self) -> (r: String)
        ensures
            r@ == register_text(*self),
    {
        let mut s = String::from_str("r");
        let digits = u64_to_string(self.0 as u64);
        s.append(digits.as_str());
        s
    }
}

/// The rendered name of a register: `r` and its decimal index.
pub open spec fn register_text(r: Register) -> Seq<char> {
    "r"@ + nat_text(r.0 as nat)
}

} // verus!
