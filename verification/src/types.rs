//! Named types for `Address`es and `Label`s, instead of bare `usize`
//! and `String`. No instruction consumes them yet; they are
//! placeholders for a control-flow extension.

use vstd::prelude::*;

verus! {

/// A symbolic jump label.
#[derive(Debug, Clone, PartialEq, Eq, Hash)]
pub struct Label(pub String);

/// A resolved instruction address.
#[derive(Debug, Clone, PartialEq, Eq, Hash)]
pub struct Address(pub usize);

} // verus!
