use vstd::prelude::*;

verus! {

/// Machine byte type.
pub type C8Byte = u8;

/// Machine address type.
pub type C8Addr = u16;

/// Machine register index.
pub type C8RegIdx = u8;

} // verus!
