//! Property tags
use vstd::prelude::*;

verus! {

/// The end tag that closes a property message.
pub const LAST: u32 = 0;

} // verus!
