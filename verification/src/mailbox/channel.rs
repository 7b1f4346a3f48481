//! Mailbox channels
use vstd::prelude::*;

verus! {

/// Property tags (ARM to VideoCore) channel.
pub const PROP: u32 = 8;

} // verus!
