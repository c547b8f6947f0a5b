//! Special view ids.
use vstd::prelude::*;

verus! {

/// Special view ID which hides drawing view_port.
pub const NONE: u32 = 0xFFFFFFFF;

/// Special view ID which ignores navigation event.
pub const IGNORE: u32 = 0xFFFFFFFE;

} // verus!
