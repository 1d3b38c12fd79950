//! Protocol version constant.

use vstd::prelude::*;

verus! {

/// Current protocol version.
/// Increment when making breaking changes to the protocol.
pub const PROTOCOL_VERSION: u32 = 1;

} // verus!
