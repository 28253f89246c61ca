//! The broadcast channel that carries entity events to subscribers.

use vstd::prelude::*;

verus! {

/// How many entity events the broadcast channel holds before the slowest
/// subscriber starts losing them.
pub const EVENT_CHANNEL_CAPACITY: usize = 256;

} // verus!
