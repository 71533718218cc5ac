use vstd::prelude::*;

pub mod hexkey;
pub mod qos;
pub mod discovery;
pub mod channel;
pub mod sample;
pub mod endpoints;
pub mod forwarder;
pub mod periodic;

verus! {

/// The most discovery samples handled by one invocation of a discovery callback.
pub const MAX_SAMPLES: usize = 32;

} // verus!
