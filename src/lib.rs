use vstd::prelude::*;

pub mod args;
pub mod codec;
pub mod line;
pub mod message;
pub mod outgoing;
pub mod relay;

verus! {

} // verus!
