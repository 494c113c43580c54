use vstd::prelude::*;

verus! {

/// What an executed instruction asks of the run loop.
#[derive(Clone, Copy, Debug, PartialEq, Eq, Structural)]
pub enum CpuMessage {
    Continue,
    Break,
}

} // verus!
