use vstd::prelude::*;

verus! {

/// An environment call as the registers carry it: the service number in
/// `a7` and the arguments in `a0`, `a1` and `a2`.
#[derive(Debug, Clone, Copy, PartialEq, Eq, Structural)]
pub struct Ecall {
    pub which: usize,
    pub arg0: usize,
    pub arg1: usize,
    pub arg2: usize,
}

} // verus!
