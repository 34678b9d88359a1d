use vstd::prelude::*;

verus! {

/// One mono audio sample: a 32-bit IEEE-754 value, held as its bit pattern.
///
/// Two samples are equal when their bit patterns are.
#[derive(Clone, Copy, PartialEq, Eq, Structural, Debug)]
pub struct Sample {
    pub bits: u32,
}

} // verus!
