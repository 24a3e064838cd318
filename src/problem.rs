//! Problem identifiers.
use vstd::prelude::*;

verus! {

/// Identifier of a problem on the judge.
#[derive(Clone, Copy, Debug, PartialEq, Eq, Structural)]
pub struct ProblemId(pub u32);

} // verus!
