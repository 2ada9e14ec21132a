use vstd::prelude::*;

verus! {

/// Why a reward computation produced no result.
#[derive(Clone, Copy, Debug, PartialEq, Eq, Structural)]
pub enum RewardError {
    /// A state, block or state root is absent.
    NotFound,
    /// The inputs break a structural rule (committee size, unknown member).
    Invalid,
    /// An overflow or a division by zero in the reward arithmetic.
    Arithmetic,
}

} // verus!
