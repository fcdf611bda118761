use vstd::prelude::*;

verus! {

/// The failure kinds a governance operation can surface.  Every failure is
/// deterministic and locally detected; none is retried internally.
#[derive(Clone, Copy, PartialEq, Eq, Structural, Debug)]
pub enum CustomError {
    /// A bound violation on a string or an amount, or an argument set that
    /// admits no valid derivation salt.
    InvalidArgument,
    /// A referenced entity is absent.
    NotFound,
    /// Duplicate initialization: a record already sits at the derived key.
    AlreadyExists,
    /// The caller is not the required authority.
    Unauthorized,
    /// The voter's ballot receipt already shows a cast vote.
    AlreadyVoted,
    /// The proposal has already been executed.
    AlreadyExecuted,
    /// The proposal's voting deadline has passed.
    VotingExpired,
    /// The proposal does not have more votes for than against.
    NotApproved,
    /// A tally or balance update would overflow its 64-bit range.
    MathOverflow,
}

} // verus!
