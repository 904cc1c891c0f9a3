//! Why a firing ended without a post.
use vstd::prelude::*;

verus! {

/// The ways a single firing can fail or find nothing to do.
///
/// None of them reaches further than the firing it happened in: the job is
/// skipped for this firing and comes up again at its next one.
#[derive(Clone, Copy, Debug, PartialEq, Eq, Structural)]
pub enum FiringError {
    /// An outside call did not get through. Nothing is tried again within
    /// the firing.
    Network,
    /// An outside call answered, but with no data or with data that cannot
    /// be used.
    UpstreamData,
    /// No token is stored for the user.
    SessionUnavailable,
    /// The stored token has expired and carries no refresh token.
    RefreshUnavailable,
    /// There is no message to post, or no feed item that is news.
    NoEligibleContent,
    /// The feed could not be fetched.
    FeedUnavailable,
    /// The feed was fetched but is not a feed this engine can read.
    FeedParse,
}

impl FiringError {
    /// Whether the firing found nothing to post, which is no fault.
    pub fn is_skip(&self) -> (r: bool)
        ensures
            r == (*self == FiringError::NoEligibleContent),
    {
        match self {
            FiringError::NoEligibleContent => true,
            _ => false,
        }
    }
}

} // verus!
