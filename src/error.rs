use vstd::prelude::*;

verus! {

/// Every way an operation on a pool can fail.
#[derive(Debug)]
pub enum PoolError {
    /// Every candidate identity drawn during origination was already in use.
    NameSpaceExhausted,
    /// The system random source failed while drawing a candidate identity;
    /// holds its OS error code when there is one.
    RandomFailed(Option<i32>),
    /// Creating the backing semaphore failed for a reason other than a name
    /// collision; holds the OS error code.
    CreateFailed(i32),
    /// The identity cannot be written as a native object name.
    MalformedIdentity(String),
    /// Opening an existing pool by identity failed: the identity and the OS
    /// error code.
    AttachFailed(String, i32),
    /// A wait on the semaphore failed; holds the OS error code.
    WaitFailed(i32),
    /// A wait returned a status that a counting semaphore never produces.
    UnexpectedWaitState(u32),
    /// The release that follows a capacity probe reported a negative count
    /// before it, which a semaphore never has; holds that count.
    UnexpectedCount(i32),
    /// Returning a token failed (for instance past the pool's capacity); holds
    /// the OS error code.
    ReleaseFailed(i32),
}

} // verus!
