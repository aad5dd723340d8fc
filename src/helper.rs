use vstd::prelude::*;

use crate::client::{Acquired, WAIT_OBJECT_0, WAIT_OBJECT_1};
use crate::error::PoolError;

verus! {

/// What the acquisition helper hands its callback for one request, given the
/// status of its wait on the cancellation signal (first object) and the
/// pool's semaphore (second object) and the thread's last OS error after it.
///
/// The signal winning abandons the request: the callback is not called
/// (`None`). The semaphore winning delivers one token. Any other status
/// delivers `WaitFailed`; the wait is never retried.
pub fn serve_request(status: u32, last_error: i32) -> (r: Option<Result<Acquired, PoolError>>)
    ensures
        r is None <==> status == WAIT_OBJECT_0,
        status == WAIT_OBJECT_1 ==> r matches Some(Ok(_)),
        status != WAIT_OBJECT_0 && status != WAIT_OBJECT_1 ==> (r matches Some(Err(e)) && e
            == PoolError::WaitFailed(last_error)),
{
    if status == WAIT_OBJECT_0 {
        None
    } else if status == WAIT_OBJECT_1 {
        Some(Ok(Acquired))
    } else {
        Some(Err(PoolError::WaitFailed(last_error)))
    }
}

} // verus!
