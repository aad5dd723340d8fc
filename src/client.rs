use vstd::prelude::*;
use vstd::string::StringExecFns;

use crate::error::PoolError;
use crate::name::is_identity;

verus! {

/// Status of a wait that took the object (the first object, for a wait on several).
pub const WAIT_OBJECT_0: u32 = 0;
/// Status of a wait on the second object of a wait on several.
pub const WAIT_OBJECT_1: u32 = 1;
/// Status of a wait that took an abandoned mutex, which a semaphore never is.
pub const WAIT_ABANDONED: u32 = 128;
/// Status of a wait whose timeout ran out.
pub const WAIT_TIMEOUT: u32 = 258;
/// Status of a wait that failed; the thread's last OS error says why.
pub const WAIT_FAILED: u32 = 0xffff_ffff;

/// One token checked out of a pool.
#[derive(Debug)]
pub struct Acquired;

/// A process-local view of a pool, known by its identity.
///
/// The semaphore handle that backs it belongs to the caller, which opens it
/// before building the client and closes it once when the client goes away.
#[derive(Debug)]
pub struct Client {
    name: String,
}

/// What a release of one token reported.
pub enum Released {
    /// The count was raised; `previous` is the count just before.
    Done { previous: i32 },
    /// The release failed with this OS error code.
    Failed { code: i32 },
}

impl View for Client {
    type V = Seq<char>;

    /// The pool's identity.
    closed spec fn view(&self) -> Seq<char> {
        self.name@
    }
}

impl Client {
    /// The client of a pool that was just created or opened under `name`.
    pub fn from_identity(name: String) -> (c: Client)
        requires
            is_identity(name@),
        ensures
            c@ == name@,
    {
        Client { name }
    }

    /// The outcome of opening the pool named `identity`: `open_error` is the
    /// OS error code of a failed open, `None` when the open succeeded.
    pub fn opened(identity: &str, open_error: Option<i32>) -> (r: Result<Client, PoolError>)
        requires
            is_identity(identity@),
        ensures
            r is Ok <==> open_error is None,
            r matches Ok(c) ==> c@ == identity@,
            r matches Err(e) ==> (e matches PoolError::AttachFailed(t, code) && t@ == identity@
                && open_error == Some(code)),
    {
        match open_error {
            None => Ok(Client { name: String::from_str(identity) }),
            Some(code) => Err(PoolError::AttachFailed(String::from_str(identity), code)),
        }
    }

    /// The identity another process passes to attach to the same pool.
    pub fn string_arg(&self) -> (r: String)
        ensures
            r@ == self@,
    {
        self.name.clone()
    }

    /// The outcome of a wait with no timeout for a token: `status` is what the
    /// wait returned, `last_error` the thread's last OS error code after it.
    pub fn acquire_result(status: u32, last_error: i32) -> (r: Result<Acquired, PoolError>)
        ensures
            r is Ok <==> status == WAIT_OBJECT_0,
            r matches Err(e) ==> e == PoolError::WaitFailed(last_error),
    {
        if status == WAIT_OBJECT_0 {
            Ok(Acquired)
        } else {
            Err(PoolError::WaitFailed(last_error))
        }
    }

    /// The outcome of a wait with a zero timeout for a token.
    ///
    /// A token taken gives `Some`, none available gives `None`, a failed wait
    /// gives `WaitFailed`, and any other status (an abandoned wait included)
    /// gives `UnexpectedWaitState` rather than being taken for success.
    pub fn try_acquire_result(status: u32, last_error: i32) -> (r: Result<Option<Acquired>, PoolError>)
        ensures
            status == WAIT_OBJECT_0 ==> r matches Ok(Some(_)),
            status == WAIT_TIMEOUT ==> r matches Ok(None),
            status == WAIT_FAILED ==> (r matches Err(e) && e == PoolError::WaitFailed(last_error)),
            status != WAIT_OBJECT_0 && status != WAIT_TIMEOUT && status != WAIT_FAILED ==> (r matches Err(
                e,
            ) && e == PoolError::UnexpectedWaitState(status)),
    {
        if status == WAIT_OBJECT_0 {
            Ok(Some(Acquired))
        } else if status == WAIT_TIMEOUT {
            Ok(None)
        } else if status == WAIT_FAILED {
            Err(PoolError::WaitFailed(last_error))
        } else {
            Err(PoolError::UnexpectedWaitState(status))
        }
    }

    /// The outcome of returning one token: `succeeded` is what the release
    /// reported, `last_error` the thread's last OS error code after it.
    pub fn release_result(succeeded: bool, last_error: i32) -> (r: Result<(), PoolError>)
        ensures
            r is Ok <==> succeeded,
            r matches Err(e) ==> e == PoolError::ReleaseFailed(last_error),
    {
        if succeeded {
            Ok(())
        } else {
            Err(PoolError::ReleaseFailed(last_error))
        }
    }

    /// Whether the capacity probe, whose wait with a zero timeout returned
    /// `status`, took a token and must give it back before reporting.
    pub fn probe_took_token(status: u32) -> (r: bool)
        ensures
            r == (status == WAIT_OBJECT_0),
    {
        status == WAIT_OBJECT_0
    }

    /// The capacity reported by the probe: a wait with a zero timeout
    /// returned `status`; only when it took a token was the token given back,
    /// with the outcome `released`.
    ///
    /// No token taken reports 0; a token taken and given back reports the
    /// count before the release plus one.
    pub fn available_result(status: u32, released: Option<Released>) -> (r: Result<usize, PoolError>)
        requires
            released is Some <==> status == WAIT_OBJECT_0,
        ensures
            status != WAIT_OBJECT_0 ==> (r matches Ok(n) && n == 0),
            released matches Some(Released::Done { previous }) ==> (if previous >= 0 {
                r matches Ok(n) && n == previous + 1
            } else {
                r matches Err(e) && e == PoolError::UnexpectedCount(previous)
            }),
            released matches Some(Released::Failed { code }) ==> (r matches Err(e) && e
                == PoolError::ReleaseFailed(code)),
    {
        match released {
            None => Ok(0),
            Some(Released::Done { previous }) => {
                if previous >= 0 {
                    Ok(previous as usize + 1)
                } else {
                    Err(PoolError::UnexpectedCount(previous))
                }
            },
            Some(Released::Failed { code }) => Err(PoolError::ReleaseFailed(code)),
        }
    }
}

} // verus!
