use vstd::prelude::*;
use vstd::string::StringExecFns;

use crate::client::Client;
use crate::error::PoolError;
use crate::name::{generated_name_is_identity, is_identity, pool_name, spec_pool_name};

verus! {

/// How many candidate identities origination draws before it gives up.
pub const NAME_ATTEMPTS: u32 = 100;

/// The largest capacity a semaphore count can hold.
pub const MAX_CAPACITY: usize = 0x7fff_ffff;

/// The count a new pool's semaphore is created with: a semaphore cannot be
/// created empty, so a pool of capacity 0 gets one token that it takes back
/// at once.
pub open spec fn creation_count(limit: nat) -> nat {
    if limit == 0 {
        1
    } else {
        limit
    }
}

/// How many tokens origination takes from the new semaphore and never gives back.
pub open spec fn reserved_tokens(limit: nat) -> nat {
    if limit == 0 {
        1
    } else {
        0
    }
}

/// What creating a semaphore under a candidate identity reported.
pub enum Creation {
    /// A new semaphore was created under the name.
    Created,
    /// A semaphore of that name already existed; the handle to it was closed.
    AlreadyExists,
    /// The creation failed with this OS error code.
    Failed(i32),
}

/// What origination asks its caller to do next.
pub enum OriginStep {
    /// Create a semaphore named by `name` (NUL-terminated) holding `count`
    /// tokens, at most `count`, then report with `Originator::on_created`.
    Create { name: String, count: i32 },
    /// The pool exists; when `reserve` is set, take one token from it and
    /// never give it back.
    Finish { client: Client, reserve: bool },
    /// Origination failed.
    Fail(PoolError),
}

/// The retry loop that creates a new pool under a fresh random identity.
pub struct Originator {
    limit: usize,
    attempts: u32,
    candidate: Option<String>,
}

impl Originator {
    /// The capacity asked for.
    pub closed spec fn limit(&self) -> nat {
        self.limit as nat
    }

    /// How many candidate identities have been drawn.
    pub closed spec fn attempts(&self) -> nat {
        self.attempts as nat
    }

    /// The identity whose creation is awaited, if any.
    pub closed spec fn candidate(&self) -> Option<Seq<char>> {
        match self.candidate {
            Some(c) => Some(c@),
            None => None,
        }
    }

    pub closed spec fn wf(&self) -> bool {
        &&& self.limit <= MAX_CAPACITY
        &&& self.attempts <= NAME_ATTEMPTS
        &&& self.candidate() matches Some(c) ==> is_identity(c)
    }

    /// What drawing the next candidate does: past the last attempt it fails
    /// with `NameSpaceExhausted`; else it counts one more attempt and asks for
    /// a semaphore under a generated identity with the creation count, unless
    /// the random source fails.
    pub open spec fn drawn(pre: Originator, post: Originator, step: OriginStep) -> bool {
        &&& post.wf()
        &&& post.limit() == pre.limit()
        &&& if pre.attempts() >= NAME_ATTEMPTS {
            &&& step matches OriginStep::Fail(PoolError::NameSpaceExhausted)
            &&& post.attempts() == pre.attempts()
            &&& post.candidate() is None
        } else {
            &&& post.attempts() == pre.attempts() + 1
            &&& step matches OriginStep::Create { name, count } ==> count == creation_count(
                pre.limit(),
            ) && exists|n: u32|
                post.candidate() == Some(spec_pool_name(n as nat)) && name@ == spec_pool_name(
                    n as nat,
                ).push('\0')
            &&& step matches OriginStep::Fail(e) ==> (e matches PoolError::RandomFailed(_)
                && post.candidate() is None)
            &&& step is Create || step is Fail
        }
    }

    /// Starts origination of a pool of capacity `limit`; no candidate is drawn yet.
    pub fn new(limit: usize) -> (o: Originator)
        requires
            limit <= MAX_CAPACITY,
        ensures
            o.wf(),
            o.limit() == limit,
            o.attempts() == 0,
            o.candidate() is None,
    {
        Originator { limit, attempts: 0, candidate: None }
    }

    /// Draws the next candidate identity.
    pub fn next(&mut self) -> (step: OriginStep)
        requires
            old(self).wf(),
        ensures
            Self::drawn(*old(self), *final(self), step),
    {
        if self.attempts >= NAME_ATTEMPTS {
            self.candidate = None;
            return OriginStep::Fail(PoolError::NameSpaceExhausted);
        }
        let draw = match getrandom::u32() {
            Ok(n) => Ok(n),
            Err(e) => Err(e.raw_os_error()),
        };
        let step = self.on_drawn(draw);
        proof {
            if let Ok(n) = draw {
                assert(final(self).candidate() == Some(spec_pool_name(n as nat)));
            }
        }
        step
    }

    /// Takes in one draw of the random source: a value, or the source's OS
    /// error code when there is one.
    ///
    /// It counts one more attempt. A value `n` asks for a semaphore named by
    /// the identity generated from `n` (NUL-terminated), holding the creation
    /// count, and makes that identity the candidate; a failed draw ends
    /// origination with `RandomFailed`.
    pub fn on_drawn(&mut self, draw: Result<u32, Option<i32>>) -> (step: OriginStep)
        requires
            old(self).wf(),
            old(self).attempts() < NAME_ATTEMPTS,
        ensures
            final(self).wf(),
            final(self).limit() == old(self).limit(),
            final(self).attempts() == old(self).attempts() + 1,
            draw matches Ok(n) ==> (step matches OriginStep::Create { name, count } && name@
                == spec_pool_name(n as nat).push('\0') && count == creation_count(old(self).limit())
                && final(self).candidate() == Some(spec_pool_name(n as nat))),
            draw matches Err(code) ==> (step matches OriginStep::Fail(e) && e
                == PoolError::RandomFailed(code) && final(self).candidate() is None),
    {
        self.attempts = self.attempts + 1;
        match draw {
            Err(code) => {
                self.candidate = None;
                OriginStep::Fail(PoolError::RandomFailed(code))
            },
            Ok(n) => {
                let name = pool_name(n);
                proof {
                    generated_name_is_identity(n as nat);
                    reveal_strlit("\0");
                }
                let mut native = name.clone();
                native.append("\0");
                assert(native@ =~= spec_pool_name(n as nat).push('\0'));
                self.candidate = Some(name);
                let count: i32 = if self.limit == 0 {
                    1
                } else {
                    self.limit as i32
                };
                OriginStep::Create { name: native, count }
            },
        }
    }

    /// Takes in what creating the candidate's semaphore reported.
    ///
    /// A new semaphore finishes origination under the candidate identity,
    /// reserving a token when the capacity is 0; a name collision draws the
    /// next candidate; any other failure ends origination with `CreateFailed`.
    pub fn on_created(&mut self, outcome: Creation) -> (step: OriginStep)
        requires
            old(self).wf(),
            old(self).candidate() is Some,
        ensures
            outcome is Created ==> (step matches OriginStep::Finish { client, reserve } && client@
                == old(self).candidate()->0 && reserve == (old(self).limit() == 0)
                && final(self).candidate() is None && final(self).wf()
                && final(self).limit() == old(self).limit() && final(self).attempts() == old(
                self,
            ).attempts()),
            outcome is AlreadyExists ==> Self::drawn(*old(self), *final(self), step),
            outcome matches Creation::Failed(code) ==> (step matches OriginStep::Fail(e) && e
                == PoolError::CreateFailed(code) && final(self).candidate() is None && final(self).wf()
                && final(self).limit() == old(self).limit() && final(self).attempts() == old(
                self,
            ).attempts()),
    {
        match outcome {
            Creation::Created => {
                let name = match &self.candidate {
                    Some(c) => c.clone(),
                    None => String::new(),
                };
                self.candidate = None;
                OriginStep::Finish { client: Client::from_identity(name), reserve: self.limit == 0 }
            },
            Creation::AlreadyExists => self.next(),
            Creation::Failed(code) => {
                self.candidate = None;
                OriginStep::Fail(PoolError::CreateFailed(code))
            },
        }
    }
}

/// A pool originated with capacity `limit` offers exactly `limit` tokens: its
/// semaphore holds at least one token, and the tokens that origination keeps
/// for good bring what is left down to `limit`.
pub proof fn originated_capacity(limit: nat)
    ensures
        creation_count(limit) >= 1,
        creation_count(limit) - reserved_tokens(limit) == limit,
        limit == 0 ==> reserved_tokens(limit) == 1,
{
}

} // verus!
