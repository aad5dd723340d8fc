//! Client side of a cross-process token pool (a "jobserver") backed by a
//! named counting semaphore.
//!
//! The semaphore itself is an operating-system object; this library holds the
//! decisions around it: how pool identities are generated, validated and
//! encoded, how each wait or release outcome is turned into a result, how the
//! origination retry loop proceeds, and what the acquisition helper does with
//! each wait it performs.

pub mod client;
pub mod error;
pub mod helper;
pub mod name;
pub mod origin;
mod random;

pub use client::{
    Acquired, Client, Released, WAIT_ABANDONED, WAIT_FAILED, WAIT_OBJECT_0, WAIT_OBJECT_1, WAIT_TIMEOUT,
};
pub use error::PoolError;
pub use helper::serve_request;
pub use name::{native_name, pool_name, POOL_NAME_PREFIX};
pub use origin::{Creation, OriginStep, Originator, MAX_CAPACITY, NAME_ATTEMPTS};
