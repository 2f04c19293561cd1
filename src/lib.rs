//! The decisions of a small read-only post service: the response envelope,
//! the mapping of stored posts to their views, the fallback and error
//! envelopes, the timeout policy, the settings tree and what is derived from
//! it, and the supervisor's lifecycle from construction to a drained stop.
use vstd::prelude::*;

pub mod envelope;
pub mod post;
pub mod handlers;
pub mod settings;
pub mod pool;
pub mod producer;
pub mod error;
pub mod cli;
pub mod lifecycle;

verus! {

} // verus!
