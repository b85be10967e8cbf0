//! Request-dispatch middleware: a load-balancer factory that hands every
//! balancer its own forked random generator, and a delay middleware that
//! holds each request back until a policy-chosen deadline has passed.
use vstd::prelude::*;

pub mod balance;
pub mod delay;
pub mod progress;
pub mod rng;

verus! {

} // verus!
