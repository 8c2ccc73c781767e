//! The integer side of a Monte Carlo path tracer: the checked parameters of a
//! render, the layout of its RGB output buffer, the counter that decides when
//! progress is reported, and the server-sent events and client table that
//! carry those reports.
use vstd::prelude::*;

pub mod events;
pub mod framebuffer;
pub mod job;
pub mod progress;

verus! {

} // verus!
