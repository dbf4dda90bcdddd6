//! A notification fan-out router. Given a source-control event on a
//! repository, it computes the complete, deduplicated batch of delivery
//! targets — a team channel and zero or more individual users — honoring
//! per-user opt-outs and never notifying an event's own author about
//! their own action. Performing the outbound sends is left to the caller.

pub mod directory;
pub mod messenger;
pub mod recipients;
pub mod types;
