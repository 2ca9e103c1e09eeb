//! Shard orchestration for a sharded, real-time gateway client.
//!
//! A client whose traffic is split over numbered shards has to bring the
//! shards up one at a time, no faster than the gateway allows, and has to merge
//! what they receive into one stream without losing track of which shard a
//! frame came from. This crate holds the decisions of that work and proves
//! them; the event loop that waits, sleeps and connects stays outside and is
//! told what to do.
//!
//! - [`strategy`]: which shard ids a process owns.
//! - [`event`]: the gateway events the manager tells apart.
//! - [`sequence`]: the start-up sequence as a state machine over plain values.
//! - [`manager`]: the shard manager, which runs that state machine and talks
//!   to the start-up queue and the merged stream.
//! - [`sink`]: the fan-in sink that tags the frames of a shard.
//! - [`channel`]: the channels of the `futures` crate and the types of
//!   `tungstenite`, with what is taken on trust of them.
//! - [`laws`]: what holds of the whole: the cadence and the order of the
//!   connection attempts, their wait for ready notifications, and what each
//!   strategy owns.

pub mod channel;
pub mod event;
pub mod laws;
pub mod manager;
pub mod sequence;
pub mod sink;
pub mod strategy;
