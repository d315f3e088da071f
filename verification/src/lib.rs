//! Client-side proxy for delegating transaction ingress to an external
//! relayer over a streaming RPC channel.
//!
//! The crate covers the relayer connection lifecycle: the authentication
//! token state machine (challenge/response bootstrap, lookahead-based
//! refresh, full re-authentication), and the connection supervisor that
//! establishes the channel, consumes the packet stream, watches heartbeat
//! liveness, and reconnects with bounded backoff on any failure.

pub mod auth;
pub mod backoff;
pub mod bundle;
pub mod channel;
pub mod clock;
pub mod consumer;
pub mod errors;
pub mod identity;
pub mod shared;
pub mod stats;
pub mod supervisor;
pub mod tpu;
pub mod watchdog;
