//! Low-latency duplex audio sharing.
pub mod arguments;
pub mod arith;
pub mod config;
pub mod control;
pub mod cycle;
pub mod daemon;
pub mod diagnostics;
pub mod engine;
pub mod error;
pub mod latency;
pub mod loopback;
pub mod measurement;
pub mod pro;
pub mod protocol;
pub mod routing;
pub mod sequence;
pub mod timeline;
pub mod timing;
pub mod transfer;
