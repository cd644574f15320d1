//! Untrusted-host side of an enclave boundary for contract storage calls.
//!
//! A secure enclave runs a contract virtual machine; whenever the contract
//! needs durable key-value storage it crosses into this host-side layer.
//! The library models the boundary protocol itself: the one-time-reclaim
//! buffer handles that carry bytes across the boundary, the boxing of rich
//! error values into opaque handles, the three-valued outcome encoding
//! (success / failure / contained panic) that every boundary call reports,
//! and the dispatch of calls into the concrete storage and querier
//! implementations bound once at call-context construction.

pub mod buffers;
pub mod context;
pub mod errors;
pub mod exports;
pub mod storage;
