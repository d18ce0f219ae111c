//! Capability-mode `bind` and `connect` through FreeBSD's Casper network
//! service, cap_net(3).
//!
//! A process in capability mode may not bind or connect sockets itself. The
//! Casper daemon, which runs outside capability mode, can do it on the
//! process's behalf. This library holds the decisions that surround such a
//! delegated call: which addresses a service handle may still use once limits
//! were installed on it, how a native status code becomes an outcome, and the
//! order in which resolved candidate addresses are tried. The calls into the
//! native library are made by the surrounding program, which hands the results
//! back to the functions here.
pub mod adapter;
pub mod address;
pub mod blocking;
pub mod error;
pub mod fallback;
pub mod limit;
pub mod nonblocking;
pub mod policy;
