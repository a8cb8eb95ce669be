//! Core logic of a heartbeat agent: on each tick of a fixed-interval loop a
//! probe resolves the IPv4 address of a configured network interface,
//! compares it with the last address seen, and dispatches an HTTP request
//! whose query string carries the resulting `up`/`pending` status.
//!
//! This crate holds the verified core: interface-list scanning, the
//! change-detection state transition, and request-target construction.
//! The surrounding process (argument parsing, the timer loop, thread
//! spawning, the lock around the shared last-address cell, and the HTTP
//! dispatch itself) is unverified plumbing around these functions.
pub mod iface;
pub mod messages;
pub mod probe;
pub mod request;
pub mod state;
