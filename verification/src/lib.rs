//! Core logic of an endpoint telemetry agent, verified with Verus.
//!
//! The library models the three subsystems at the heart of the agent: a
//! single-producer / single-consumer byte ring carrying length-prefixed
//! telemetry frames, the rundown-protected callback lifecycle of the
//! kernel driver, and the in-process hot-patch engine for syscall stubs;
//! around them sit the event filters, the device-control dispatch, the
//! re-entrancy guard, the section's security policy, and the agent-side
//! configuration and scan-cache rules.  The operating-system edges -
//! section mapping, device I/O, virtual-memory protection, thread-local
//! storage - live outside; everything that decides or computes is here,
//! with contracts.

pub mod bytes;
pub mod cache;
pub mod call_guard;
pub mod callbacks;
pub mod cleanup;
pub mod config;
pub mod constants;
pub mod driver;
pub mod entry;
pub mod errors;
pub mod events;
pub mod filters;
pub mod handlers;
pub mod hotpatch;
pub mod ioctl;
pub mod manager;
pub mod ring;
pub mod ring_laws;
pub mod rundown;
pub mod security;
