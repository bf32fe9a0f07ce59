//! Verified core of a plugin bridge for a real-time audio-synthesis host.
//!
//! A natively compiled plugin registers classes (constructors, destructors,
//! member slots, methods, and per-sample tick functions) with the host at
//! load time, and afterwards exchanges a heap-allocated native object with
//! the host through an untyped per-instance memory slot on every lifecycle
//! callback. This crate verifies the protocol around that exchange:
//!
//! - the protocol version word ([`version`]),
//! - encoding of names as null-terminated byte strings ([`cstring`]),
//! - the class registration session state machine ([`session`]),
//! - the per-instance object-data slot and its ownership discipline
//!   ([`slot`]),
//! - positional decoding of call-time arguments ([`args`]),
//! - the fixed trampoline shapes that tie the slot and the cursor
//!   together on each callback ([`trampoline`]),
//! - and a sample oscillator's registration sequence, proved to succeed
//!   on any idle session ([`osc`]).
//!
//! The host itself (loading, scheduling, instance memory allocation) is an
//! external collaborator; the thin unverified layer that hands values across
//! the C calling convention lives outside this crate and only forwards plain
//! values to and from the functions here.

pub mod args;
pub mod cstring;
pub mod error;
pub mod osc;
pub mod session;
pub mod slot;
pub mod trampoline;
pub mod version;
