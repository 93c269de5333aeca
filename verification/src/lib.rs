//! A cooperative bridge between native async code and an external host
//! runtime that owns the thread on which resumption happens.
//!
//! Application code obtains a [`context::Context`], arms a suspension with
//! [`context::Context::until_resume`] or [`context::Context::signal`], and is
//! later resumed when the host calls back into the owned handle or fires the
//! subscribed event. The crate verifies the state machines behind those
//! operations: the single-write suspend cell, the resumable handle with its
//! most-recent-wins arming policy, the one-shot event bridge, and the
//! exactly-once process-wide registration lifecycle. The host-facing glue
//! (futures, wakers, and the host object system) lives outside this crate and
//! drives these state machines through their public operations.

pub mod bridge;

pub mod cell;

pub mod context;

pub mod handle;

pub mod registry;

pub mod value;

pub use bridge::{ConnectError, EventBridge, EventSource};

pub use cell::SuspendCell;

pub use context::{Context, SignalArmed};

pub use handle::{Armed, ResumableHandle, Ticket};

pub use registry::{register_runtime, terminate_runtime, InitError, RuntimeRegistry};

pub use value::Value;
