//! Run a target program so that it shows no window on the operator's
//! desktop, while the launcher can still wait for it, read its exit code,
//! terminate it by force, and abandon the wait on an external interrupt.
//!
//! Two strategies realise the one capability. The delegated strategy hands
//! the target to an external headless-display wrapper process and returns
//! its identifier at once. The native strategy creates an isolated
//! execution surface of its own, launches the target bound to that
//! surface, and drives a wait/cancel/terminate protocol around the
//! child's lifetime. The OS calls themselves live in a thin platform
//! layer around this crate; everything the strategies decide or build —
//! command buffers, environment overrides, surface configuration, and the
//! resolution of the race between natural exit and cancellation — is
//! specified and verified here.

pub mod cmdline;
pub mod command;
pub mod delegated;
pub mod native;

