//! A scheduled housekeeping library for a container runtime.
//!
//! On each round the agent inspects the container inventory, decides per
//! container whether a newer image digest is available, and — when the
//! configured update mode allows it — replaces the container in place while
//! preserving its recreate-relevant configuration.  The decision logic lives
//! here, fully verified; the surrounding process performs the runtime calls
//! and feeds their results back as events.

pub mod modes;
pub mod record;
pub mod session;
pub mod snapshot;
pub mod summary;
pub mod text;
