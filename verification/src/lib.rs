//! Lifecycle protocol for temporal render-graph resources.
//!
//! A render graph treats its resources as transient: created, used, and
//! retired within one build-and-execute cycle. Temporal resources (history
//! buffers, accumulation targets, and other multi-frame data) must instead
//! outlive the graph that used them and be re-admitted into the next frame's
//! graph with the GPU access state left by the previous frame's last use.
//!
//! This crate owns that hand-off: a [`temporal::Temporal`] container holds a
//! persistent resource together with its last known access state and a
//! three-valued lifecycle tag, and the `import` / `export` / `retire`
//! operations are the only legal transitions between the render-graph domain
//! and the cross-frame domain.

pub mod laws;
pub mod protocol;
pub mod sim;
pub mod temporal;
pub mod types;
