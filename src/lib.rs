//! Latency attribution for RPC calls: identifies each intercepted call by its
//! caller and method, keeps one histogram per identity, decides how each call
//! is measured, and routes the pull endpoint that exports the histograms.
//! Also holds the small helpers that the node's services share.

pub mod clock;
pub mod common;
pub mod exporter;
pub mod identity;
pub mod middleware;
pub mod registry;
pub mod status;
pub mod text;

pub use clock::{epoch_millis, unix_now};
pub use text::clean_0x;
