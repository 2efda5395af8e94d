//! Building blocks for a webview-based desktop app around a pluggable engine.
//!
//! An application author supplies an engine: a stateful component that renders
//! an initial HTML page, executes actions coming from that page, and handles
//! lifecycle events. A thin shell owns the window and forwards each inbound
//! page message through the decision functions of this crate: recover from a
//! failed execution, choose between shutting the window down and answering the
//! page, and build the exact script that delivers an answer.

pub mod bridge;
pub mod escape;
pub mod params;
