//! Per-frame decisions of a render-graph node that clears the primary
//! window's swap-chain texture to a fixed colour.
//!
//! The library decides what a frame does: skip it, with the reason, or
//! record one clear render pass with no draw calls against the first
//! window's swap-chain texture view. The host application performs the
//! GPU work that the decision names.
pub mod color;
pub mod frame;
