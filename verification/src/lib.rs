//! A movable caption-label window: configuration resolution and the
//! renderer's decision logic, with verified contracts.
//!
//! The library owns everything that can be stated over plain values: hex
//! color parsing with its fallback rule, the resolution of command-line
//! options to a configuration record, and the renderer's per-tick state
//! machine (one-shot resize, drag-start edge detection, repaint cadence).
//! The windowing toolkit itself lives outside the library.

pub mod color;
pub mod config;
pub mod renderer;
