//! Radar display core: telemetry model, shared state, message routing,
//! connection handling and render decisions for a 2D tactical display.

mod arith;
pub mod config;
pub mod format;
pub mod listing;
pub mod projection;
pub mod render;
pub mod router;
pub mod state;
pub mod stream;
pub mod text;
pub mod types;
