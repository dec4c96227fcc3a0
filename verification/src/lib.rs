//! Core of an application shell that hosts pluggable UI panels:
//! panel layout state and its reconciliation across restarts, a
//! non-blocking file acquisition pipeline, a settings navigation
//! overlay, and a centralized error queue.
//!
//! Rendering and platform work (windowing, dialogs, storage) are the
//! host's concern; this crate holds the state machines behind them.

pub mod app;
pub mod errors;
pub mod file_handler;
pub mod settings;
pub mod utils;

pub use app::{Bladvak, BladvakApp};
pub use errors::{AppError, ErrorManager};
