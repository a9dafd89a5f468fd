//! Break reminder core: the break-cycle scheduler, the window orchestrator
//! that materialises its transient windows, the meeting detector that gates
//! breaks, and the geometry that places the windows on the primary display.

pub mod capability;
pub mod commands;
pub mod config;
pub mod geometry;
pub mod meeting;
pub mod scheduler;
pub mod text;
pub mod tray;
pub mod window_config;
pub mod window_manager;
