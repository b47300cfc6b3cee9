//! Notification scheduler for a desktop power-state tracker.
//!
//! The library holds the verified core: the configuration model and its
//! store, placeholder substitution into body templates, notification text
//! composition, webhook request preparation, the periodic due-time
//! scheduler, the UI window state machine, and the tray icon bitmap.
//! Process wiring (event loop, HTTP, disk persistence) lives outside.

pub mod compose;
pub mod config;
pub mod dispatch;
pub mod icon;
pub mod scheduler;
pub mod store;
pub mod text;
pub mod ui;
