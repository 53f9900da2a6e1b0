//! The pixels of the tray icon.

pub mod renderer;
