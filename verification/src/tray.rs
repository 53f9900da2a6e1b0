//! What the tray shows of a status.

pub mod menu;
