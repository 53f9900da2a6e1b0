//! Status synchronisation for a mesh-VPN tray indicator: the typed status
//! model, display names of peers, change detection between polls, and the
//! decisions behind privileged connect and disconnect commands.

pub mod command;
pub mod notice;
pub mod pkexec;
pub mod reconcile;
pub mod svg;
pub mod tailscale;
pub mod tray;
