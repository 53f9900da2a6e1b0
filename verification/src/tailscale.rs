//! The status model of the VPN client and the rules that derive from it.

pub mod peer;
pub mod status;
pub mod types;
pub mod utils;
