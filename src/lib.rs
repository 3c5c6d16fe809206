//! Coordination core of the Zygisk daemon: root-backend detection and uid
//! policy, the watchdog's restart policy and module.prop status, the daemon's
//! request dispatch and companion slots, and the byte-level wire formats they
//! share.

pub mod companion;
pub mod constants;
pub mod magic;
pub mod root_impl;
pub mod text;
pub mod utils;
pub mod watchdog;
pub mod wire;
pub mod zygiskd;
