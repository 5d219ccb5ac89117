//! Watchdog library for a recurring xhci_hcd USB-controller failure: it
//! detects the failure signature in kernel log messages and decides the
//! unbind/rebind recovery sequence, hook runs and cooldown around it.

pub mod args;
pub mod matcher;
pub mod monitor;
