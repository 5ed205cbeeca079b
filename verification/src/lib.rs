//! Mode controller for an unattended display appliance.
//!
//! The appliance normally cycles a playlist of pages ("kiosk mode") and, on a
//! hardware trigger, switches into a remote-session mode that drives a browser
//! through a fixed sign-in-and-join flow, returning to kiosk mode on a second
//! trigger.  This crate holds the verified decision logic: the mode state
//! machine, the process-lifecycle session machine, the element locator, the
//! interaction retry engine, the session pipeline, the kiosk cycler and the
//! hardware-signal decoding.  The surrounding process runs the unverified
//! edges (process spawning, HTTP, the browser bridge) and feeds their
//! outcomes back in as plain values.

pub mod dom;
pub mod interact;
pub mod kiosk;
pub mod lifecycle;
pub mod locator;
pub mod mode;
pub mod pipeline;
pub mod signal;
pub mod text;
