//! Supervision and command dispatch for a tray helper that watches and
//! drives a Pi-hole appliance over its HTTP control API.
//!
//! The library holds the decisions: how requests are addressed, how a poll
//! reply is read, how failures are debounced into a displayed state, and what
//! each user command asks of the device. The caller performs the network and
//! window-system work and feeds the results back in.

pub mod piapi_handler;
pub mod response;
pub mod tray_handler;
pub mod message;
pub mod tray_functions;
pub mod supervisor;
pub mod icon;
