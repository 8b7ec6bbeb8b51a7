//! Watches a clothes drier through the current that its circuit draws.
//!
//! The crate holds the decisions of the service: what a current reading means, when a
//! cycle starts and ends, which kind of cycle it was, what is announced, and what is
//! shown as gauge and presence. It does no input or output. A caller reads the clock,
//! the broker and the environment, hands over plain values, and performs the actions
//! that come back, in order.

pub mod broker;
pub mod clock;
pub mod config;
pub mod config_laws;
pub mod drier;
pub mod history;
pub mod laws;
pub mod monitor;
pub mod outcomes;
pub mod reading;
pub mod reading_laws;
