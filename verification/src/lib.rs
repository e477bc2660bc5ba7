//! Decision logic of a garage-door controller.
//!
//! The controller reads a door sensor and a manual trigger through GPIO
//! lines, pulses the relay of the door opener, and speaks to a home
//! automation hub over a message bus. This library holds everything that is
//! decided along the way and nothing that is done: a driver performs the
//! operations on the lines and on the bus and tells the controller how each
//! one ended.
//!
//! - `door`: the two door positions, the two commands, their tokens on the
//!   wire, and the rule that says which command is acted on.
//! - `hardware`: the lines, and the plans for setting them up and releasing
//!   them.
//! - `relay`: the steps of one relay pulse.
//! - `protocol`: the signals, actions and notices that controller and driver
//!   exchange.
//! - `controller`: the reconciliation loop as a state machine.
//! - `bus`: topics, messages, and the reading of incoming events.
//! - `descriptor`: the discovery descriptor and its JSON encoding.
//! - `settings`: the fixed settings of the installation.
//! - `laws`: what holds of every run of the controller.

pub mod door;
pub mod hardware;
pub mod protocol;
pub mod relay;
pub mod controller;
pub mod bus;
pub mod descriptor;
pub mod settings;
pub mod laws;
