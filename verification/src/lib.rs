//! Host-side logic of a small desktop application: the greeting that the
//! front-end may ask for, the shape in which a finished command is reported,
//! and the rules by which the host is configured and brought up.
//!
//! Everything here is plain computation on plain values. Talking to the
//! windowing framework is left to the program that links this library.

pub mod bootstrap;
pub mod command_output;
pub mod greeting;

pub use bootstrap::{
    abort_message, accepts_calls, host_plan, step, Capability, Directive, HostPlan, HostState,
    Operation, StartEvent,
};
pub use command_output::CommandOutput;
pub use greeting::greet;
