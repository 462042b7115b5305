//! A verified model of a reset trampoline: the first routine a
//! microcontroller executes after hardware reset.  It sequences the
//! platform initializer and the application entry point, and converts a
//! forbidden return from the application into a terminal trap state
//! instead of letting execution fall through into garbage instructions.

pub mod machine;
pub mod runner;
