//! What the agent finds out on a machine, and what it does there.

pub mod boot;
pub mod enrolment;
pub mod hardware;
pub mod os;
