//! Tinkerbell: the resources that describe machines to it, the workflows that install operating
//! systems, and how long their actions take.

pub mod timings;
pub mod resources;
pub mod workflow;
