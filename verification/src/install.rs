//! Setting up the server on a host: deployment modes, service definitions and the steps that put
//! them in place.

pub mod mode;
pub mod tasks;
pub mod setup;
pub mod cluster;
