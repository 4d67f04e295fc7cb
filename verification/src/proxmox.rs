//! Proxmox clusters: finding them, reading what they report, and keeping the records of their
//! machines in step.

pub mod replies;
pub mod discovery;
pub mod sync;
pub mod connect;
pub mod scan;
