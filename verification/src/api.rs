//! What the HTTP interface decides and answers.

pub mod artifacts;
pub mod ipxe;
pub mod os_names;
pub mod overlay;
pub mod pages;
pub mod progress;
pub mod ranges;
pub mod replies;
