//! What is kept of machines, administrators and settings, and how the schema that keeps it grows.

pub mod migrations;
pub mod records;
