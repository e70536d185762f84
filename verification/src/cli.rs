//! The command line of the service.

pub mod manager;
