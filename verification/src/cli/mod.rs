//! The command line client: what its arguments ask for, and what it prints.

pub mod dialog;
pub mod laws;
pub mod points;
pub mod request;
pub mod session;
pub mod show;
pub mod status;
