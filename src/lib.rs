//! A formatting adapter for a host editor: it negotiates capabilities at
//! start-up, remembers which formatter executable to run, and turns each
//! formatting request into one invocation of that executable.

pub mod adapter;
pub mod laws;
pub mod protocol;
