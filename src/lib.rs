//! The composition root of a modular media server: configuration, the order in
//! which providers, store, backend and application state are brought up, the
//! launch of every subsystem, the cooperative shutdown signal and the join
//! barrier that waits for every subsystem to end.

pub mod config;
pub mod lifecycle;
pub mod shutdown;
