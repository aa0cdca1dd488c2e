//! Core logic of a small static-file web service: resolution of the network
//! bind address from layered configuration sources, and the state machine that
//! coordinates binding, serving, graceful drain and shutdown.

pub mod conf;
pub mod lifecycle;
