//! A minimal HTTP "hello world" backend, verified.
//!
//! The library holds everything the two server flavours decide on their own:
//! which requests the single route answers, what the response to each request
//! is, how the bind address string is formed from a host and a port, and how
//! the process lifecycle reacts to the outcome of binding the listener. The
//! surrounding binary performs the actual socket work and drives the web
//! framework; it hands this library plain values and sends back what it gets.

pub mod handler;
pub mod http;
pub mod server;
