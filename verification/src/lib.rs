//! A minimal HTTP client built directly on an abstract TCP transport.
//!
//! Given a host and a path, the request driver resolves an address, opens a
//! connection, issues a bare `GET` request and streams the response back to
//! the caller as a sequence of discrete events.  The transport itself is
//! reached only through the `Connection` / `ConnectionFactory` capability
//! interfaces, so deterministic in-process doubles can stand in for real
//! sockets.

pub mod address;
pub mod connection;
pub mod http_client;
pub mod properties;
