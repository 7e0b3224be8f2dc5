//! A small HTTP log-ingestion front-end, with its decision logic verified.
//!
//! The library holds everything the service decides or computes: loading a
//! `ServerConfig` from the argument vector (with IP-literal validation),
//! routing a request to a handler, building the canonical responses for the
//! two routes and their rejections, decoding a `/collect` body as JSON, and
//! formatting the per-request access-log record. Binding the socket, driving
//! the HTTP runtime and emitting log lines are left to the surrounding
//! program, which hands this library plain values and receives plain values
//! back.

pub mod access;
pub mod config;
pub mod ip;
pub mod json;
pub mod respond;
pub mod router;
pub mod scan;
