//! Verified core of a local static-file HTTP server.
//!
//! The library owns the logic that is worth proving: parsing of the
//! command-line conventions, configuration merging, the bounded
//! port-acquisition protocol, the server lifecycle state machine,
//! content-type adjustment, and the decimal formatting helpers.
//! The surrounding process (sockets, files, the HTTP stack) drives
//! these functions and performs the actual I/O.

pub mod args;
pub mod config;
pub mod fmt;
pub mod lifecycle;
pub mod mime;
pub mod ports;
pub mod timestamp;
