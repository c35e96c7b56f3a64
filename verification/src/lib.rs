//! A verified core for a streaming market-data client.
//!
//! The library decodes transport frames, parses the exchange's compact JSON
//! wire form into typed events, and drives a reconnecting connection state
//! machine. All logic here is verified; the surrounding process (sockets,
//! environment, printing) lives outside the library.

pub mod decode;
pub mod encode;
pub mod events;
pub mod frame;
pub mod keys;
pub mod laws;
pub mod scan;
pub mod supervisor;
