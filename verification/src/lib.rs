//! Request encoding and response decoding for the IPMI user management
//! commands, with contracts that pin every byte down.

pub mod app;
pub mod connection;
