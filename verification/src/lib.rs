//! A validated façade over an upstream wallet-data provider.

pub mod address;
pub mod backoff;
pub mod balance;
pub mod boundary;
pub mod error;
pub mod resolver;
pub mod snapshot;
pub mod trace;
pub mod upstream;
