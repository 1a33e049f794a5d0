//! Bookkeeping of RGB assets carried by Lightning channels.

pub mod accept;
pub mod chain;
pub mod channel;
pub mod closing;
pub mod codec;
pub mod coloring;
pub mod contract;
pub mod error;
pub mod executor;
pub mod funding;
pub mod json;
pub mod keys;
pub mod lookup;
pub mod network;
pub mod path;
pub mod payments;
pub mod proxy;
pub mod state_file;
pub mod text;
pub mod transactions;
pub mod transport;
pub mod types;
pub mod wallet;
