//! Transaction submission and connection-resilience engine for a client of
//! Cosmos-SDK based chains: endpoint round-robin, gas pricing, recovery from
//! account sequence mismatches, pagination and finality polling.
pub mod text;
pub mod sequence;
pub mod gas;
pub mod config;
pub mod pool;
pub mod submit;
pub mod poll;
pub mod paging;
pub mod block;
pub mod tx;
