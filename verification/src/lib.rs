//! Verified core of a bulk loader for hierarchical grid-cell codes.
//!
//! The library models the concurrent pipeline of the loader: a producer that
//! expands root codes into grid cells and builds bounding-box rows, a bounded
//! FIFO channel providing backpressure, a pool of batching inserter workers,
//! a progress aggregator, and a coordinator that propagates the first fatal
//! error and decides whether the metadata phase may run. The asynchronous runtime, the database
//! driver and the terminal progress bar live outside the library; the
//! decisions they carry out are verified here.

pub mod channel;
pub mod config;
pub mod coordinator;
pub mod errors;
pub mod generate;
pub mod grid;
pub mod inserter;
pub mod metadata;
pub mod pipeline;
pub mod level;
pub mod progress;
pub mod row;
pub mod store;
