//! Windowed scanning of a block-indexed event log.
//!
//! A scan walks a range of blocks in windows of bounded width, asks a node
//! for the events of one contract in each window, decodes them and sums their
//! token amounts. This crate holds the logic, with machine-checked contracts:
//!
//! - `range`, `partition`: block intervals and the windows that tile one;
//! - `schema`, `decode`: the event layouts, and raw log entries decoded
//!   against a layout chosen by the caller;
//! - `amount`, `aggregate`: amounts of any size and the running sums;
//! - `config`, `scan`: what a scan is told, and the state machine that drives
//!   it; the caller performs the waiting, the queries and the reporting;
//! - `get_yield`: the scans of the Jones GLP vaults;
//! - `ethers_api`: the calls into `ethers`, which are trusted, not proved.

pub mod aggregate;
pub mod amount;
pub mod config;
pub mod decode;
pub mod ethers_api;
pub mod get_yield;
pub mod partition;
pub mod range;
pub mod scan;
pub mod schema;
