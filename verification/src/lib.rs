//! Verified core of a miner management library: error-code decoding,
//! hardware tables, model and control-board parsing, hash-rate units,
//! pool URLs and the decisions made while discovering a miner.
use vstd::prelude::*;

pub mod error_codes;
pub mod error_tables;
pub mod antminer;
pub mod braiins;
pub mod device;
pub mod discovery;
pub mod errors;
pub mod firmware;
pub mod hardware;
pub mod hashrate;
pub mod json;
pub mod models;
pub mod nerdaxe;
pub mod pool;
pub mod rpc;
pub mod text;

verus! {

} // verus!
