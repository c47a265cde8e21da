//! Discovery and synchronisation of automated market makers (AMMs).
//!
//! The library holds the decisions: which index ranges are read from a factory,
//! which token pairs are asked for, how a pool creation log is read, what is read for
//! an AMM that comes out of a checkpoint and in which order a checkpoint is brought up
//! to date. Reading the chain, the clock and the disk is left to the caller, who
//! performs the requests that the library hands out and returns the replies.
pub mod amm;
pub mod errors;
pub(crate) mod lists;
pub mod primitives;
pub mod sync;
