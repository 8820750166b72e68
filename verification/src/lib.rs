//! Distribution of a token to the recipients of a batch: one unit to each.
//!
//! The library decides; it asks nothing of the chain itself. A run
//! ([`run::Run`]) names one request at a time, whoever holds the client and
//! the keys makes it and hands back the answer, and the run moves on. What a
//! run is and does is laid down over plain values in [`state`], and what
//! holds of every run is proved in [`laws`].
//!
//! Around the run stand the readers and writers of its files: the wallet
//! ([`wallet`]), the recipients of a batch ([`batch`]), the cache file that
//! records a finished run ([`cache`], [`record`]), and the round over the
//! batch files ([`driver`]). Addresses and instructions are those of the
//! chain SDK, kept as plain values ([`address`], [`instruction`]).

pub mod address;
pub mod batch;
pub mod cache;
pub mod decimal;
pub mod driver;
pub mod instruction;
pub mod json;
pub mod laws;
pub mod progress;
pub mod record;
pub mod run;
pub mod state;
pub mod wallet;
