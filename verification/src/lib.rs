//! A small exchange-rate polling core: a six-character symbol pair, the
//! request URL derived from it, extraction of the quoted `bid` rate out of
//! the JSON body that the rate API answers with, and a shared value cell
//! that a poller publishes the latest rate into.

pub mod bid;
pub mod cell;
pub mod pair;
pub mod poller;
