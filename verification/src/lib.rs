//! A verified cross-chain token dealer.
//!
//! The library coordinates token transfers between a local ledger and two
//! kinds of remote chains: a central relay chain and sibling parachains.
//! It derives the sovereign accounts that represent remote chains locally,
//! converts amounts between relay and local units, and moves ledger balances
//! in lockstep with outbound and inbound transfer messages, recording one
//! outcome event per operation.

pub mod dealer;
pub mod ledger;
pub mod messages;
pub mod rates;
pub mod sovereign;
