//! A fixed-price issuance factory: it asks the chain to create one token
//! registry, links to it when the creation is confirmed, and from then on
//! turns each exact payment into one freshly numbered token, up to a fixed cap.
//!
//! [`contract`] holds the entry points and states what each call comes to;
//! [`gate`], [`counter`] and [`coordinator`] hold the decisions they are made
//! of; [`state`] holds the stored record; [`laws`] proves what holds of every
//! history of calls. [`external`] lists what is taken on trust from other
//! crates.

pub mod chain;
pub mod contract;
pub mod coordinator;
pub mod counter;
pub mod decimal;
pub mod error;
pub mod external;
pub mod gate;
pub mod laws;
pub mod msg;
pub mod registry;
pub mod state;
