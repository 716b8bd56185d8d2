//! Tracking of donated blood units through a regulated supply chain.
//!
//! The crate is organised around two cores: the blood-unit lifecycle with its
//! indexed inventory store and audit trail (`inventory`), and the paginated
//! time-series store for cold-chain temperature readings (`temperature`).
//! A structurally simpler payment state machine (`payments`) sits beside them.
//!
//! All state that the hosting ledger would keep in its key-value store is held
//! explicitly in the store types, so every operation is a function from the
//! old state (plus the ledger clock, passed in as a plain timestamp) to the
//! new state, with a verified contract.

pub mod account;
pub mod errors;
pub mod events;
pub mod history;
pub mod inventory;
pub mod payments;
pub mod status;
pub mod temperature;
pub mod unit;
pub mod validation;
