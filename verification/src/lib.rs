//! A payment-escrow lifecycle engine for a two-party marketplace.
//!
//! A paying client and a service-providing artisan agree on a fixed amount and
//! a deadline.  The engine custodies the payment between `deposit` and
//! `release`, hands it to the artisan when the client approves in time, and
//! returns it to the client through `reclaim` once the deadline has passed
//! without approval.  A small reputation module aggregates star ratings for
//! artisans.
//!
//! The engine keeps its records and its id counter as explicit state
//! ([`engine::EscrowContract`]); the value-transfer ledger it moves money on
//! is modelled by [`ledger::Ledger`].  A host that stores records durably,
//! checks signatures and moves real tokens drives these types from outside,
//! feeding in the current time and the authenticated caller.

pub mod address;
pub mod engine;
pub mod errors;
pub mod escrow;
pub mod ledger;
pub mod reputation;

pub use address::Address;
pub use engine::EscrowContract;
pub use errors::Error;
pub use escrow::{Escrow, Status, EngagementInitializedEvent, ReclaimedEvent, EscrowEvent, Transfer};
pub use ledger::Ledger;
pub use reputation::{read_reputation, write_reputation, ReputationContract, ReputationData};
