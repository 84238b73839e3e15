//! Escrow ledger for car rentals: registration of cars and clients, KYC
//! verification, and the locking and settlement of rental funds.
//!
//! Every operation is a verified function from the records it reads to the
//! records it writes (or an error, in which case nothing is written). Storage,
//! address canonicalization and message encoding live with the host.
pub mod accounting;
pub mod contract;
pub mod error;
pub mod laws;
pub mod msg;
pub mod state;
