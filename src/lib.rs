//! Escrowed rental ledger: a fleet owner registers a car, a renter reserves it
//! by depositing funds into custody, and the owner and the administrator
//! withdraw their claimable shares.
//!
//! The ledger is a plain value. Every operation either fails and leaves it
//! untouched, or updates it and names the single token transfer that the host
//! must carry out in the same atomic step.
pub mod contract;
pub mod error;
pub mod laws;
pub mod model;
pub mod types;

pub use contract::RentACarContract;
pub use error::Error;
pub use model::LedgerModel;
pub use types::{Car, CarStatus, Rental, Transfer};
