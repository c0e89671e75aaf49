//! A property registry and marketplace.
//!
//! Listings are recorded under dense identifiers, a single governance
//! identity approves them, and an approved property changes hands whenever an
//! offer meets its listed price.

pub mod account;
pub mod error;
pub mod history;
pub mod laws;
pub mod registry;
pub mod rules;
pub mod state;

pub use account::AccountId;
pub use error::Error;
pub use registry::RealEstateContract;
pub use state::{PropertyId, RegistryState};
