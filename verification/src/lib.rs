//! A registry of uniquely identified tokens: who owns which token, under a
//! fixed capacity per account, and a sale protocol that couples a payment
//! with the change of owner.

pub mod ident;
pub mod laws;
pub mod model;
pub mod owned;
pub mod registry;

pub use model::{Error, Event, LedgerError, Payment, State, Token};
pub use owned::OwnedList;
pub use registry::{Config, Pallet};
