//! A fungible token whose operations are gated by an owner and a pause
//! switch, modelled as a verified state machine.
pub mod errors;
pub mod ledger;
pub mod token;
pub mod laws;

pub use errors::{AccountId, TokenError};
pub use ledger::Ledger;
pub use token::ColibriToken;
