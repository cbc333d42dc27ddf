//! A price-reference oracle: authorised relayers push rates per symbol, and
//! callers ask for the exchange rate between two symbols.

pub mod account;
pub mod constant;
pub mod error;
pub mod laws;
mod price_store;
pub mod ref_data;
pub mod reference_data;
mod relayer_set;
pub mod std_ref;

pub use account::AccountId;
pub use constant::{E18, E9, USD};
pub use error::Error;
pub use ref_data::RefDatum;
pub use reference_data::ReferenceData;
pub use std_ref::StandardReference;
