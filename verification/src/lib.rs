//! Request signing and cursor pagination for the Coinbase REST API.

use vstd::prelude::*;

pub mod error;
pub mod headers;
pub mod json;
pub mod pagination;
pub mod private;
pub mod request;
pub mod signer;
pub mod text;
pub mod uri;
pub mod values;

pub use error::CBError;
pub use private::Private;
pub use values::{DateTime, Uuid};

verus! {

/// Base address of the production API.
pub const MAIN_URL: &'static str = "https://api.coinbase.com";

} // verus!
