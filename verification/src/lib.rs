//! Error codes shared by the Credence smart contracts: the canonical error
//! enum with its wire-stable codes, the category, description and
//! recoverability of each error, and the guards that contracts use to turn
//! bad inputs into these errors.

use vstd::prelude::*;

pub mod category;
pub mod error;
pub mod ext;
pub mod guards;
mod host;
pub mod laws;

pub use category::ErrorCategory;
pub use error::ContractError;
pub use ext::ErrorExt;

verus! {

/// Project-wide version constant.
pub const VERSION: &'static str = "0.1.0";

/// Simple role enum for admin checks.
#[derive(Clone, Copy, Debug, PartialEq, Eq, Structural)]
pub enum Role {
    Admin,
    User,
}

} // verus!
