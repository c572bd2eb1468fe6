//! Error categories and the blocks of wire codes that they own.

use vstd::prelude::*;

verus! {

/// Groups errors by domain for monitoring, alerting and dashboards.
/// Off-chain consumers switch on this value first, then on the specific
/// `ContractError` code.
#[derive(Clone, Copy, Debug, PartialEq, Eq, Structural)]
pub enum ErrorCategory {
    /// Contract setup and initialization errors (codes 1-99).
    Initialization,
    /// Caller identity and permission errors (codes 100-199).
    Authorization,
    /// Bond lifecycle errors (codes 200-299).
    Bond,
    /// Attestation errors (codes 300-399).
    Attestation,
    /// Registry identity/contract errors (codes 400-499).
    Registry,
    /// Delegation errors (codes 500-599).
    Delegation,
    /// Treasury proposal and balance errors (codes 600-699).
    Treasury,
    /// Safe-math errors (codes 700-799).
    Arithmetic,
}

/// The category whose block of wire codes holds `code`, or `None` for a
/// code outside every block.
pub open spec fn category_of_code(code: int) -> Option<ErrorCategory> {
    if 1 <= code <= 99 {
        Some(ErrorCategory::Initialization)
    } else if 100 <= code <= 199 {
        Some(ErrorCategory::Authorization)
    } else if 200 <= code <= 299 {
        Some(ErrorCategory::Bond)
    } else if 300 <= code <= 399 {
        Some(ErrorCategory::Attestation)
    } else if 400 <= code <= 499 {
        Some(ErrorCategory::Registry)
    } else if 500 <= code <= 599 {
        Some(ErrorCategory::Delegation)
    } else if 600 <= code <= 699 {
        Some(ErrorCategory::Treasury)
    } else if 700 <= code <= 799 {
        Some(ErrorCategory::Arithmetic)
    } else {
        None
    }
}

} // verus!
