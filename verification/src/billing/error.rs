//! Errors reported by the billing subsystem.
use vstd::prelude::*;
use crate::text::{cents_text, push_cents, push_str};

verus! {

/// An error reported by a billing operation.
#[derive(Debug, Clone)]
pub enum BillingError {
    /// A top-up was smaller than the configured minimum.
    TopUpBelowMinimum { amount_cents: u32, min_topup_cents: u32 },
    /// A payment provider key that no provider is registered under.
    UnknownProvider { key: String },
    /// A payment provider operation that has no implementation yet.
    NotImplemented { operation: String },
}

/// The text shared by every "not implemented" error: the operation, then this suffix.
pub open spec fn not_implemented_text(operation: Seq<char>) -> Seq<char> {
    operation + " is not yet implemented"@
}

/// The text of an unknown-provider error.
pub open spec fn unknown_provider_text(key: Seq<char>) -> Seq<char> {
    "Unknown payment provider: \""@ + key
        + "\". Supported: stripe, crypto, amex, paypal, venmo, cashapp"@
}

/// The text of a rejected top-up.
pub open spec fn top_up_below_minimum_text(amount: nat, minimum: nat) -> Seq<char> {
    "Minimum top-up is "@ + cents_text(minimum as int) + " (requested "@ + cents_text(
        amount as int,
    ) + ")"@
}

impl BillingError {
    /// The human-readable message of this error.
    pub open spec fn message(&self) -> Seq<char> {
        match self {
            BillingError::TopUpBelowMinimum { amount_cents, min_topup_cents } => {
                top_up_below_minimum_text(*amount_cents as nat, *min_topup_cents as nat)
            },
            BillingError::UnknownProvider { key } => unknown_provider_text(key@),
            BillingError::NotImplemented { operation } => not_implemented_text(operation@),
        }
    }

    /// Renders the error message.
    pub fn to_string(&self) -> (r: String)
        ensures
            r@ == self.message(),
    {
        let mut s = String::new();
        match self {
            BillingError::TopUpBelowMinimum { amount_cents, min_topup_cents } => {
                push_str(&mut s, "Minimum top-up is ");
                push_cents(&mut s, false, *min_topup_cents as u64);
                push_str(&mut s, " (requested ");
                push_cents(&mut s, false, *amount_cents as u64);
                push_str(&mut s, ")");
            },
            BillingError::UnknownProvider { key } => {
                push_str(&mut s, "Unknown payment provider: \"");
                push_str(&mut s, key.as_str());
                push_str(&mut s, "\". Supported: stripe, crypto, amex, paypal, venmo, cashapp");
            },
            BillingError::NotImplemented { operation } => {
                push_str(&mut s, operation.as_str());
                push_str(&mut s, " is not yet implemented");
            },
        }
        s
    }
}

} // verus!
