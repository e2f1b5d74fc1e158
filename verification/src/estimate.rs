//! The nominal gas estimate that the policy starts from.

use vstd::prelude::*;

verus! {

/// What the underlying estimator proposes for one transaction, under one of
/// the two fee models.
#[derive(Clone, Copy, Debug, PartialEq, Eq, Structural)]
pub enum BaselineEstimate {
    /// A single price per unit of gas.
    Legacy {
        /// The nominal gas limit.
        gas_limit: u64,
        /// The nominal price per unit of gas.
        gas_price: u128,
    },
    /// A maximum total fee and a separate priority fee.
    Eip1559 {
        /// The nominal gas limit.
        gas_limit: u64,
        /// The nominal maximum total fee per unit of gas.
        max_fee_per_gas: u128,
        /// The nominal maximum priority fee per unit of gas.
        max_priority_fee_per_gas: u128,
    },
}

impl BaselineEstimate {
    /// The nominal gas limit, which both fee models carry.
    pub open spec fn spec_gas_limit(self) -> u64 {
        match self {
            BaselineEstimate::Legacy { gas_limit, .. } => gas_limit,
            BaselineEstimate::Eip1559 { gas_limit, .. } => gas_limit,
        }
    }

    /// The nominal gas limit, which both fee models carry.
    pub fn gas_limit(&self) -> (limit: u64)
        ensures
            limit == self.spec_gas_limit(),
    {
        match self {
            BaselineEstimate::Legacy { gas_limit, .. } => *gas_limit,
            BaselineEstimate::Eip1559 { gas_limit, .. } => *gas_limit,
        }
    }
}

} // verus!
