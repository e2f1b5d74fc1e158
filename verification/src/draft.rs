//! A transaction draft, as far as its gas fields go.

use vstd::prelude::*;

verus! {

/// The gas fields of a transaction. A field that was never set is `None`.
#[derive(Clone, Copy, Debug, PartialEq, Eq, Structural)]
pub struct GasFields {
    /// The most gas the transaction may consume.
    pub gas_limit: Option<u64>,
    /// The price per unit of gas, under the legacy fee model.
    pub gas_price: Option<u128>,
    /// The maximum total fee per unit of gas, under the EIP-1559 fee model.
    pub max_fee_per_gas: Option<u128>,
    /// The maximum priority fee per unit of gas, under the EIP-1559 fee model.
    pub max_priority_fee_per_gas: Option<u128>,
}

impl GasFields {
    /// Gas fields of which none is set.
    pub fn unset() -> (fields: GasFields)
        ensures
            fields == (GasFields {
                gas_limit: None,
                gas_price: None,
                max_fee_per_gas: None,
                max_priority_fee_per_gas: None,
            }),
    {
        GasFields {
            gas_limit: None,
            gas_price: None,
            max_fee_per_gas: None,
            max_priority_fee_per_gas: None,
        }
    }

    /// Sets the gas limit and leaves the other fields as they are.
    pub fn set_gas_limit(&mut self, gas_limit: u64)
        ensures
            *final(self) == (GasFields { gas_limit: Some(gas_limit), ..*old(self) }),
    {
        self.gas_limit = Some(gas_limit);
    }

    /// Sets the legacy gas price and leaves the other fields as they are.
    pub fn set_gas_price(&mut self, gas_price: u128)
        ensures
            *final(self) == (GasFields { gas_price: Some(gas_price), ..*old(self) }),
    {
        self.gas_price = Some(gas_price);
    }

    /// Sets the maximum total fee per unit of gas and leaves the other fields
    /// as they are.
    pub fn set_max_fee_per_gas(&mut self, max_fee_per_gas: u128)
        ensures
            *final(self) == (GasFields { max_fee_per_gas: Some(max_fee_per_gas), ..*old(self) }),
    {
        self.max_fee_per_gas = Some(max_fee_per_gas);
    }

    /// Sets the maximum priority fee per unit of gas and leaves the other
    /// fields as they are.
    pub fn set_max_priority_fee_per_gas(&mut self, max_priority_fee_per_gas: u128)
        ensures
            *final(self) == (GasFields {
                max_priority_fee_per_gas: Some(max_priority_fee_per_gas),
                ..*old(self)
            }),
    {
        self.max_priority_fee_per_gas = Some(max_priority_fee_per_gas);
    }
}

/// A transaction on its way to being sent.
#[derive(Clone, Copy, Debug, PartialEq, Eq, Structural)]
pub enum TxDraft {
    /// Still being built: its gas fields can be set.
    Builder(GasFields),
    /// Finalized into its sendable form: its gas fields can no longer change.
    Envelope(GasFields),
}

impl TxDraft {
    /// The gas fields that the draft holds, in either state.
    pub open spec fn spec_gas_fields(self) -> GasFields {
        match self {
            TxDraft::Builder(fields) => fields,
            TxDraft::Envelope(fields) => fields,
        }
    }

    /// The gas fields that the draft holds, in either state.
    pub fn gas_fields(&self) -> (fields: GasFields)
        ensures
            fields == self.spec_gas_fields(),
    {
        match self {
            TxDraft::Builder(fields) => *fields,
            TxDraft::Envelope(fields) => *fields,
        }
    }

    /// Access to the gas fields for writing, if the draft can still take
    /// them, and `None` if it was finalized. What is written through the
    /// reference becomes the draft's gas fields.
    pub fn as_mut_builder(&mut self) -> (builder: Option<&mut GasFields>)
        ensures
            *old(self) is Builder <==> builder is Some,
            *old(self) is Envelope ==> *final(self) == *old(self),
            builder matches Some(fields) ==> *fields == (*old(self)).spec_gas_fields()
                && *final(self) == TxDraft::Builder(*final(fields)),
    {
        match self {
            TxDraft::Builder(fields) => Some(fields),
            TxDraft::Envelope(_) => None,
        }
    }
}

} // verus!
