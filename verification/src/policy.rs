//! The dynamic gas policy: a price multiplier that grows with the number of
//! the account's unconfirmed transactions, and a gas limit with headroom.

use vstd::prelude::*;
use crate::decimal::{Decimal, MICROS_PER_UNIT};
use crate::draft::{GasFields, TxDraft};
use crate::estimate::BaselineEstimate;
use crate::rounding::{grown_ceil, lemma_ceil_div_is_least, lemma_ceil_div_monotone, saturate_u64};

verus! {

/// The price, in wei per unit of gas, that `fill` writes into every fee field.
pub const GAS_PRICE_FLOOR: u128 = 30_000_000_000;

/// `alloy::primitives::Address`, a 20-byte account address. The policy stores
/// it and hands it back; nothing is assumed about its contents.
#[verifier::external_type_specification]
#[verifier::external_body]
pub struct ExAddress(alloy::primitives::Address);

/// How many transactions of an account a node has seen but not yet confirmed:
/// `pending_nonce - confirmed_nonce`, or zero where the node's view is stale
/// and the pending count lies below the confirmed one.
pub open spec fn spec_tx_diff(confirmed_nonce: u64, pending_nonce: u64) -> nat {
    if pending_nonce >= confirmed_nonce {
        (pending_nonce - confirmed_nonce) as nat
    } else {
        0
    }
}

/// A gas filler that adjusts gas parameters to the number of pending
/// transactions of one account.
///
/// The price multiplier grows by `gas_increase_factor` for each pending
/// transaction, up to `max_gas_multiplier`; the gas limit gets
/// `gas_limit_factor` of headroom.
#[derive(Clone, Copy, Debug)]
pub struct DynamicGasFiller {
    /// The fraction of the nominal gas limit that is added to it.
    pub gas_limit_factor: Decimal,
    /// The fraction added to the price multiplier for each pending transaction.
    pub gas_increase_factor: Decimal,
    /// The upper bound of the price multiplier.
    pub max_gas_multiplier: Decimal,
    /// The address whose pending transaction count is looked at.
    pub address: alloy::primitives::Address,
}

/// What one preparation pass hands to the fill step.
#[derive(Clone, Copy, Debug, PartialEq, Eq, Structural)]
pub struct DynamicGasParams {
    /// The nominal gas estimate.
    pub fillable: BaselineEstimate,
    /// The price multiplier that the congestion calls for.
    pub multiplier: Decimal,
}

impl DynamicGasFiller {
    /// A configuration is sane when its multiplier bound is at least one.
    pub open spec fn is_sane(self) -> bool {
        self.max_gas_multiplier@ >= MICROS_PER_UNIT
    }

    /// The price multiplier for `tx_diff` unconfirmed transactions, in
    /// millionths: `1 + tx_diff * gas_increase_factor`, capped at
    /// `max_gas_multiplier`.
    pub open spec fn spec_multiplier(self, tx_diff: nat) -> nat {
        let raw = MICROS_PER_UNIT + tx_diff * self.gas_increase_factor@;
        if raw <= self.max_gas_multiplier@ {
            raw as nat
        } else {
            self.max_gas_multiplier@
        }
    }

    /// The gas limit to request for a nominal limit of `gas_limit`:
    /// `gas_limit * (1 + gas_limit_factor)` rounded up, or the largest `u64`
    /// where that does not fit.
    pub open spec fn spec_adjusted_gas_limit(self, gas_limit: u64) -> u64 {
        saturate_u64(grown_ceil(gas_limit as int, self.gas_limit_factor@ as int))
    }

    /// Creates a new `DynamicGasFiller`.
    ///
    /// * `gas_limit_factor` - the fraction by which to increase the gas limit.
    /// * `gas_increase_factor` - the fraction by which to increase the price
    ///   multiplier for each pending transaction.
    /// * `max_gas_multiplier` - the largest price multiplier.
    /// * `address` - the address whose pending transaction count is looked at.
    pub fn new(
        gas_limit_factor: Decimal,
        gas_increase_factor: Decimal,
        max_gas_multiplier: Decimal,
        address: alloy::primitives::Address,
    ) -> (filler: Self)
        ensures
            filler.gas_limit_factor == gas_limit_factor,
            filler.gas_increase_factor == gas_increase_factor,
            filler.max_gas_multiplier == max_gas_multiplier,
            filler.address == address,
    {
        Self { gas_limit_factor, gas_increase_factor, max_gas_multiplier, address }
    }

    /// The number of unconfirmed transactions that the two counts show.
    pub fn tx_diff(confirmed_nonce: u64, pending_nonce: u64) -> (diff: u64)
        ensures
            diff == spec_tx_diff(confirmed_nonce, pending_nonce),
            pending_nonce < confirmed_nonce ==> diff == 0,
    {
        pending_nonce.saturating_sub(confirmed_nonce)
    }

    /// The price multiplier for `tx_diff` unconfirmed transactions.
    pub fn multiplier(&self, tx_diff: u64) -> (m: Decimal)
        ensures
            m@ == self.spec_multiplier(tx_diff as nat),
            m@ <= self.max_gas_multiplier@,
            self.is_sane() ==> MICROS_PER_UNIT <= m@,
    {
        let step: u128 = self.gas_increase_factor.micros as u128;
        assert(tx_diff * step <= 0xFFFF_FFFF_FFFF_FFFF * 0xFFFF_FFFF_FFFF_FFFF) by (nonlinear_arith)
            requires
                tx_diff <= 0xFFFF_FFFF_FFFF_FFFF,
                step <= 0xFFFF_FFFF_FFFF_FFFF,
        ;
        let raw: u128 = MICROS_PER_UNIT as u128 + tx_diff as u128 * step;
        let cap: u64 = self.max_gas_multiplier.micros;
        if raw <= cap as u128 {
            Decimal { micros: raw as u64 }
        } else {
            Decimal { micros: cap }
        }
    }

    /// The gas limit to request for a nominal limit of `gas_limit`.
    pub fn adjusted_gas_limit(&self, gas_limit: u64) -> (adjusted: u64)
        ensures
            adjusted == self.spec_adjusted_gas_limit(gas_limit),
    {
        let unit: u128 = MICROS_PER_UNIT as u128;
        let factor: u128 = self.gas_limit_factor.micros as u128;
        assert(gas_limit * factor <= 0xFFFF_FFFF_FFFF_FFFF * 0xFFFF_FFFF_FFFF_FFFF) by (nonlinear_arith)
            requires
                gas_limit <= 0xFFFF_FFFF_FFFF_FFFF,
                factor <= 0xFFFF_FFFF_FFFF_FFFF,
        ;
        let headroom: u128 = (gas_limit as u128 * factor + (unit - 1)) / unit;
        let total: u128 = gas_limit as u128 + headroom;
        assert(total == grown_ceil(gas_limit as int, factor as int)) by {
            assert(gas_limit * (MICROS_PER_UNIT + factor) == gas_limit * MICROS_PER_UNIT + gas_limit
                * factor) by (nonlinear_arith);
        }
        if total > u64::MAX as u128 {
            u64::MAX
        } else {
            total as u64
        }
    }

    /// The gas fields after the fill step has written into `fields` what
    /// `fillable` calls for: the adjusted gas limit, and the floor price in
    /// each fee field of the estimate's fee model. The other fields stay.
    pub open spec fn spec_fill_fields(self, fillable: BaselineEstimate, fields: GasFields) -> GasFields {
        let gas_limit = Some(self.spec_adjusted_gas_limit(fillable.spec_gas_limit()));
        match fillable {
            BaselineEstimate::Legacy { .. } => GasFields {
                gas_limit,
                gas_price: Some(GAS_PRICE_FLOOR),
                ..fields
            },
            BaselineEstimate::Eip1559 { .. } => GasFields {
                gas_limit,
                max_fee_per_gas: Some(GAS_PRICE_FLOOR),
                max_priority_fee_per_gas: Some(GAS_PRICE_FLOOR),
                ..fields
            },
        }
    }

    /// The draft after the fill step: a draft that is still being built gets
    /// its gas fields filled, a finalized one stays as it is.
    pub open spec fn spec_fill(self, params: DynamicGasParams, tx: TxDraft) -> TxDraft {
        match tx {
            TxDraft::Builder(fields) => TxDraft::Builder(
                self.spec_fill_fields(params.fillable, fields),
            ),
            TxDraft::Envelope(_) => tx,
        }
    }

    /// This filler never fills anything without the counts from the node: the
    /// draft is left as it is.
    pub fn fill_sync(&self, tx: &mut TxDraft)
        ensures
            *final(tx) == *old(tx),
    {
    }

    /// Derives the parameters of one pass from the nominal estimate and the
    /// account's two transaction counts: the one at the latest confirmed block
    /// and the one that includes pending transactions.
    pub fn prepare(
        &self,
        fillable: BaselineEstimate,
        confirmed_nonce: u64,
        pending_nonce: u64,
    ) -> (params: DynamicGasParams)
        ensures
            params.fillable == fillable,
            params.multiplier@ == self.spec_multiplier(
                spec_tx_diff(confirmed_nonce, pending_nonce),
            ),
            pending_nonce <= confirmed_nonce && self.is_sane() ==> params.multiplier@
                == MICROS_PER_UNIT,
    {
        let tx_diff: u64 = Self::tx_diff(confirmed_nonce, pending_nonce);
        let multiplier = self.multiplier(tx_diff);
        assert(tx_diff == 0 ==> tx_diff * self.gas_increase_factor@ == 0) by (nonlinear_arith);
        DynamicGasParams { fillable, multiplier }
    }

    /// Writes the adjusted gas limit and the floor price into a draft that is
    /// still being built; hands a finalized draft back as it came.
    pub fn fill(&self, params: DynamicGasParams, tx: TxDraft) -> (out: TxDraft)
        ensures
            out == self.spec_fill(params, tx),
            tx is Envelope ==> out == tx,
    {
        let mut tx = tx;
        if let Some(builder) = tx.as_mut_builder() {
            let adjusted_gas_limit: u64 = self.adjusted_gas_limit(params.fillable.gas_limit());
            builder.set_gas_limit(adjusted_gas_limit);
            match params.fillable {
                BaselineEstimate::Legacy { .. } => {
                    builder.set_gas_price(GAS_PRICE_FLOOR);
                },
                BaselineEstimate::Eip1559 { .. } => {
                    builder.set_max_fee_per_gas(GAS_PRICE_FLOOR);
                    builder.set_max_priority_fee_per_gas(GAS_PRICE_FLOOR);
                },
            }
        }
        tx
    }
}

/// Under a sane configuration the multiplier is at least one and at most the
/// configured bound, however many transactions are outstanding.
pub proof fn lemma_multiplier_in_range(filler: DynamicGasFiller, tx_diff: nat)
    requires
        filler.is_sane(),
    ensures
        MICROS_PER_UNIT <= filler.spec_multiplier(tx_diff) <= filler.max_gas_multiplier@,
{
    assert(0 <= tx_diff * filler.gas_increase_factor@) by (nonlinear_arith);
}

/// The adjusted gas limit is the nominal limit times `1 + gas_limit_factor`,
/// rounded up: where that product is within the range of `u64`, the adjusted
/// limit is the least integer that is not below it, and where the product is
/// beyond that range, the adjusted limit is the largest `u64`. It is never
/// below the nominal limit.
pub proof fn lemma_adjusted_gas_limit_is_ceiling(filler: DynamicGasFiller, gas_limit: u64)
    ensures
        ({
            let adjusted = filler.spec_adjusted_gas_limit(gas_limit);
            let exact_micros = gas_limit * (MICROS_PER_UNIT + filler.gas_limit_factor@);
            &&& gas_limit <= adjusted
            &&& exact_micros <= u64::MAX * MICROS_PER_UNIT ==> (adjusted - 1) * MICROS_PER_UNIT
                < exact_micros <= adjusted * MICROS_PER_UNIT
            &&& exact_micros > u64::MAX * MICROS_PER_UNIT ==> adjusted == u64::MAX
        }),
{
    let factor = filler.gas_limit_factor@ as int;
    let exact_micros = gas_limit * (MICROS_PER_UNIT + factor);
    let ceiling = grown_ceil(gas_limit as int, factor);
    assert(exact_micros >= gas_limit * MICROS_PER_UNIT) by (nonlinear_arith)
        requires
            exact_micros == gas_limit * (MICROS_PER_UNIT + factor),
            factor >= 0,
    ;
    lemma_ceil_div_is_least(exact_micros, MICROS_PER_UNIT as int, ceiling - 1);
    lemma_ceil_div_is_least(exact_micros, MICROS_PER_UNIT as int, gas_limit as int - 1);
    lemma_ceil_div_is_least(exact_micros, MICROS_PER_UNIT as int, u64::MAX as int);
}

/// The adjusted gas limit does not decrease when the gas limit factor grows.
pub proof fn lemma_adjusted_gas_limit_monotone(
    lower: DynamicGasFiller,
    higher: DynamicGasFiller,
    gas_limit: u64,
)
    requires
        lower.gas_limit_factor@ <= higher.gas_limit_factor@,
    ensures
        lower.spec_adjusted_gas_limit(gas_limit) <= higher.spec_adjusted_gas_limit(gas_limit),
{
    let low = lower.gas_limit_factor@ as int;
    let high = higher.gas_limit_factor@ as int;
    assert(gas_limit * (MICROS_PER_UNIT + low) <= gas_limit * (MICROS_PER_UNIT + high))
        by (nonlinear_arith)
        requires
            low <= high,
    ;
    lemma_ceil_div_monotone(
        gas_limit * (MICROS_PER_UNIT + low),
        gas_limit * (MICROS_PER_UNIT + high),
        MICROS_PER_UNIT as int,
    );
}

/// What the fill step writes does not depend on the multiplier: two passes
/// with the same estimate and different multipliers leave the same draft, and
/// every fee field that is written holds the floor price.
pub proof fn lemma_fill_ignores_multiplier(
    filler: DynamicGasFiller,
    fillable: BaselineEstimate,
    multiplier: Decimal,
    other_multiplier: Decimal,
    tx: TxDraft,
)
    ensures
        filler.spec_fill(DynamicGasParams { fillable, multiplier }, tx) == filler.spec_fill(
            DynamicGasParams { fillable, multiplier: other_multiplier },
            tx,
        ),
        tx is Builder && fillable is Legacy ==> filler.spec_fill(
            DynamicGasParams { fillable, multiplier },
            tx,
        ).spec_gas_fields().gas_price == Some(GAS_PRICE_FLOOR),
        tx is Builder && fillable is Eip1559 ==> {
            let fields = filler.spec_fill(
                DynamicGasParams { fillable, multiplier },
                tx,
            ).spec_gas_fields();
            &&& fields.max_fee_per_gas == Some(GAS_PRICE_FLOOR)
            &&& fields.max_priority_fee_per_gas == Some(GAS_PRICE_FLOOR)
        },
{
}

} // verus!
