use dynamic_gas::decimal::{Decimal, MICROS_PER_UNIT};
use dynamic_gas::draft::{GasFields, TxDraft};
use dynamic_gas::estimate::BaselineEstimate;

#[test]
fn decimal_holds_millionths() {
    assert_eq!(MICROS_PER_UNIT, 1_000_000);
    assert_eq!(Decimal::from_micros(1_300_000).micros, 1_300_000);
    assert_eq!(Decimal::from_micros(1_300_000), Decimal { micros: 1_300_000 });
    assert_eq!(Decimal::from_micros(0).micros, 0);
    assert_eq!(Decimal::from_micros(u64::MAX).micros, u64::MAX);
    assert_eq!(Decimal::one(), Decimal::from_micros(1_000_000));
    assert_ne!(Decimal::one(), Decimal::from_micros(1));
}

#[test]
fn estimate_gas_limit_of_either_fee_model() {
    let legacy = BaselineEstimate::Legacy { gas_limit: 21_000, gas_price: 5 };
    assert_eq!(legacy.gas_limit(), 21_000);
    let eip1559 = BaselineEstimate::Eip1559 {
        gas_limit: 60_000,
        max_fee_per_gas: 9,
        max_priority_fee_per_gas: 1,
    };
    assert_eq!(eip1559.gas_limit(), 60_000);
}

#[test]
fn unset_fields_are_all_none() {
    let fields = GasFields::unset();
    assert_eq!(fields.gas_limit, None);
    assert_eq!(fields.gas_price, None);
    assert_eq!(fields.max_fee_per_gas, None);
    assert_eq!(fields.max_priority_fee_per_gas, None);
}

#[test]
fn setters_set_one_field_each() {
    let mut fields = GasFields::unset();
    fields.set_gas_limit(21_000);
    assert_eq!(fields, GasFields { gas_limit: Some(21_000), ..GasFields::unset() });
    fields.set_gas_price(7);
    assert_eq!(
        fields,
        GasFields { gas_limit: Some(21_000), gas_price: Some(7), ..GasFields::unset() }
    );
    let mut fields = GasFields::unset();
    fields.set_max_fee_per_gas(11);
    assert_eq!(fields, GasFields { max_fee_per_gas: Some(11), ..GasFields::unset() });
    fields.set_max_priority_fee_per_gas(3);
    assert_eq!(
        fields,
        GasFields {
            max_fee_per_gas: Some(11),
            max_priority_fee_per_gas: Some(3),
            ..GasFields::unset()
        }
    );
    fields.set_max_fee_per_gas(12);
    assert_eq!(fields.max_fee_per_gas, Some(12));
    assert_eq!(fields.max_priority_fee_per_gas, Some(3));
}

#[test]
fn as_mut_builder_writes_through_to_the_draft() {
    let mut draft = TxDraft::Builder(GasFields::unset());
    match draft.as_mut_builder() {
        Some(builder) => builder.set_gas_limit(42),
        None => panic!("a draft that is being built hands out its fields"),
    }
    assert_eq!(
        draft,
        TxDraft::Builder(GasFields { gas_limit: Some(42), ..GasFields::unset() })
    );
}

#[test]
fn as_mut_builder_of_a_finalized_draft_is_none() {
    let fields = GasFields { gas_limit: Some(42), ..GasFields::unset() };
    let mut draft = TxDraft::Envelope(fields);
    assert!(draft.as_mut_builder().is_none());
    assert_eq!(draft, TxDraft::Envelope(fields));
}

#[test]
fn gas_fields_of_either_state() {
    let fields = GasFields { gas_price: Some(5), ..GasFields::unset() };
    assert_eq!(TxDraft::Builder(fields).gas_fields(), fields);
    assert_eq!(TxDraft::Envelope(fields).gas_fields(), fields);
}
