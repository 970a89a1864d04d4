use ape_or_die::amount_config::AmountConfig;
use ape_or_die::errors::PumpfunError;

#[test]
fn range_with_both_bounds() {
    let c = AmountConfig::Range { min: Some(10), max: Some(100) };
    assert_eq!(c.validate(9), Err(PumpfunError::ValueTooSmall));
    assert_eq!(c.validate(10), Ok(()));
    assert_eq!(c.validate(55), Ok(()));
    assert_eq!(c.validate(100), Ok(()));
    assert_eq!(c.validate(101), Err(PumpfunError::ValueTooLarge));
}

#[test]
fn range_with_min_only() {
    let c = AmountConfig::Range { min: Some(7), max: None };
    assert_eq!(c.validate(6), Err(PumpfunError::ValueTooSmall));
    assert_eq!(c.validate(7), Ok(()));
    assert_eq!(c.validate(u64::MAX), Ok(()));
}

#[test]
fn range_with_max_only() {
    let c = AmountConfig::Range { min: None, max: Some(9) };
    assert_eq!(c.validate(0), Ok(()));
    assert_eq!(c.validate(9), Ok(()));
    assert_eq!(c.validate(10), Err(PumpfunError::ValueTooLarge));
}

#[test]
fn range_unbounded_admits_everything() {
    let c = AmountConfig::Range { min: None, max: None };
    assert_eq!(c.validate(0), Ok(()));
    assert_eq!(c.validate(u64::MAX), Ok(()));
}

#[test]
fn enum_admits_exactly_the_listed_values() {
    let c = AmountConfig::Enum(vec![6, 9]);
    assert_eq!(c.validate(6), Ok(()));
    assert_eq!(c.validate(9), Ok(()));
    assert_eq!(c.validate(7), Err(PumpfunError::ValueInvalid));
}

#[test]
fn empty_enum_admits_nothing() {
    let c = AmountConfig::Enum(vec![]);
    assert_eq!(c.validate(0), Err(PumpfunError::ValueInvalid));
}
