use rgb_interfaces::amount::{
    max_supply_total, optional_total, remaining_supply, required_total, total_amount,
};
use rgb_interfaces::state::{decode_amounts, first_value};
use strict_types::StrictVal;

#[test]
fn total_of_nothing_is_zero() {
    assert_eq!(total_amount(&vec![]), 0);
}

#[test]
fn total_adds_amounts() {
    assert_eq!(total_amount(&vec![1, 2, 3]), 6);
    assert_eq!(total_amount(&vec![1_000_000_000_000, 234]), 1_000_000_000_234);
}

#[test]
fn total_saturates_instead_of_wrapping() {
    assert_eq!(total_amount(&vec![u64::MAX, 1]), u64::MAX);
    assert_eq!(total_amount(&vec![u64::MAX - 1, 1]), u64::MAX);
    assert_eq!(total_amount(&vec![u64::MAX, u64::MAX, 5]), u64::MAX);
    assert_eq!(total_amount(&vec![u64::MAX / 2 + 1, u64::MAX / 2 + 1, 0]), u64::MAX);
}

#[test]
fn required_total_needs_the_field() {
    assert_eq!(required_total(&None), None);
    assert_eq!(required_total(&Some(vec![])), Some(0));
    assert_eq!(required_total(&Some(vec![40, 2])), Some(42));
}

#[test]
fn optional_total_of_missing_field_is_zero() {
    assert_eq!(optional_total(&None), 0);
    assert_eq!(optional_total(&Some(vec![])), 0);
    assert_eq!(optional_total(&Some(vec![7, 8])), 15);
}

#[test]
fn max_supply_uses_max_supply_field() {
    assert_eq!(max_supply_total(&Some(vec![10, 20]), &Some(vec![1])), Some(30));
    assert_eq!(max_supply_total(&Some(vec![]), &Some(vec![7])), Some(0));
}

#[test]
fn max_supply_defaults_to_issued_supply() {
    assert_eq!(max_supply_total(&None, &Some(vec![5, 6])), Some(11));
    assert_eq!(max_supply_total(&None, &None), None);
}

#[test]
fn remaining_supply_subtracts_burned() {
    assert_eq!(remaining_supply(10, 3), Some(7));
    assert_eq!(remaining_supply(5, 5), Some(0));
    assert_eq!(remaining_supply(u64::MAX, 0), Some(u64::MAX));
    assert_eq!(remaining_supply(u64::MAX, u64::MAX - 1), Some(1));
}

#[test]
fn remaining_supply_refuses_overburn() {
    assert_eq!(remaining_supply(3, 10), None);
    assert_eq!(remaining_supply(0, 1), None);
}

#[test]
fn remaining_plus_burned_is_issued() {
    for (issued, burned) in [(100u64, 1u64), (100, 100), (7, 0), (u64::MAX, 12345)] {
        assert_eq!(remaining_supply(issued, burned).unwrap() + burned, issued);
    }
}

#[test]
fn amounts_are_read_from_strict_values() {
    let values = vec![StrictVal::from(5u64), StrictVal::from(7u64), StrictVal::from(0u64)];
    assert_eq!(decode_amounts(Some(values)), Some(vec![5, 7, 0]));
    assert_eq!(decode_amounts(Some(vec![])), Some(vec![]));
    assert_eq!(decode_amounts(None), None);
}

#[test]
fn amounts_read_from_strict_values_add_up() {
    let values = vec![StrictVal::from(u64::MAX), StrictVal::from(1u64)];
    assert_eq!(required_total(&decode_amounts(Some(values))), Some(u64::MAX));
    let values = vec![StrictVal::from(30u64), StrictVal::from(12u64)];
    assert_eq!(required_total(&decode_amounts(Some(values))), Some(42));
}

#[test]
fn first_value_takes_the_first() {
    assert_eq!(first_value(Some(vec![3, 1, 2])), Some(3));
    assert_eq!(first_value(Some(Vec::<u8>::new())), None);
    assert_eq!(first_value::<u8>(None), None);
    assert_eq!(first_value(Some(vec!["spec".to_string()])), Some("spec".to_string()));
}

#[test]
fn one_more_amount_adds_with_saturation() {
    let v = vec![u64::MAX - 5, 3];
    let t = total_amount(&v);
    assert_eq!(t, u64::MAX - 2);
    let mut w = v.clone();
    w.push(10);
    assert_eq!(total_amount(&w), t.saturating_add(10));
    let mut x = v.clone();
    x.push(1);
    assert_eq!(total_amount(&x), t + 1);
}

#[test]
fn part_of_the_amounts_totals_no_more_than_all() {
    let all = vec![5u64, 9, 7, 0, 11];
    for part in [vec![], vec![5u64], vec![9, 0], vec![5, 7, 11], all.clone()] {
        assert!(total_amount(&part) <= total_amount(&all));
    }
    let saturated = vec![u64::MAX, 3, 4];
    assert_eq!(total_amount(&vec![3, 4]), 7);
    assert!(total_amount(&vec![u64::MAX, 4]) <= total_amount(&saturated));
}
