use rgb_interfaces::rgb20::{
    features_from_transitions, has_transition, inflation_for, Inflation, InflationError, Rgb20,
};

fn names(list: &[&str]) -> Vec<String> {
    list.iter().map(|s| s.to_string()).collect()
}

#[test]
fn inflation_for_every_combination() {
    assert_eq!(inflation_for(true, true, true), Ok(Inflation::Replaceable));
    assert_eq!(inflation_for(true, true, false), Ok(Inflation::InflatableBurnable));
    assert_eq!(inflation_for(false, true, false), Ok(Inflation::Burnable));
    assert_eq!(inflation_for(true, false, false), Ok(Inflation::Inflatable));
    assert_eq!(inflation_for(false, false, false), Ok(Inflation::Fixed));
    assert_eq!(inflation_for(true, false, true), Err(InflationError::ReplaceableNotBurnable));
    assert_eq!(inflation_for(false, false, true), Err(InflationError::ReplaceableNotBurnable));
    assert_eq!(inflation_for(false, true, true), Err(InflationError::ReplaceableNotInflatable));
}

#[test]
fn fixed_asset_without_transitions() {
    let f = features_from_transitions(&names(&[]));
    assert_eq!(f, Ok(Rgb20 { renaming: false, inflation: Inflation::Fixed }));
}

#[test]
fn transfer_alone_is_fixed() {
    let f = features_from_transitions(&names(&["transfer"]));
    assert_eq!(f, Ok(Rgb20 { renaming: false, inflation: Inflation::Fixed }));
}

#[test]
fn renamable_asset() {
    let f = features_from_transitions(&names(&["transfer", "rename"]));
    assert_eq!(f, Ok(Rgb20 { renaming: true, inflation: Inflation::Fixed }));
}

#[test]
fn inflatable_asset() {
    let f = features_from_transitions(&names(&["issue", "transfer"]));
    assert_eq!(f, Ok(Rgb20 { renaming: false, inflation: Inflation::Inflatable }));
}

#[test]
fn burnable_asset() {
    let f = features_from_transitions(&names(&["burn"]));
    assert_eq!(f, Ok(Rgb20 { renaming: false, inflation: Inflation::Burnable }));
}

#[test]
fn inflatable_burnable_renamable_asset() {
    let f = features_from_transitions(&names(&["burn", "rename", "issue", "transfer"]));
    assert_eq!(f, Ok(Rgb20 { renaming: true, inflation: Inflation::InflatableBurnable }));
}

#[test]
fn replaceable_asset() {
    let f = features_from_transitions(&names(&["issue", "burn", "replace", "transfer"]));
    assert_eq!(f, Ok(Rgb20 { renaming: false, inflation: Inflation::Replaceable }));
}

#[test]
fn full_asset() {
    let f = features_from_transitions(&names(&["rename", "issue", "burn", "replace", "transfer"]));
    assert_eq!(f, Ok(Rgb20 { renaming: true, inflation: Inflation::Replaceable }));
}

#[test]
fn replace_without_burn_has_no_features() {
    assert_eq!(
        features_from_transitions(&names(&["replace"])),
        Err(InflationError::ReplaceableNotBurnable)
    );
    assert_eq!(
        features_from_transitions(&names(&["issue", "replace", "rename"])),
        Err(InflationError::ReplaceableNotBurnable)
    );
}

#[test]
fn replace_without_issue_has_no_features() {
    assert_eq!(
        features_from_transitions(&names(&["burn", "replace"])),
        Err(InflationError::ReplaceableNotInflatable)
    );
}

#[test]
fn transition_names_are_matched_exactly() {
    let t = names(&["Rename", "issues", "bur"]);
    assert!(!has_transition(&t, "rename"));
    assert!(!has_transition(&t, "issue"));
    assert!(!has_transition(&t, "burn"));
    assert!(has_transition(&t, "Rename"));
    assert_eq!(features_from_transitions(&t), Ok(Rgb20 { renaming: false, inflation: Inflation::Fixed }));
}

#[test]
fn duplicate_transition_names_count_once() {
    let f = features_from_transitions(&names(&["issue", "issue", "burn", "burn"]));
    assert_eq!(f, Ok(Rgb20 { renaming: false, inflation: Inflation::InflatableBurnable }));
}
