use amplify::confinement::{TinyOrdMap, TinyOrdSet};
use rgb_interfaces::iface_ids::{
    RGB20_FIXED_IFACE_ID, RGB20_FULL_IFACE_ID, RGB21_IFACE_ID, RGB25_IFACE_ID,
};
use rgb_interfaces::outside::{Contract, IfaceHandle};
use rgb_interfaces::rgb20::{features_from_transitions, Inflation, Rgb20, Rgb20Wrapper};
use rgb_interfaces::rgb21::Rgb21Wrapper;
use rgb_interfaces::rgb25::Rgb25Wrapper;
use rgbstd::info::ContractInfo;
use rgbstd::interface::{ContractIface, IfaceId, IfaceImpl, NamedField};
use rgbstd::persistence::{MemContract, MemContractState};
use rgbstd::vm::ContractStateEvolve;
use rgbstd::{
    ContractId, GlobalStateSchema, GlobalStateType, Schema, TransitionType, XWitnessId,
};
use strict_encoding::{FieldName, StrictDumb};
use strict_types::{SemId, TypeSystem};

/// A contract with no global state, seen through the interface `iface_id`
/// whose implementation maps the transitions `transitions`.
fn contract(iface_id: [u8; 32], transitions: &[&'static str]) -> Contract<MemContractState> {
    contract_with_fields(iface_id, transitions, &[])
}

/// A contract seen through the interface `iface_id`, whose implementation
/// maps the transitions `transitions` and the global state fields `fields`,
/// none of which holds a value yet.
fn contract_with_fields(
    iface_id: [u8; 32],
    transitions: &[&'static str],
    fields: &[&'static str],
) -> Contract<MemContractState> {
    let mut schema = Schema::strict_dumb();
    schema.global_types = TinyOrdMap::from_iter_checked(
        (0..fields.len()).map(|i| (GlobalStateType::with(i as u16), GlobalStateSchema::many(SemId::strict_dumb()))),
    );
    let contract_id = ContractId::strict_dumb();
    let mut iimpl = IfaceImpl::strict_dumb();
    iimpl.iface_id = IfaceId::from_array(iface_id);
    iimpl.global_state = TinyOrdSet::from_iter_checked(
        fields
            .iter()
            .enumerate()
            .map(|(i, name)| NamedField::with(GlobalStateType::with(i as u16), FieldName::from(*name))),
    );
    iimpl.transitions = TinyOrdSet::from_iter_checked(
        transitions
            .iter()
            .enumerate()
            .map(|(i, name)| NamedField::with(TransitionType::with(i as u16), FieldName::from(*name))),
    );
    let info = ContractInfo {
        id: contract_id,
        schema_id: schema.schema_id(),
        issuer: Default::default(),
        issued_at: Default::default(),
        testnet: true,
        alt_layers1: Default::default(),
    };
    let state = MemContract::init((&schema, contract_id));
    let iface = ContractIface { state, schema, iface: iimpl, types: TypeSystem::default(), info };
    Contract::new(IfaceHandle(iface))
}

#[test]
fn contract_reports_its_interface_and_transitions() {
    let c = contract(RGB20_FULL_IFACE_ID, &["issue", "burn", "rename"]);
    assert_eq!(c.iface_id(), RGB20_FULL_IFACE_ID);
    let mut names = c.transition_names();
    names.sort();
    assert_eq!(names, vec!["burn".to_string(), "issue".to_string(), "rename".to_string()]);
}

#[test]
fn unknown_global_field_is_reported_missing() {
    let c = contract(RGB20_FIXED_IFACE_ID, &[]);
    assert_eq!(c.global_count("spec"), None);
    assert_eq!(c.global_count("issuedSupply"), None);
}

#[test]
fn rgb20_wrapper_reads_features_from_the_interface() {
    let c = contract(RGB20_FULL_IFACE_ID, &["issue", "burn", "replace", "rename"]);
    let w = Rgb20Wrapper::with(c);
    assert_eq!(w.iface_id(), RGB20_FULL_IFACE_ID);
    assert_eq!(w.features(), Rgb20 { renaming: true, inflation: Inflation::Replaceable });
    let c = contract(RGB20_FIXED_IFACE_ID, &[]);
    let w = Rgb20Wrapper::with(c);
    assert_eq!(w.features(), Rgb20 { renaming: false, inflation: Inflation::Fixed });
}

#[test]
fn replace_without_burn_is_refused_before_features() {
    let c = contract(RGB20_FULL_IFACE_ID, &["issue", "replace"]);
    assert!(features_from_transitions(&c.transition_names()).is_err());
}

#[test]
fn missing_burned_and_replaced_supply_total_zero() {
    let w = Rgb20Wrapper::with(contract(RGB20_FULL_IFACE_ID, &["issue"]));
    assert_eq!(w.total_burned_supply(), 0);
    assert_eq!(w.total_replaced_supply(), 0);
    let w = Rgb25Wrapper::with(contract(RGB25_IFACE_ID, &[]));
    assert_eq!(w.total_burned_supply(), 0);
}

#[test]
fn wrapper_reports_the_contract_identifiers() {
    let c = contract(RGB25_IFACE_ID, &[]);
    let w = Rgb25Wrapper::with(c);
    assert_eq!(w.iface_id(), RGB25_IFACE_ID);
    assert_eq!(w.contract_id(), ContractId::strict_dumb());
    assert_eq!(w.schema_id(), Schema::strict_dumb().schema_id());
}

#[test]
fn witness_unknown_to_the_state_has_no_info() {
    let w = Rgb20Wrapper::with(contract(RGB20_FIXED_IFACE_ID, &[]));
    assert!(w.witness_info(XWitnessId::strict_dumb()).is_none());
}

#[test]
fn known_field_without_values_is_counted_empty() {
    let c = contract_with_fields(RGB20_FIXED_IFACE_ID, &[], &["spec", "issuedSupply"]);
    assert_eq!(c.global_count("spec"), Some(0));
    assert_eq!(c.global_count("issuedSupply"), Some(0));
    assert_eq!(c.global_count("terms"), None);
}

#[test]
fn empty_supply_fields_total_zero() {
    let fields = ["issuedSupply", "burnedSupply", "replacedSupply"];
    let w = Rgb20Wrapper::with(contract_with_fields(RGB20_FULL_IFACE_ID, &["issue"], &fields));
    assert_eq!(w.total_issued_supply(), 0);
    assert_eq!(w.total_burned_supply(), 0);
    assert_eq!(w.total_replaced_supply(), 0);
    assert_eq!(w.total_supply(), 0);
    let w = Rgb25Wrapper::with(contract_with_fields(RGB25_IFACE_ID, &[], &fields));
    assert_eq!(w.total_issued_supply(), 0);
    assert_eq!(w.total_burned_supply(), 0);
}

#[test]
fn max_supply_falls_back_to_issued_supply() {
    let w = Rgb20Wrapper::with(contract_with_fields(RGB20_FIXED_IFACE_ID, &[], &["issuedSupply"]));
    assert_eq!(w.max_supply(), w.total_issued_supply());
    let fields = ["maxSupply"];
    let w = Rgb20Wrapper::with(contract_with_fields(RGB20_FIXED_IFACE_ID, &[], &fields));
    assert_eq!(w.max_supply(), 0);
}

#[test]
fn rgb21_engravings_of_an_empty_field_are_empty() {
    let c = contract_with_fields(RGB21_IFACE_ID, &[], &["engravings"]);
    let w = Rgb21Wrapper::with(c);
    assert_eq!(w.iface_id(), RGB21_IFACE_ID);
    assert!(w.engraving_data().is_empty());
}
