use amplify::confinement::{TinyOrdMap, TinyOrdSet};
use rgb_interfaces::iface_ids::{RGB20_FULL_IFACE_ID, RGB21_IFACE_ID, RGB25_IFACE_ID};
use rgb_interfaces::outside::{Contract, IfaceHandle};
use rgb_interfaces::rgb20::{Inflation, Rgb20, Rgb20Wrapper};
use rgb_interfaces::rgb21::Rgb21Wrapper;
use rgb_interfaces::rgb25::Rgb25Wrapper;
use rgb_interfaces::state::{AssetSpec, ContractTerms};
use rgbstd::info::ContractInfo;
use rgbstd::interface::{ContractIface, IfaceId, IfaceImpl, NamedField};
use rgbstd::persistence::{MemContract, MemContractState};
use rgbstd::stl::{self as rgbstl, Details, Name, StandardTypes};
use rgbstd::vm::{ContractStateEvolve, OrdOpRef};
use rgbstd::{
    Amount, ContractId, DataState, Genesis, GlobalStateSchema, GlobalStateType, Precision,
    Schema, TransitionType,
};
use strict_encoding::{FieldName, StrictDumb, StrictSerialize};

/// One global state field: its name, the strict type of its values (in
/// the standard RGB contract type library), and its values serialized.
struct Field {
    name: &'static str,
    ty: &'static str,
    values: Vec<Vec<u8>>,
}

fn field(name: &'static str, ty: &'static str, values: Vec<Vec<u8>>) -> Field {
    Field { name, ty, values }
}

fn bytes<T: StrictSerialize>(value: &T) -> Vec<u8> {
    value.to_strict_serialized::<0xFFFF>().unwrap().release()
}

fn amounts(values: &[u64]) -> Vec<Vec<u8>> {
    values.iter().map(|v| bytes(&Amount::from(*v))).collect()
}

/// A contract seen through the interface `iface_id`, which maps the
/// transitions `transitions` and the global state `fields`, whose values
/// the contract's genesis holds. Each field holds one value: rgbstd's
/// in-memory state panics when it reads back two values of a field written
/// by one operation, so sums over several values are tested on the
/// library's totals directly.
fn contract(
    iface_id: [u8; 32],
    transitions: &[&'static str],
    fields: &[Field],
) -> Contract<MemContractState> {
    let types = StandardTypes::new();
    let mut schema = Schema::strict_dumb();
    schema.global_types = TinyOrdMap::from_iter_checked(fields.iter().enumerate().map(|(i, f)| {
        (GlobalStateType::with(i as u16), GlobalStateSchema::many(types.get(f.ty)))
    }));
    let contract_id = ContractId::strict_dumb();
    let mut iimpl = IfaceImpl::strict_dumb();
    iimpl.iface_id = IfaceId::from_array(iface_id);
    iimpl.global_state = TinyOrdSet::from_iter_checked(
        fields
            .iter()
            .enumerate()
            .map(|(i, f)| NamedField::with(GlobalStateType::with(i as u16), FieldName::from(f.name))),
    );
    iimpl.transitions = TinyOrdSet::from_iter_checked(
        transitions
            .iter()
            .enumerate()
            .map(|(i, name)| NamedField::with(TransitionType::with(i as u16), FieldName::from(*name))),
    );
    let mut genesis = Genesis::strict_dumb();
    for (i, f) in fields.iter().enumerate() {
        for value in &f.values {
            let blob = amplify::confinement::SmallBlob::try_from(value.clone()).unwrap();
            genesis
                .globals
                .add_state(GlobalStateType::with(i as u16), DataState::from(blob))
                .unwrap();
        }
    }
    let info = ContractInfo {
        id: contract_id,
        schema_id: schema.schema_id(),
        issuer: Default::default(),
        issued_at: Default::default(),
        testnet: true,
        alt_layers1: Default::default(),
    };
    let mut state = MemContract::init((&schema, contract_id));
    state.evolve_state(OrdOpRef::Genesis(&genesis)).unwrap();
    let iface = ContractIface { state, schema, iface: iimpl, types: types.type_system(), info };
    Contract::new(IfaceHandle(iface))
}

fn asset_spec() -> rgbstl::AssetSpec {
    rgbstl::AssetSpec::with("TCKR", "Test asset", Precision::CentiMicro, Some("details here")).unwrap()
}

fn terms() -> rgbstl::ContractTerms {
    rgbstl::ContractTerms { text: "Terms of use".parse().unwrap(), media: None }
}

#[test]
fn rgb20_reads_the_asset_spec() {
    let c = contract(RGB20_FULL_IFACE_ID, &[], &[field("spec", "RGBContract.AssetSpec", vec![bytes(&asset_spec())])]);
    assert_eq!(c.global_count("spec"), Some(1));
    let w = Rgb20Wrapper::with(c);
    assert_eq!(
        w.spec(),
        AssetSpec {
            ticker: "TCKR".to_string(),
            name: "Test asset".to_string(),
            details: Some("details here".to_string()),
            precision: Precision::CentiMicro,
        }
    );
}

#[test]
fn rgb20_reads_terms_and_supplies() {
    let fields = [
        field("terms", "RGBContract.ContractTerms", vec![bytes(&terms())]),
        field("issuedSupply", "RGBContract.Amount", amounts(&[150])),
        field("burnedSupply", "RGBContract.Amount", amounts(&[30])),
        field("replacedSupply", "RGBContract.Amount", amounts(&[15])),
    ];
    let w = Rgb20Wrapper::with(contract(RGB20_FULL_IFACE_ID, &["issue", "burn"], &fields));
    assert_eq!(w.contract_terms(), ContractTerms { text: "Terms of use".to_string(), media: None });
    assert_eq!(w.total_issued_supply(), 150);
    assert_eq!(w.max_supply(), 150);
    assert_eq!(w.total_burned_supply(), 30);
    assert_eq!(w.total_replaced_supply(), 15);
    assert_eq!(w.total_supply(), 120);
}

#[test]
fn rgb20_max_supply_field_takes_precedence() {
    let fields = [
        field("issuedSupply", "RGBContract.Amount", amounts(&[10])),
        field("maxSupply", "RGBContract.Amount", amounts(&[1005])),
    ];
    let w = Rgb20Wrapper::with(contract(RGB20_FULL_IFACE_ID, &[], &fields));
    assert_eq!(w.max_supply(), 1005);
    assert_eq!(w.total_issued_supply(), 10);
}

#[test]
fn rgb20_supply_at_the_limit() {
    let fields = [
        field("issuedSupply", "RGBContract.Amount", amounts(&[u64::MAX])),
        field("burnedSupply", "RGBContract.Amount", amounts(&[u64::MAX])),
    ];
    let w = Rgb20Wrapper::with(contract(RGB20_FULL_IFACE_ID, &[], &fields));
    assert_eq!(w.total_issued_supply(), u64::MAX);
    assert_eq!(w.max_supply(), u64::MAX);
    assert_eq!(w.total_supply(), 0);
}

#[test]
fn rgb20_info_summarises_the_asset() {
    let fields = [
        field("spec", "RGBContract.AssetSpec", vec![bytes(&asset_spec())]),
        field("terms", "RGBContract.ContractTerms", vec![bytes(&terms())]),
        field("issuedSupply", "RGBContract.Amount", amounts(&[42])),
        field("burnedSupply", "RGBContract.Amount", amounts(&[2])),
    ];
    let w = Rgb20Wrapper::with(contract(RGB20_FULL_IFACE_ID, &["issue", "burn", "rename"], &fields));
    let info = w.info();
    assert_eq!(info.ticker, "TCKR");
    assert_eq!(info.name, "Test asset");
    assert_eq!(info.details, Some("details here".to_string()));
    assert_eq!(info.terms, "Terms of use");
    assert_eq!(info.attach, None);
    assert_eq!(info.precision, Precision::CentiMicro);
    assert_eq!(info.features, Rgb20 { renaming: true, inflation: Inflation::InflatableBurnable });
    assert_eq!(info.issued, 42);
    assert_eq!(info.burned, 2);
    assert_eq!(info.replaced, 0);
    assert_eq!(info.contract.id, ContractId::strict_dumb());
}

#[test]
fn rgb21_reads_spec_terms_tokens_and_engravings() {
    let fields = [
        field("spec", "RGBContract.AssetSpec", vec![bytes(&asset_spec())]),
        field("terms", "RGBContract.ContractTerms", vec![bytes(&terms())]),
        field("tokens", "RGBContract.Amount", amounts(&[9])),
        field("engravings", "RGBContract.Amount", amounts(&[1])),
    ];
    let w = Rgb21Wrapper::with(contract(RGB21_IFACE_ID, &[], &fields));
    assert_eq!(w.spec().ticker, "TCKR");
    assert_eq!(w.contract_terms().text, "Terms of use");
    assert_eq!(Amount::from_strict_val_unchecked(&w.token_data()).value(), 9);
    let engravings = w.engraving_data();
    assert_eq!(engravings.len(), 1);
    assert_eq!(Amount::from_strict_val_unchecked(&engravings[0]).value(), 1);
}

#[test]
fn rgb25_reads_name_details_precision_and_supplies() {
    let fields = [
        field("name", "RGBContract.Name", vec![bytes(&Name::from("Collectible"))]),
        field("details", "RGBContract.Details", vec![bytes(&Details::from("Rare item"))]),
        field("precision", "RGBContract.Precision", vec![bytes(&Precision::Indivisible)]),
        field("issuedSupply", "RGBContract.Amount", amounts(&[7])),
        field("burnedSupply", "RGBContract.Amount", amounts(&[1])),
        field("terms", "RGBContract.ContractTerms", vec![bytes(&terms())]),
    ];
    let w = Rgb25Wrapper::with(contract(RGB25_IFACE_ID, &[], &fields));
    assert_eq!(w.name(), Name::from("Collectible"));
    assert_eq!(w.details(), Some(Details::from("Rare item")));
    assert_eq!(w.precision(), Precision::Indivisible);
    assert_eq!(w.total_issued_supply(), 7);
    assert_eq!(w.total_burned_supply(), 1);
    assert_eq!(w.contract_terms().text, "Terms of use");
}

#[test]
fn rgb25_details_of_an_empty_field_are_none() {
    let fields = [field("details", "RGBContract.Details", vec![])];
    let w = Rgb25Wrapper::with(contract(RGB25_IFACE_ID, &[], &fields));
    assert_eq!(w.details(), None);
}
