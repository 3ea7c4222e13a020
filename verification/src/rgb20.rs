//! RGB20: fungible assets.

use std::borrow::Borrow;

use vstd::prelude::*;

use rgbstd::info::ContractInfo;
use rgbstd::persistence::MemContractState;
use rgbstd::stl::Attachment;
use rgbstd::{ContractId, Precision, SchemaId, WitnessInfo, XWitnessId};

use crate::amount::{
    max_supply_of, max_supply_total, optional_total, optional_total_of, remaining_supply,
    total_amount, total_of,
};
use crate::iface_ids::rgb20_iface_ids;
use crate::outside::{
    asset_spec_from_strict_val, contract_id_of, contract_info_of,
    contract_terms_from_strict_val, global_state, schema_id_of, witness_info_of, Contract,
    ContractModel,
};
use crate::state::{
    asset_spec_field, decode_amounts, field_amounts, field_holds_amounts, field_values,
    first_value, names_of, terms_field, AssetSpec, ContractTerms,
};

verus! {

/// How the supply of an RGB20 asset may change after its issue.
#[derive(Clone, Copy, Debug, PartialEq, Eq, Hash, Structural)]
pub enum Inflation {
    /// Neither issued further nor burned.
    Fixed,
    /// May be burned, not issued further.
    Burnable,
    /// May be issued further, not burned.
    Inflatable,
    /// May be issued further and burned.
    InflatableBurnable,
    /// May be issued further, burned, and replaced (burned and reissued).
    Replaceable,
}

impl Inflation {
    /// The asset may be issued further.
    pub open spec fn inflatable(self) -> bool {
        self is Inflatable || self is InflatableBurnable || self is Replaceable
    }

    /// The asset may be burned.
    pub open spec fn burnable(self) -> bool {
        self is Burnable || self is InflatableBurnable || self is Replaceable
    }

    /// The asset may be replaced.
    pub open spec fn replaceable(self) -> bool {
        self is Replaceable
    }
}

/// The features of an RGB20 asset: whether it may be renamed, and how its
/// supply may change.
#[derive(Clone, Copy, Debug, PartialEq, Eq, Hash, Structural)]
pub struct Rgb20 {
    pub renaming: bool,
    pub inflation: Inflation,
}

/// Why no kind of inflation fits what an asset's interface can do.
#[derive(Clone, Copy, Debug, PartialEq, Eq, Hash, Structural)]
pub enum InflationError {
    /// The asset can be replaced but not burned.
    ReplaceableNotBurnable,
    /// The asset can be replaced and burned but not issued further.
    ReplaceableNotInflatable,
}

/// The kind of inflation of an asset whose interface can issue
/// (`inflatable`), burn (`burnable`) and replace (`replaceable`), or why no
/// kind fits: a replaceable asset must be burnable, and a burnable
/// replaceable asset must be inflatable.
pub open spec fn inflation_of(inflatable: bool, burnable: bool, replaceable: bool) -> Result<Inflation, InflationError> {
    if inflatable && burnable && replaceable {
        Ok(Inflation::Replaceable)
    } else if inflatable && burnable && !replaceable {
        Ok(Inflation::InflatableBurnable)
    } else if !inflatable && burnable && !replaceable {
        Ok(Inflation::Burnable)
    } else if inflatable && !burnable && !replaceable {
        Ok(Inflation::Inflatable)
    } else if !inflatable && !burnable && !replaceable {
        Ok(Inflation::Fixed)
    } else if !burnable {
        Err(InflationError::ReplaceableNotBurnable)
    } else {
        Err(InflationError::ReplaceableNotInflatable)
    }
}

/// The features of an asset whose interface maps the transitions named in
/// `names`: it is renamable with a `rename` transition, and its inflation
/// follows from the presence of `issue`, `burn` and `replace`.
pub open spec fn features_of(names: Seq<Seq<char>>) -> Result<Rgb20, InflationError> {
    match inflation_of(names.contains("issue"@), names.contains("burn"@), names.contains("replace"@)) {
        Ok(inflation) => Ok(Rgb20 { renaming: names.contains("rename"@), inflation }),
        Err(e) => Err(e),
    }
}

/// The kind of inflation of an asset from what its interface can do; an
/// error for a replaceable asset that cannot be burned, or that can be
/// burned but not issued further.
pub fn inflation_for(inflatable: bool, burnable: bool, replaceable: bool) -> (r: Result<Inflation, InflationError>)
    ensures
        r == inflation_of(inflatable, burnable, replaceable),
{
    match (inflatable, burnable, replaceable) {
        (true, true, true) => Ok(Inflation::Replaceable),
        (true, true, false) => Ok(Inflation::InflatableBurnable),
        (false, true, false) => Ok(Inflation::Burnable),
        (true, false, false) => Ok(Inflation::Inflatable),
        (false, false, false) => Ok(Inflation::Fixed),
        (true, false, true) | (false, false, true) => Err(InflationError::ReplaceableNotBurnable),
        (false, true, true) => Err(InflationError::ReplaceableNotInflatable),
    }
}

/// Whether one of `transitions` is named `name`.
pub fn has_transition(transitions: &Vec<String>, name: &str) -> (r: bool)
    ensures
        r == names_of(transitions@).contains(name@),
{
    let ghost names = names_of(transitions@);
    let wanted = String::from_str(name);
    let n = transitions.len();
    for i in 0..n
        invariant
            n == transitions@.len(),
            names == names_of(transitions@),
            wanted@ == name@,
            forall|j: int| 0 <= j < i ==> names[j] != name@,
    {
        if transitions[i] == wanted {
            assert(names[i as int] == name@);
            return true;
        }
    }
    assert(!names.contains(name@)) by {
        if names.contains(name@) {
            let k = choose|k: int| 0 <= k < names.len() && names[k] == name@;
            assert(names[k] != name@);
        }
    }
    false
}

/// The features of an asset whose interface maps the transitions named
/// `transitions`; an error for a replaceable asset that cannot be burned,
/// or that can be burned but not issued further.
pub fn features_from_transitions(transitions: &Vec<String>) -> (r: Result<Rgb20, InflationError>)
    ensures
        r == features_of(names_of(transitions@)),
{
    let renaming = has_transition(transitions, "rename");
    let inflatable = has_transition(transitions, "issue");
    let burnable = has_transition(transitions, "burn");
    let replaceable = has_transition(transitions, "replace");
    match inflation_for(inflatable, burnable, replaceable) {
        Ok(inflation) => Ok(Rgb20 { renaming, inflation }),
        Err(e) => Err(e),
    }
}

/// Each kind of inflation comes from exactly the capabilities it names:
/// the flags read back from a kind give that kind, and a kind found for
/// some flags has those flags.
pub proof fn lemma_inflation_flags(inflatable: bool, burnable: bool, replaceable: bool, kind: Inflation)
    ensures
        inflation_of(kind.inflatable(), kind.burnable(), kind.replaceable()) == Ok::<Inflation, InflationError>(kind),
        inflation_of(inflatable, burnable, replaceable) matches Ok(found) ==> {
            &&& found.inflatable() == inflatable
            &&& found.burnable() == burnable
            &&& found.replaceable() == replaceable
        },
        inflation_of(inflatable, burnable, replaceable) is Err <==> (replaceable && !(inflatable
            && burnable)),
{
}

/// The features of an asset reflect its transitions: it is renamable
/// exactly when it has a `rename` transition, inflatable, burnable and
/// replaceable exactly when it has an `issue`, `burn` and `replace`
/// transition; and it has no features exactly when it can replace without
/// both issuing and burning.
pub proof fn lemma_features_reflect_transitions(names: Seq<Seq<char>>)
    ensures
        features_of(names) matches Ok(f) ==> {
            &&& f.renaming == names.contains("rename"@)
            &&& f.inflation.inflatable() == names.contains("issue"@)
            &&& f.inflation.burnable() == names.contains("burn"@)
            &&& f.inflation.replaceable() == names.contains("replace"@)
        },
        features_of(names) is Err <==> (names.contains("replace"@) && !(names.contains("issue"@)
            && names.contains("burn"@))),
{
    lemma_inflation_flags(
        names.contains("issue"@),
        names.contains("burn"@),
        names.contains("replace"@),
        Inflation::Fixed,
    );
}

/// Where its interface has no `maxSupply` field, the maximal supply of an
/// RGB20 asset (`Rgb20Wrapper::max_supply`) is its total issued supply
/// (`Rgb20Wrapper::total_issued_supply`).
pub proof fn lemma_max_supply_without_max_field(model: ContractModel)
    requires
        field_values(model, "maxSupply"@) is None,
        field_values(model, "issuedSupply"@) is Some,
    ensures
        max_supply_of(field_amounts(model, "maxSupply"@), field_amounts(model, "issuedSupply"@))
            == Some(total_of(field_amounts(model, "issuedSupply"@).unwrap())),
{
}

/// A summary of an RGB20 asset.
#[derive(Debug, PartialEq, Eq)]
pub struct Rgb20Info {
    pub contract: ContractInfo,
    pub ticker: String,
    pub name: String,
    pub details: Option<String>,
    pub terms: String,
    pub attach: Option<Attachment>,
    pub precision: Precision,
    pub features: Rgb20,
    pub issued: u64,
    pub burned: u64,
    pub replaced: u64,
}

/// An RGB20 asset: a contract seen through one of the RGB20 interfaces.
/// Each accessor reads what it needs from the contract when it is called.
#[verifier::reject_recursive_types(M)]
pub struct Rgb20Wrapper<M: Borrow<MemContractState>> {
    contract: Contract<M>,
}

impl<M: Borrow<MemContractState>> Rgb20Wrapper<M> {
    /// Every wrapper holds a contract seen through an RGB20 interface.
    #[verifier::type_invariant]
    spec fn is_rgb20(self) -> bool {
        rgb20_iface_ids().contains(self.contract.model().iface_id)
    }

    /// The wrapped contract.
    pub closed spec fn contract_view(self) -> Contract<M> {
        self.contract
    }

    /// What the wrapped contract holds.
    pub open spec fn model(self) -> ContractModel {
        self.contract_view().model()
    }

    /// Wraps a contract seen through one of the RGB20 interfaces (any other
    /// interface is refused: the caller tests `Contract::iface_id` with
    /// `is_rgb20_iface_id` first). Nothing is read from the contract here.
    pub fn with(contract: Contract<M>) -> (r: Self)
        requires
            rgb20_iface_ids().contains(contract.model().iface_id),
        ensures
            r.contract_view() == contract,
    {
        Rgb20Wrapper { contract }
    }

    /// The identifier of the interface through which the wrapper sees its
    /// contract: always one of the RGB20 interfaces.
    pub fn iface_id(&self) -> (r: [u8; 32])
        ensures
            r@ == self.model().iface_id,
            rgb20_iface_ids().contains(r@),
    {
        proof {
            use_type_invariant(self);
        }
        self.contract.iface_id()
    }

    /// The contract.
    pub fn contract(&self) -> (r: &Contract<M>)
        ensures
            *r == self.contract_view(),
    {
        &self.contract
    }

    /// The identifier of the contract.
    pub fn contract_id(&self) -> (r: ContractId)
        ensures
            r == self.model().contract_id,
    {
        contract_id_of(&self.contract)
    }

    /// The identifier of the contract's schema.
    pub fn schema_id(&self) -> (r: SchemaId)
        ensures
            r == self.model().schema_id,
    {
        schema_id_of(&self.contract)
    }

    /// Where the contract's state knows the witness `witness_id`, its
    /// ordering information.
    pub fn witness_info(&self, witness_id: XWitnessId) -> (r: Option<WitnessInfo>)
        ensures
            r is Some <==> self.model().witnesses.dom().contains(witness_id),
            r matches Some(info) ==> info == self.model().witnesses[witness_id],
    {
        witness_info_of(&self.contract, witness_id)
    }

    /// The features of the asset, from the transitions of its interface.
    /// An interface that can replace the asset without both issuing and
    /// burning it has no features (see `features_from_transitions`).
    pub fn features(&self) -> (r: Rgb20)
        requires
            features_of(self.model().transitions) is Ok,
        ensures
            Ok::<Rgb20, InflationError>(r) == features_of(self.model().transitions),
    {
        features_from_transitions(&self.contract.transition_names()).unwrap()
    }

    /// The asset specification: the first value of the `spec` global
    /// state, decoded; later values are not read. The interface must have
    /// the field and the field a value that holds a specification.
    pub fn spec(&self) -> (r: AssetSpec)
        requires
            self.model().reads_cleanly("spec"@),
            asset_spec_field(self.model()) is Some,
        ensures
            Some(r) == asset_spec_field(self.model()),
    {
        proof {
            reveal_strlit("spec");
        }
        let value = first_value(global_state(&self.contract, "spec")).unwrap();
        asset_spec_from_strict_val(&value)
    }

    /// The contract terms: the first value of the `terms` global state,
    /// decoded; later values are not read. The interface must have the
    /// field and the field a value that holds terms.
    pub fn contract_terms(&self) -> (r: ContractTerms)
        requires
            self.model().reads_cleanly("terms"@),
            terms_field(self.model()) is Some,
        ensures
            Some(r) == terms_field(self.model()),
    {
        proof {
            reveal_strlit("terms");
        }
        let value = first_value(global_state(&self.contract, "terms")).unwrap();
        contract_terms_from_strict_val(&value)
    }

    /// The total issued supply: the sum of the `issuedSupply` amounts,
    /// capped at `u64::MAX`. The interface must have the field.
    pub fn total_issued_supply(&self) -> (r: u64)
        requires
            self.model().reads_cleanly("issuedSupply"@),
            field_values(self.model(), "issuedSupply"@) is Some,
            field_holds_amounts(self.model(), "issuedSupply"@),
        ensures
            r == total_of(field_amounts(self.model(), "issuedSupply"@).unwrap()),
    {
        proof {
            reveal_strlit("issuedSupply");
        }
        let amounts = decode_amounts(global_state(&self.contract, "issuedSupply")).unwrap();
        total_amount(&amounts)
    }

    /// The maximal supply: the sum of the `maxSupply` amounts or, where the
    /// interface has no such field, of the `issuedSupply` amounts (which
    /// the interface must then have), capped at `u64::MAX`.
    pub fn max_supply(&self) -> (r: u64)
        requires
            self.model().reads_cleanly("maxSupply"@),
            field_holds_amounts(self.model(), "maxSupply"@),
            field_values(self.model(), "maxSupply"@) is None ==> {
                &&& self.model().reads_cleanly("issuedSupply"@)
                &&& field_values(self.model(), "issuedSupply"@) is Some
                &&& field_holds_amounts(self.model(), "issuedSupply"@)
            },
        ensures
            Some(r) == max_supply_of(
                field_amounts(self.model(), "maxSupply"@),
                field_amounts(self.model(), "issuedSupply"@),
            ),
    {
        proof {
            reveal_strlit("maxSupply");
            reveal_strlit("issuedSupply");
        }
        let max = decode_amounts(global_state(&self.contract, "maxSupply"));
        let issued = match max {
            Some(_) => None,
            None => decode_amounts(global_state(&self.contract, "issuedSupply")),
        };
        max_supply_total(&max, &issued).unwrap()
    }

    /// The total burned supply: the sum of the `burnedSupply` amounts,
    /// capped at `u64::MAX`, and 0 where the interface has no such field.
    pub fn total_burned_supply(&self) -> (r: u64)
        requires
            self.model().reads_cleanly("burnedSupply"@),
            field_holds_amounts(self.model(), "burnedSupply"@),
        ensures
            r == optional_total_of(field_amounts(self.model(), "burnedSupply"@)),
    {
        proof {
            reveal_strlit("burnedSupply");
        }
        optional_total(&decode_amounts(global_state(&self.contract, "burnedSupply")))
    }

    /// The total replaced supply: the sum of the `replacedSupply` amounts,
    /// capped at `u64::MAX`, and 0 where the interface has no such field.
    pub fn total_replaced_supply(&self) -> (r: u64)
        requires
            self.model().reads_cleanly("replacedSupply"@),
            field_holds_amounts(self.model(), "replacedSupply"@),
        ensures
            r == optional_total_of(field_amounts(self.model(), "replacedSupply"@)),
    {
        proof {
            reveal_strlit("replacedSupply");
        }
        optional_total(&decode_amounts(global_state(&self.contract, "replacedSupply")))
    }

    /// The supply in circulation: the issued supply less the burned one,
    /// which must not exceed it.
    pub fn total_supply(&self) -> (r: u64)
        requires
            self.model().reads_cleanly("issuedSupply"@),
            self.model().reads_cleanly("burnedSupply"@),
            field_values(self.model(), "issuedSupply"@) is Some,
            field_holds_amounts(self.model(), "issuedSupply"@),
            field_holds_amounts(self.model(), "burnedSupply"@),
            optional_total_of(field_amounts(self.model(), "burnedSupply"@)) <= total_of(
                field_amounts(self.model(), "issuedSupply"@).unwrap(),
            ),
        ensures
            r == total_of(field_amounts(self.model(), "issuedSupply"@).unwrap())
                - optional_total_of(field_amounts(self.model(), "burnedSupply"@)),
    {
        remaining_supply(self.total_issued_supply(), self.total_burned_supply()).unwrap()
    }

    /// A summary of the asset: its specification, terms, features and
    /// supplies, with the contract information it carries.
    pub fn info(&self) -> (r: Rgb20Info)
        requires
            self.model().reads_cleanly("spec"@),
            self.model().reads_cleanly("terms"@),
            self.model().reads_cleanly("issuedSupply"@),
            self.model().reads_cleanly("burnedSupply"@),
            self.model().reads_cleanly("replacedSupply"@),
            asset_spec_field(self.model()) is Some,
            terms_field(self.model()) is Some,
            features_of(self.model().transitions) is Ok,
            field_values(self.model(), "issuedSupply"@) is Some,
            field_holds_amounts(self.model(), "issuedSupply"@),
            field_holds_amounts(self.model(), "burnedSupply"@),
            field_holds_amounts(self.model(), "replacedSupply"@),
        ensures
            ({
                let spec = asset_spec_field(self.model()).unwrap();
                let terms = terms_field(self.model()).unwrap();
                &&& r.contract == self.model().info
                &&& r.ticker == spec.ticker
                &&& r.name == spec.name
                &&& r.details == spec.details
                &&& r.precision == spec.precision
                &&& r.terms == terms.text
                &&& r.attach == terms.media
                &&& Ok::<Rgb20, InflationError>(r.features) == features_of(self.model().transitions)
                &&& r.issued == total_of(field_amounts(self.model(), "issuedSupply"@).unwrap())
                &&& r.burned == optional_total_of(field_amounts(self.model(), "burnedSupply"@))
                &&& r.replaced == optional_total_of(field_amounts(self.model(), "replacedSupply"@))
            }),
    {
        let spec = self.spec();
        let terms = self.contract_terms();
        Rgb20Info {
            contract: contract_info_of(&self.contract),
            ticker: spec.ticker,
            name: spec.name,
            details: spec.details,
            terms: terms.text,
            attach: terms.media,
            precision: spec.precision,
            features: self.features(),
            issued: self.total_issued_supply(),
            burned: self.total_burned_supply(),
            replaced: self.total_replaced_supply(),
        }
    }
}

} // verus!
