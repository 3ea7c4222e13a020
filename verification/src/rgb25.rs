//! RGB25: collectible fungible assets.

use std::borrow::Borrow;

use vstd::prelude::*;

use rgbstd::persistence::MemContractState;
use rgbstd::stl::{Details, Name};
use rgbstd::{ContractId, Precision, SchemaId, WitnessInfo, XWitnessId};

use crate::amount::{optional_total, optional_total_of, total_amount, total_of};
use crate::iface_ids::rgb25_iface_ids;
use crate::outside::{
    contract_id_of, contract_terms_from_strict_val, details_from_strict_val, details_of,
    global_state, name_from_strict_val, name_of, precision_from_strict_val, precision_of,
    schema_id_of, witness_info_of, Contract, ContractModel,
};
use crate::state::{
    decode_amounts, field_amounts, field_holds_amounts, field_values, first_field_value,
    first_value, terms_field, ContractTerms,
};

verus! {

/// The decoded first value of the `name` global state; `None` where there
/// is no such value or it holds no name.
pub open spec fn name_field(model: ContractModel) -> Option<Name> {
    match first_field_value(model, "name"@) {
        Some(v) => name_of(v),
        None => None,
    }
}

/// The decoded first value of the `details` global state; `None` where
/// there is no such value or it holds no description.
pub open spec fn details_field(model: ContractModel) -> Option<Details> {
    match first_field_value(model, "details"@) {
        Some(v) => details_of(v),
        None => None,
    }
}

/// The decoded first value of the `precision` global state; `None` where
/// there is no such value or it holds no known precision.
pub open spec fn precision_field(model: ContractModel) -> Option<Precision> {
    match first_field_value(model, "precision"@) {
        Some(v) => precision_of(v),
        None => None,
    }
}

/// A collectible fungible asset: a contract seen through one of the RGB25
/// interfaces. Each accessor reads what it needs from the contract when it
/// is called.
#[verifier::reject_recursive_types(M)]
pub struct Rgb25Wrapper<M: Borrow<MemContractState>> {
    contract: Contract<M>,
}

impl<M: Borrow<MemContractState>> Rgb25Wrapper<M> {
    /// Every wrapper holds a contract seen through an RGB25 interface.
    #[verifier::type_invariant]
    spec fn is_rgb25(self) -> bool {
        rgb25_iface_ids().contains(self.contract.model().iface_id)
    }

    /// The wrapped contract.
    pub closed spec fn contract_view(self) -> Contract<M> {
        self.contract
    }

    /// What the wrapped contract holds.
    pub open spec fn model(self) -> ContractModel {
        self.contract_view().model()
    }

    /// Wraps a contract seen through one of the RGB25 interfaces (any other
    /// interface is refused: the caller tests `Contract::iface_id` with
    /// `is_rgb25_iface_id` first). Nothing is read from the contract here.
    pub fn with(contract: Contract<M>) -> (r: Self)
        requires
            rgb25_iface_ids().contains(contract.model().iface_id),
        ensures
            r.contract_view() == contract,
    {
        Rgb25Wrapper { contract }
    }

    /// The identifier of the interface through which the wrapper sees its
    /// contract: always one of the RGB25 interfaces.
    pub fn iface_id(&self) -> (r: [u8; 32])
        ensures
            r@ == self.model().iface_id,
            rgb25_iface_ids().contains(r@),
    {
        proof {
            use_type_invariant(self);
        }
        self.contract.iface_id()
    }

    /// The contract.
    pub fn contract(&self) -> (r: &Contract<M>)
        ensures
            *r == self.contract_view(),
    {
        &self.contract
    }

    /// The identifier of the contract.
    pub fn contract_id(&self) -> (r: ContractId)
        ensures
            r == self.model().contract_id,
    {
        contract_id_of(&self.contract)
    }

    /// The identifier of the contract's schema.
    pub fn schema_id(&self) -> (r: SchemaId)
        ensures
            r == self.model().schema_id,
    {
        schema_id_of(&self.contract)
    }

    /// Where the contract's state knows the witness `witness_id`, its
    /// ordering information.
    pub fn witness_info(&self, witness_id: XWitnessId) -> (r: Option<WitnessInfo>)
        ensures
            r is Some <==> self.model().witnesses.dom().contains(witness_id),
            r matches Some(info) ==> info == self.model().witnesses[witness_id],
    {
        witness_info_of(&self.contract, witness_id)
    }

    /// The contract terms: the first value of the `terms` global state,
    /// decoded; later values are not read. The interface must have the
    /// field and the field a value that holds terms.
    pub fn contract_terms(&self) -> (r: ContractTerms)
        requires
            self.model().reads_cleanly("terms"@),
            terms_field(self.model()) is Some,
        ensures
            Some(r) == terms_field(self.model()),
    {
        proof {
            reveal_strlit("terms");
        }
        let value = first_value(global_state(&self.contract, "terms")).unwrap();
        contract_terms_from_strict_val(&value)
    }

    /// The name of the asset: the first value of the `name` global state,
    /// decoded; later values are not read. The interface must have the
    /// field and the field a value that holds a name.
    pub fn name(&self) -> (r: Name)
        requires
            self.model().reads_cleanly("name"@),
            name_field(self.model()) is Some,
        ensures
            Some(r) == name_field(self.model()),
    {
        proof {
            reveal_strlit("name");
        }
        let value = first_value(global_state(&self.contract, "name")).unwrap();
        name_from_strict_val(&value)
    }

    /// The description of the asset: the first value of the `details`
    /// global state, decoded, and `None` where the field holds no value.
    /// The interface must have the field, and a first value must hold a
    /// description.
    pub fn details(&self) -> (r: Option<Details>)
        requires
            self.model().reads_cleanly("details"@),
            field_values(self.model(), "details"@) is Some,
            first_field_value(self.model(), "details"@) matches Some(v) ==> details_of(v) is Some,
        ensures
            r == details_field(self.model()),
    {
        proof {
            reveal_strlit("details");
        }
        match first_value(global_state(&self.contract, "details")) {
            Some(value) => Some(details_from_strict_val(&value)),
            None => None,
        }
    }

    /// The precision of the asset's amounts: the first value of the
    /// `precision` global state, decoded; later values are not read. The
    /// interface must have the field and the field a value that holds a
    /// known precision.
    pub fn precision(&self) -> (r: Precision)
        requires
            self.model().reads_cleanly("precision"@),
            precision_field(self.model()) is Some,
        ensures
            Some(r) == precision_field(self.model()),
    {
        proof {
            reveal_strlit("precision");
        }
        let value = first_value(global_state(&self.contract, "precision")).unwrap();
        precision_from_strict_val(&value)
    }

    /// The total issued supply: the sum of the `issuedSupply` amounts,
    /// capped at `u64::MAX`. The interface must have the field.
    pub fn total_issued_supply(&self) -> (r: u64)
        requires
            self.model().reads_cleanly("issuedSupply"@),
            field_values(self.model(), "issuedSupply"@) is Some,
            field_holds_amounts(self.model(), "issuedSupply"@),
        ensures
            r == total_of(field_amounts(self.model(), "issuedSupply"@).unwrap()),
    {
        proof {
            reveal_strlit("issuedSupply");
        }
        let amounts = decode_amounts(global_state(&self.contract, "issuedSupply")).unwrap();
        total_amount(&amounts)
    }

    /// The total burned supply: the sum of the `burnedSupply` amounts,
    /// capped at `u64::MAX`, and 0 where the interface has no such field.
    pub fn total_burned_supply(&self) -> (r: u64)
        requires
            self.model().reads_cleanly("burnedSupply"@),
            field_holds_amounts(self.model(), "burnedSupply"@),
        ensures
            r == optional_total_of(field_amounts(self.model(), "burnedSupply"@)),
    {
        proof {
            reveal_strlit("burnedSupply");
        }
        optional_total(&decode_amounts(global_state(&self.contract, "burnedSupply")))
    }
}

/// The name, description and precision of a collectible asset are the
/// decodings of the first values (index 0) of its `name`, `details` and
/// `precision` fields, whatever later values hold; without such a value
/// there is none.
pub proof fn lemma_rgb25_fields_are_first_values(model: ContractModel)
    ensures
        model.globals.dom().contains("name"@) && model.globals["name"@].len() > 0
            ==> name_field(model) == name_of(model.globals["name"@][0]),
        !model.globals.dom().contains("name"@) || model.globals["name"@].len() == 0
            ==> name_field(model) is None,
        model.globals.dom().contains("details"@) && model.globals["details"@].len() > 0
            ==> details_field(model) == details_of(model.globals["details"@][0]),
        !model.globals.dom().contains("details"@) || model.globals["details"@].len() == 0
            ==> details_field(model) is None,
        model.globals.dom().contains("precision"@) && model.globals["precision"@].len() > 0
            ==> precision_field(model) == precision_of(model.globals["precision"@][0]),
        !model.globals.dom().contains("precision"@) || model.globals["precision"@].len() == 0
            ==> precision_field(model) is None,
{
}

} // verus!
