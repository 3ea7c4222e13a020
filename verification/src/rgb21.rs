//! RGB21: unique digital assets.

use std::borrow::Borrow;

use vstd::prelude::*;

use rgbstd::persistence::MemContractState;
use rgbstd::{ContractId, SchemaId, WitnessInfo, XWitnessId};
use strict_types::StrictVal;

use crate::iface_ids::rgb21_iface_ids;
use crate::outside::{
    asset_spec_from_strict_val, contract_id_of, contract_terms_from_strict_val, global_state,
    schema_id_of, witness_info_of, Contract, ContractModel,
};
use crate::state::{
    asset_spec_field, field_values, first_field_value, first_value, terms_field, AssetSpec,
    ContractTerms,
};

verus! {

/// A unique digital asset: a contract seen through one of the RGB21
/// interfaces. Each accessor reads what it needs from the contract when it
/// is called.
#[verifier::reject_recursive_types(M)]
pub struct Rgb21Wrapper<M: Borrow<MemContractState>> {
    contract: Contract<M>,
}

impl<M: Borrow<MemContractState>> Rgb21Wrapper<M> {
    /// Every wrapper holds a contract seen through an RGB21 interface.
    #[verifier::type_invariant]
    spec fn is_rgb21(self) -> bool {
        rgb21_iface_ids().contains(self.contract.model().iface_id)
    }

    /// The wrapped contract.
    pub closed spec fn contract_view(self) -> Contract<M> {
        self.contract
    }

    /// What the wrapped contract holds.
    pub open spec fn model(self) -> ContractModel {
        self.contract_view().model()
    }

    /// Wraps a contract seen through one of the RGB21 interfaces (any other
    /// interface is refused: the caller tests `Contract::iface_id` with
    /// `is_rgb21_iface_id` first). Nothing is read from the contract here.
    pub fn with(contract: Contract<M>) -> (r: Self)
        requires
            rgb21_iface_ids().contains(contract.model().iface_id),
        ensures
            r.contract_view() == contract,
    {
        Rgb21Wrapper { contract }
    }

    /// The identifier of the interface through which the wrapper sees its
    /// contract: always one of the RGB21 interfaces.
    pub fn iface_id(&self) -> (r: [u8; 32])
        ensures
            r@ == self.model().iface_id,
            rgb21_iface_ids().contains(r@),
    {
        proof {
            use_type_invariant(self);
        }
        self.contract.iface_id()
    }

    /// The contract.
    pub fn contract(&self) -> (r: &Contract<M>)
        ensures
            *r == self.contract_view(),
    {
        &self.contract
    }

    /// The identifier of the contract.
    pub fn contract_id(&self) -> (r: ContractId)
        ensures
            r == self.model().contract_id,
    {
        contract_id_of(&self.contract)
    }

    /// The identifier of the contract's schema.
    pub fn schema_id(&self) -> (r: SchemaId)
        ensures
            r == self.model().schema_id,
    {
        schema_id_of(&self.contract)
    }

    /// Where the contract's state knows the witness `witness_id`, its
    /// ordering information.
    pub fn witness_info(&self, witness_id: XWitnessId) -> (r: Option<WitnessInfo>)
        ensures
            r is Some <==> self.model().witnesses.dom().contains(witness_id),
            r matches Some(info) ==> info == self.model().witnesses[witness_id],
    {
        witness_info_of(&self.contract, witness_id)
    }

    /// The contract terms: the first value of the `terms` global state,
    /// decoded; later values are not read. The interface must have the
    /// field and the field a value that holds terms.
    pub fn contract_terms(&self) -> (r: ContractTerms)
        requires
            self.model().reads_cleanly("terms"@),
            terms_field(self.model()) is Some,
        ensures
            Some(r) == terms_field(self.model()),
    {
        proof {
            reveal_strlit("terms");
        }
        let value = first_value(global_state(&self.contract, "terms")).unwrap();
        contract_terms_from_strict_val(&value)
    }

    /// The asset specification: the first value of the `spec` global
    /// state, decoded; later values are not read. The interface must have
    /// the field and the field a value that holds a specification.
    pub fn spec(&self) -> (r: AssetSpec)
        requires
            self.model().reads_cleanly("spec"@),
            asset_spec_field(self.model()) is Some,
        ensures
            Some(r) == asset_spec_field(self.model()),
    {
        proof {
            reveal_strlit("spec");
        }
        let value = first_value(global_state(&self.contract, "spec")).unwrap();
        asset_spec_from_strict_val(&value)
    }

    /// The token data: the first value of the `tokens` global state, as the
    /// contract's type system decodes it; later values are not read. The
    /// interface must have the field and the field a value.
    pub fn token_data(&self) -> (r: StrictVal)
        requires
            self.model().reads_cleanly("tokens"@),
            first_field_value(self.model(), "tokens"@) is Some,
        ensures
            Some(r) == first_field_value(self.model(), "tokens"@),
    {
        proof {
            reveal_strlit("tokens");
        }
        first_value(global_state(&self.contract, "tokens")).unwrap()
    }

    /// The engravings: every value of the `engravings` global state, in
    /// order, as the contract's type system decodes them. The interface
    /// must have the field.
    pub fn engraving_data(&self) -> (r: Vec<StrictVal>)
        requires
            self.model().reads_cleanly("engravings"@),
            field_values(self.model(), "engravings"@) is Some,
        ensures
            Some(r@) == field_values(self.model(), "engravings"@),
    {
        proof {
            reveal_strlit("engravings");
        }
        global_state(&self.contract, "engravings").unwrap()
    }
}

} // verus!
