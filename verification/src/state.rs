//! Values that the interface wrappers read out of a contract's state.

use vstd::prelude::*;

use rgbstd::stl::Attachment;
use rgbstd::Precision;
use strict_types::StrictVal;

use crate::amount::seq_of;
use crate::outside::{
    amount_from_strict_val, amount_of, asset_spec_of, contract_terms_of, ContractModel,
};

verus! {

/// The specification of an asset as its `spec` global state holds it.
#[derive(Debug, PartialEq, Eq)]
pub struct AssetSpec {
    /// Short ticker of the asset.
    pub ticker: String,
    /// Full name of the asset.
    pub name: String,
    /// Optional description.
    pub details: Option<String>,
    /// Number of decimal digits of the asset's amounts.
    pub precision: Precision,
}

/// The terms of a contract as its `terms` global state holds them.
#[derive(Debug, PartialEq, Eq)]
pub struct ContractTerms {
    /// Text of the Ricardian contract.
    pub text: String,
    /// Optional attached media.
    pub media: Option<Attachment>,
}

/// The first value of a global state field: `None` where the interface
/// knows no such field (`values` is `None`) or the field holds no value.
pub open spec fn first_of<T>(values: Option<Vec<T>>) -> Option<T> {
    match values {
        Some(v) => if v@.len() > 0 {
            Some(v@[0])
        } else {
            None
        },
        None => None,
    }
}

/// Takes the first of the values that a global state field holds.
pub fn first_value<T>(values: Option<Vec<T>>) -> (r: Option<T>)
    ensures
        r == first_of(values),
{
    match values {
        Some(mut v) => {
            if v.len() > 0 {
                Some(v.remove(0))
            } else {
                None
            }
        },
        None => None,
    }
}

/// The names of a sequence of transitions, as sequences of characters.
pub open spec fn names_of(transitions: Seq<String>) -> Seq<Seq<char>> {
    transitions.map_values(|t: String| t@)
}

/// The values of the global state field `name` of a contract; `None` where
/// its interface knows no such field.
pub open spec fn field_values(model: ContractModel, name: Seq<char>) -> Option<Seq<StrictVal>> {
    if model.globals.dom().contains(name) {
        Some(model.globals[name])
    } else {
        None
    }
}

/// The first value of the global state field `name`; `None` where the
/// interface knows no such field or it holds no value.
pub open spec fn first_field_value(model: ContractModel, name: Seq<char>) -> Option<StrictVal> {
    match field_values(model, name) {
        Some(v) => if v.len() > 0 {
            Some(v[0])
        } else {
            None
        },
        None => None,
    }
}

/// The decoded first value of the `spec` global state; `None` where there
/// is no such value or it holds no asset specification.
pub open spec fn asset_spec_field(model: ContractModel) -> Option<AssetSpec> {
    match first_field_value(model, "spec"@) {
        Some(v) => asset_spec_of(v),
        None => None,
    }
}

/// The decoded first value of the `terms` global state; `None` where there
/// is no such value or it holds no contract terms.
pub open spec fn terms_field(model: ContractModel) -> Option<ContractTerms> {
    match first_field_value(model, "terms"@) {
        Some(v) => contract_terms_of(v),
        None => None,
    }
}

/// Whether every one of `values` holds an amount.
pub open spec fn all_amounts(values: Seq<StrictVal>) -> bool {
    forall|i: int| 0 <= i < values.len() ==> (#[trigger] amount_of(values[i])) is Some
}

/// The amounts that `values` hold, one for each value.
pub open spec fn amounts_in(values: Seq<StrictVal>) -> Seq<u64> {
    values.map_values(|v: StrictVal| amount_of(v).unwrap())
}

/// The amounts of the global state field `name`; `None` where the
/// interface knows no such field.
pub open spec fn field_amounts(model: ContractModel, name: Seq<char>) -> Option<Seq<u64>> {
    match field_values(model, name) {
        Some(v) => Some(amounts_in(v)),
        None => None,
    }
}

/// Whether every value of the global state field `name` (if the interface
/// knows it) holds an amount.
pub open spec fn field_holds_amounts(model: ContractModel, name: Seq<char>) -> bool {
    match field_values(model, name) {
        Some(v) => all_amounts(v),
        None => true,
    }
}

/// Reads amounts out of the strict values of a global state field, keeping
/// `None` for a field that the interface does not know.
pub fn decode_amounts(values: Option<Vec<StrictVal>>) -> (r: Option<Vec<u64>>)
    requires
        values matches Some(v) ==> all_amounts(v@),
    ensures
        seq_of(r) == (match values {
            Some(v) => Some(amounts_in(v@)),
            None => None,
        }),
{
    match values {
        Some(v) => {
            let mut amounts: Vec<u64> = Vec::new();
            let n = v.len();
            for i in 0..n
                invariant
                    n == v@.len(),
                    all_amounts(v@),
                    amounts@ == amounts_in(v@).take(i as int),
            {
                assert(amount_of(v@[i as int]) is Some);
                amounts.push(amount_from_strict_val(&v[i]));
                assert(amounts@ =~= amounts_in(v@).take(i + 1));
            }
            assert(amounts_in(v@).take(n as int) =~= amounts_in(v@));
            Some(amounts)
        },
        None => None,
    }
}

/// The first of the values of a global state field is the one at index 0,
/// whatever the later values hold; a field that is unknown or empty has no
/// first value.
pub proof fn lemma_first_of<T>(values: Option<Vec<T>>)
    ensures
        values matches Some(v) ==> (v@.len() > 0 ==> first_of(values) == Some(v@[0])),
        values matches Some(v) ==> (v@.len() == 0 ==> first_of(values) is None),
        values is None ==> first_of(values) is None,
{
}

/// The first value of the global state field `name` is the value at index
/// 0 of what the contract holds for it; where the interface does not know
/// the field, or the field holds no value, there is none.
pub proof fn lemma_first_field_value(model: ContractModel, name: Seq<char>)
    ensures
        model.globals.dom().contains(name) && model.globals[name].len() > 0
            ==> first_field_value(model, name) == Some(model.globals[name][0]),
        !model.globals.dom().contains(name) || model.globals[name].len() == 0
            ==> first_field_value(model, name) is None,
{
}

/// The asset specification and the contract terms of an asset are the
/// decodings of the first values (index 0) of its `spec` and `terms`
/// fields, whatever later values hold; without such a value there is none.
pub proof fn lemma_spec_and_terms_are_first_values(model: ContractModel)
    ensures
        model.globals.dom().contains("spec"@) && model.globals["spec"@].len() > 0
            ==> asset_spec_field(model) == asset_spec_of(model.globals["spec"@][0]),
        !model.globals.dom().contains("spec"@) || model.globals["spec"@].len() == 0
            ==> asset_spec_field(model) is None,
        model.globals.dom().contains("terms"@) && model.globals["terms"@].len() > 0
            ==> terms_field(model) == contract_terms_of(model.globals["terms"@][0]),
        !model.globals.dom().contains("terms"@) || model.globals["terms"@].len() == 0
            ==> terms_field(model) is None,
{
}

/// Decoding keeps one amount for each strict value, in order: the `i`th
/// amount is what the `i`th value holds. So two equal amounts are both
/// kept.
pub proof fn lemma_amounts_in(values: Seq<StrictVal>)
    ensures
        amounts_in(values).len() == values.len(),
        forall|i: int| 0 <= i < values.len() ==> #[trigger] amounts_in(values)[i] == amount_of(values[i]).unwrap(),
        forall|v: StrictVal| #[trigger] amounts_in(values.push(v)) == amounts_in(values).push(amount_of(v).unwrap()),
{
    assert forall|v: StrictVal| #[trigger] amounts_in(values.push(v)) == amounts_in(values).push(amount_of(v).unwrap()) by {
        assert(amounts_in(values.push(v)) =~= amounts_in(values).push(amount_of(v).unwrap()));
    }
}

/// The amounts of a field that the interface knows are those its values
/// hold, one for each value; a field it does not know has none.
pub proof fn lemma_field_amounts(model: ContractModel, name: Seq<char>)
    ensures
        model.globals.dom().contains(name) ==> {
            &&& field_amounts(model, name) matches Some(a)
            &&& a.len() == model.globals[name].len()
            &&& forall|i: int| 0 <= i < a.len() ==> #[trigger] a[i] == amount_of(model.globals[name][i]).unwrap()
        },
        !model.globals.dom().contains(name) ==> field_amounts(model, name) is None,
{
    if model.globals.dom().contains(name) {
        lemma_amounts_in(model.globals[name]);
    }
}

/// The values of a global state field are all those the contract holds
/// for it, in order; a field that the interface does not know has none.
pub proof fn lemma_field_values(model: ContractModel, name: Seq<char>)
    ensures
        model.globals.dom().contains(name) ==> field_values(model, name) == Some(model.globals[name]),
        !model.globals.dom().contains(name) ==> field_values(model, name) is None,
{
}

/// The names of transitions are taken one for one, in order.
pub proof fn lemma_names_of(transitions: Seq<String>)
    ensures
        names_of(transitions).len() == transitions.len(),
        forall|i: int| 0 <= i < transitions.len() ==> #[trigger] names_of(transitions)[i] == transitions[i]@,
{
}

} // verus!
