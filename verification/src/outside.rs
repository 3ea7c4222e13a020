//! The items of `rgbstd` and `strict_types` that this library calls, with
//! the contracts that the library relies on.
//!
//! A contract seen through an interface (`ContractIface`) is held with a
//! model of what it holds ([`ContractModel`]); the reads below are stated
//! over that model, and the decodings of strict values over the names
//! given to their results.

use std::borrow::Borrow;

use vstd::prelude::*;

use rgbstd::interface::ContractIface;
use rgbstd::info::ContractInfo;
use rgbstd::persistence::{ContractStateRead, MemContract, MemContractState};
use rgbstd::stl::{Attachment, Details, Name};
use rgbstd::{
    Amount, ContractId, Impossible, Precision, SchemaId, Txid, WitnessInfo,
    XChain, XWitnessId,
};
use strict_types::StrictVal;

use crate::amount::capped;
use crate::state::{names_of, AssetSpec, ContractTerms};

verus! {

/// A contract seen through an interface implementation, with its state kept
/// in memory: rgbstd's `ContractIface<MemContract<M>>` (the contract state
/// that rgbstd's stock hands out), kept whole. Proofs see nothing inside
/// it; `Contract` pairs it with a model of what it holds.
#[verifier::external_body]
#[verifier::reject_recursive_types(M)]
pub struct IfaceHandle<M: Borrow<MemContractState>>(pub ContractIface<MemContract<M>>);

/// What a contract seen through an interface holds, as the reads of this
/// module return it. A contract does not change while it is held, so each
/// read gives the same result every time.
pub struct ContractModel {
    /// The identifier of the interface, as 32 bytes.
    pub iface_id: Seq<u8>,
    /// The names of the state transitions that the interface maps.
    pub transitions: Seq<Seq<char>>,
    /// For each global state field that the interface knows, its values,
    /// decoded with the contract's type system.
    pub globals: Map<Seq<char>, Seq<StrictVal>>,
    /// The global state fields that rgbstd reads without panicking: those
    /// whose type in the contract's schema matches the interface and whose
    /// stored data were validated.
    pub readable: Set<Seq<char>>,
    /// The identifier of the contract.
    pub contract_id: ContractId,
    /// The identifier of the contract's schema.
    pub schema_id: SchemaId,
    /// The information that the contract carries (issuer, issue time,
    /// network).
    pub info: ContractInfo,
    /// The witnesses that the contract's state knows, with their ordering.
    pub witnesses: Map<XWitnessId, WitnessInfo>,
}

impl ContractModel {
    /// Whether rgbstd reads the global state field `name` without
    /// panicking: a field that the interface does not know is never read
    /// from the contract's state.
    pub open spec fn reads_cleanly(self, name: Seq<char>) -> bool {
        self.globals.dom().contains(name) ==> self.readable.contains(name)
    }
}

/// A contract seen through an interface, with the model of what it holds
/// that the reads of this module are stated over.
#[verifier::reject_recursive_types(M)]
pub struct Contract<M: Borrow<MemContractState>> {
    handle: IfaceHandle<M>,
    model: Ghost<ContractModel>,
}

impl<M: Borrow<MemContractState>> Contract<M> {
    /// What the contract holds.
    pub closed spec fn model(self) -> ContractModel {
        self.model@
    }

    /// The rgbstd contract interface that is held.
    pub closed spec fn handle_view(self) -> IfaceHandle<M> {
        self.handle
    }

    /// Holds a contract interface together with the model of what it holds.
    pub fn new(handle: IfaceHandle<M>) -> (r: Self)
        ensures
            r.handle_view() == handle,
    {
        attach_model(handle)
    }

    /// The rgbstd contract interface that is held.
    pub fn handle(&self) -> (r: &IfaceHandle<M>)
        ensures
            *r == self.handle_view(),
    {
        &self.handle
    }

    /// The identifier of the interface through which the contract is seen.
    pub fn iface_id(&self) -> (r: [u8; 32])
        ensures
            r@ == self.model().iface_id,
    {
        iface_id_of(self)
    }

    /// The names of the state transitions that the interface maps.
    pub fn transition_names(&self) -> (r: Vec<String>)
        ensures
            names_of(r@) == self.model().transitions,
    {
        transition_names_of(self)
    }

    /// How many values the global state field `name` holds; `None` where the
    /// interface knows no such field.
    pub fn global_count(&self, name: &'static str) -> (r: Option<usize>)
        requires
            is_field_name(name@),
            self.model().reads_cleanly(name@),
        ensures
            r is Some <==> self.model().globals.dom().contains(name@),
            r matches Some(n) ==> n == self.model().globals[name@].len(),
    {
        match global_state(self, name) {
            Some(values) => Some(values.len()),
            None => None,
        }
    }
}

/// Whether `c` may start a field name: a small latin letter or `_`.
pub open spec fn is_name_start(c: char) -> bool {
    ('a' <= c && c <= 'z') || c == '_'
}

/// Whether `c` may continue a field name: a latin letter, a digit or `_`.
pub open spec fn is_name_char(c: char) -> bool {
    ('a' <= c && c <= 'z') || ('A' <= c && c <= 'Z') || ('0' <= c && c <= '9') || c == '_'
}

/// Whether `s` is a valid strict-encoding field name (`FieldName`): 1 to 100
/// characters, starting with a small letter or `_`, then letters, digits
/// and `_`.
pub open spec fn is_field_name(s: Seq<char>) -> bool {
    &&& 1 <= s.len() <= 100
    &&& is_name_start(s[0])
    &&& forall|i: int| 1 <= i < s.len() ==> is_name_char(#[trigger] s[i])
}

/// The amount that a strict value holds (`Amount::from_strict_val_unchecked`
/// of rgb-invoice): `None` for a value that holds no unsigned integer that
/// fits 64 bits, on which that function panics.
pub uninterp spec fn amount_of(value: StrictVal) -> Option<u64>;

/// The asset specification that a strict value holds
/// (`AssetSpec::from_strict_val_unchecked` of rgbstd, with ticker, name and
/// details as strings): `None` for a value on which that function panics.
pub uninterp spec fn asset_spec_of(value: StrictVal) -> Option<AssetSpec>;

/// The contract terms that a strict value holds
/// (`ContractTerms::from_strict_val_unchecked` of rgbstd, with the text as a
/// string): `None` for a value on which that function panics.
pub uninterp spec fn contract_terms_of(value: StrictVal) -> Option<ContractTerms>;

/// The name that a strict value holds (`Name::from_strict_val_unchecked` of
/// rgbstd): `None` for a value on which that function panics.
pub uninterp spec fn name_of(value: StrictVal) -> Option<Name>;

/// The description that a strict value holds
/// (`Details::from_strict_val_unchecked` of rgbstd): `None` for a value on
/// which that function panics.
pub uninterp spec fn details_of(value: StrictVal) -> Option<Details>;

/// The precision that a strict value holds
/// (`Precision::from_strict_val_unchecked` of rgb-invoice): `None` for a
/// value on which that function panics.
pub uninterp spec fn precision_of(value: StrictVal) -> Option<Precision>;

/// Holds `handle` with a model of what it holds. Nothing is stated of the
/// model here: it stands for what the contract holds, and the reads below
/// state what they return in its terms.
#[verifier::external_body]
fn attach_model<M: Borrow<MemContractState>>(handle: IfaceHandle<M>) -> (r: Contract<M>)
    ensures
        r.handle_view() == handle,
{
    Contract { handle, model: Ghost(arbitrary()) }
}

#[verifier::external_type_specification]
#[verifier::external_body]
pub struct ExMemContractState(MemContractState);

#[verifier::external_type_specification]
#[verifier::external_body]
pub struct ExStrictVal(StrictVal);

#[verifier::external_type_specification]
#[verifier::external_body]
pub struct ExPrecision(Precision);

#[verifier::external_type_specification]
#[verifier::external_body]
pub struct ExAttachment(Attachment);

#[verifier::external_type_specification]
#[verifier::external_body]
pub struct ExName(Name);

#[verifier::external_type_specification]
#[verifier::external_body]
pub struct ExDetails(Details);

#[verifier::external_type_specification]
#[verifier::external_body]
pub struct ExContractId(ContractId);

#[verifier::external_type_specification]
#[verifier::external_body]
pub struct ExSchemaId(SchemaId);

#[verifier::external_type_specification]
#[verifier::external_body]
#[verifier::reject_recursive_types(T)]
#[verifier::reject_recursive_types(X)]
pub struct ExXChain<T, X>(XChain<T, X>);

#[verifier::external_type_specification]
#[verifier::external_body]
pub struct ExTxid(Txid);

#[verifier::external_type_specification]
#[verifier::external_body]
pub struct ExImpossible(Impossible);

#[verifier::external_type_specification]
#[verifier::external_body]
pub struct ExWitnessInfo(WitnessInfo);

#[verifier::external_type_specification]
#[verifier::external_body]
pub struct ExContractInfo(ContractInfo);

/// `Amount::saturating_add` (rgb-invoice): adds two amounts with
/// `u64::saturating_add`, so the result is the sum capped at `u64::MAX`.
#[verifier::external_body]
pub(crate) fn amount_saturating_add(a: u64, b: u64) -> (r: u64)
    ensures
        r == capped(a + b),
{
    Amount::from(a).saturating_add(b).value()
}

/// `Amount - Amount` (rgb-invoice; the `Sub` that amplify's `Wrapper`
/// derive writes over the inner `u64`): the difference of the two amounts.
/// It underflows, and panics in debug builds, where `b > a`.
#[verifier::external_body]
pub(crate) fn amount_sub(a: u64, b: u64) -> (r: u64)
    requires
        b <= a,
    ensures
        r == a - b,
{
    (Amount::from(a) - Amount::from(b)).value()
}

/// The identifier of the interface through which `contract` is seen (the
/// field `iface.iface_id` of the `ContractIface`), as its 32 bytes.
#[verifier::external_body]
pub(crate) fn iface_id_of<M: Borrow<MemContractState>>(contract: &Contract<M>) -> (r: [u8; 32])
    ensures
        r@ == contract.model().iface_id,
{
    contract.handle.0.iface.iface_id.to_byte_array()
}

/// The names of the state transitions that the interface implementation of
/// `contract` maps (the field `iface.transitions` of the `ContractIface`),
/// in the order of that set.
#[verifier::external_body]
pub(crate) fn transition_names_of<M: Borrow<MemContractState>>(contract: &Contract<M>) -> (r: Vec<String>)
    ensures
        names_of(r@) == contract.model().transitions,
{
    contract.handle.0.iface.transitions.iter().map(|t| t.name.to_string()).collect()
}

/// `ContractIface::global`: the values of the global state field `name`,
/// decoded with the contract's type system; `None` where the interface
/// knows no field of that name (`ContractError::FieldNameUnknown`). The
/// name must be a valid field name (its conversion panics otherwise), and
/// for a field that the interface knows the call panics where the field's
/// type in the contract's schema does not match the interface or its stored
/// data were not validated.
#[verifier::external_body]
pub(crate) fn global_state<M: Borrow<MemContractState>>(
    contract: &Contract<M>,
    name: &'static str,
) -> (r: Option<Vec<StrictVal>>)
    requires
        is_field_name(name@),
        contract.model().reads_cleanly(name@),
    ensures
        r is Some <==> contract.model().globals.dom().contains(name@),
        r matches Some(values) ==> values@ == contract.model().globals[name@],
{
    contract.handle.0.global(name).ok().map(|values| values.collect())
}

/// `Amount::from_strict_val_unchecked` (rgb-invoice): the unsigned integer
/// that a strict value holds. It panics on a value that holds no such
/// integer.
#[verifier::external_body]
pub(crate) fn amount_from_strict_val(value: &StrictVal) -> (r: u64)
    requires
        amount_of(*value) is Some,
    ensures
        Some(r) == amount_of(*value),
{
    Amount::from_strict_val_unchecked(value).value()
}

/// `AssetSpec::from_strict_val_unchecked` (rgbstd): reads an asset
/// specification out of a strict value, here with its ticker, name and
/// details turned into strings (their `Display`). It panics on a value that
/// does not hold a valid specification.
#[verifier::external_body]
pub(crate) fn asset_spec_from_strict_val(value: &StrictVal) -> (r: AssetSpec)
    requires
        asset_spec_of(*value) is Some,
    ensures
        Some(r) == asset_spec_of(*value),
{
    let spec = rgbstd::stl::AssetSpec::from_strict_val_unchecked(value);
    AssetSpec {
        ticker: spec.ticker.to_string(),
        name: spec.name.to_string(),
        details: spec.details.map(|d| d.to_string()),
        precision: spec.precision,
    }
}

/// `ContractTerms::from_strict_val_unchecked` (rgbstd): reads contract terms
/// out of a strict value, here with the Ricardian contract turned into a
/// string. It panics on a value that does not hold valid terms.
#[verifier::external_body]
pub(crate) fn contract_terms_from_strict_val(value: &StrictVal) -> (r: ContractTerms)
    requires
        contract_terms_of(*value) is Some,
    ensures
        Some(r) == contract_terms_of(*value),
{
    let terms = rgbstd::stl::ContractTerms::from_strict_val_unchecked(value);
    ContractTerms { text: terms.text.to_string(), media: terms.media }
}

/// `Name::from_strict_val_unchecked` (rgbstd). It panics on a value that
/// holds no valid name.
#[verifier::external_body]
pub(crate) fn name_from_strict_val(value: &StrictVal) -> (r: Name)
    requires
        name_of(*value) is Some,
    ensures
        Some(r) == name_of(*value),
{
    Name::from_strict_val_unchecked(value)
}

/// `Details::from_strict_val_unchecked` (rgbstd). It panics on a value that
/// holds no valid description.
#[verifier::external_body]
pub(crate) fn details_from_strict_val(value: &StrictVal) -> (r: Details)
    requires
        details_of(*value) is Some,
    ensures
        Some(r) == details_of(*value),
{
    Details::from_strict_val_unchecked(value)
}

/// `Precision::from_strict_val_unchecked` (rgb-invoice). It panics on a
/// value that holds no known precision.
#[verifier::external_body]
pub(crate) fn precision_from_strict_val(value: &StrictVal) -> (r: Precision)
    requires
        precision_of(*value) is Some,
    ensures
        Some(r) == precision_of(*value),
{
    Precision::from_strict_val_unchecked(value)
}

/// `ContractIface::contract_id`.
#[verifier::external_body]
pub(crate) fn contract_id_of<M: Borrow<MemContractState>>(contract: &Contract<M>) -> (r: ContractId)
    ensures
        r == contract.model().contract_id,
{
    contract.handle.0.contract_id()
}

/// `ContractStateRead::schema_id` of the contract's state.
#[verifier::external_body]
pub(crate) fn schema_id_of<M: Borrow<MemContractState>>(contract: &Contract<M>) -> (r: SchemaId)
    ensures
        r == contract.model().schema_id,
{
    contract.handle.0.state.schema_id()
}

/// `ContractIface::witness_info`: where the stored state knows the witness,
/// its id and ordering.
#[verifier::external_body]
pub(crate) fn witness_info_of<M: Borrow<MemContractState>>(
    contract: &Contract<M>,
    witness_id: XWitnessId,
) -> (r: Option<WitnessInfo>)
    ensures
        r is Some <==> contract.model().witnesses.dom().contains(witness_id),
        r matches Some(info) ==> info == contract.model().witnesses[witness_id],
{
    contract.handle.0.witness_info(witness_id)
}

/// A copy (`Clone`, derived) of the contract information that `contract`
/// carries (the field `info` of the `ContractIface`).
#[verifier::external_body]
pub(crate) fn contract_info_of<M: Borrow<MemContractState>>(contract: &Contract<M>) -> (r: ContractInfo)
    ensures
        r == contract.model().info,
{
    contract.handle.0.info.clone()
}

} // verus!
