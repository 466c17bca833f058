//! The transaction submitter's plans: what call is submitted, and for how
//! long the signed transaction stays valid.
//!
//! Signing and handing the transaction to the network are the caller's; the
//! library fixes what is signed.

use vstd::prelude::*;
use crate::identity::SignedIdentity;
use crate::source::BlockDescriptor;

verus! {

/// The number of blocks past its anchor for which a signed transaction stays
/// valid: generous, so that a delayed inclusion is not rejected as stale.
pub const MORTALITY_MARGIN: u64 = 256;

/// What the value of one argument of a call stands for.
pub enum FieldModel {
    /// An unsigned number.
    Number(u128),
    /// A run of bytes.
    Bytes(Seq<u8>),
}

/// `scale_value::Composite`, the form in which the network client takes the
/// arguments of a call. The library builds values of it and hands them on
/// unopened.
#[verifier::external_type_specification]
#[verifier::external_body]
#[verifier::reject_recursive_types(T)]
pub struct ExComposite<T>(scale_value::Composite<T>);

/// The named fields that a composite holds, in their order, each with what
/// its value stands for. It speaks of composites made of named fields whose
/// values are unsigned numbers or runs of bytes.
pub uninterp spec fn composite_fields(composite: scale_value::Composite<()>) -> Seq<
    (Seq<char>, FieldModel),
>;

/// Calls `scale_value::Composite::named` on two fields: the first holds
/// `scale_value::Value::u128` of the number, the second
/// `scale_value::Value::from_bytes` of the bytes.
///
/// Not proved: that the composite holds these two fields, under the names
/// given and in this order, the first with the number as its value and the
/// second with the bytes.
#[verifier::external_body]
fn named_number_and_bytes(
    number_name: &str,
    number: u128,
    bytes_name: &str,
    bytes: &Vec<u8>,
) -> (r: scale_value::Composite<()>)
    ensures
        composite_fields(r) == seq![
            (number_name@, FieldModel::Number(number)),
            (bytes_name@, FieldModel::Bytes(bytes@)),
        ],
{
    scale_value::Composite::named(
        [
            (number_name, scale_value::Value::u128(number)),
            (bytes_name, scale_value::Value::from_bytes(bytes)),
        ],
    )
}

/// The registration call: registers `hotkey` on the subnetwork `netuid`,
/// paid for by burning.
#[derive(Clone, Debug, PartialEq, Eq)]
pub struct RegistrationCall {
    /// The subnetwork to register on.
    pub netuid: u16,
    /// The public key of the hotkey to register.
    pub hotkey: Vec<u8>,
}

/// The named arguments of the registration call, in the order in which they
/// are submitted.
pub open spec fn registration_fields(netuid: u16, hotkey: Seq<u8>) -> Seq<(Seq<char>, FieldModel)> {
    seq![
        ("netuid"@, FieldModel::Number(netuid as u128)),
        ("hotkey"@, FieldModel::Bytes(hotkey)),
    ]
}

fn copy_bytes(bytes: &Vec<u8>) -> (r: Vec<u8>)
    ensures
        r@ == bytes@,
{
    let mut copy: Vec<u8> = Vec::new();
    let mut i: usize = 0;
    while i < bytes.len()
        invariant
            i <= bytes@.len(),
            copy@ == bytes@.take(i as int),
        decreases bytes@.len() - i,
    {
        copy.push(bytes[i]);
        assert(bytes@.take(i + 1) =~= bytes@.take(i as int).push(bytes@[i as int]));
        i += 1;
    }
    assert(bytes@.take(i as int) =~= bytes@);
    copy
}

impl RegistrationCall {
    /// The call that registers the identity's hotkey on the subnetwork
    /// `netuid`.
    pub fn burned_register(netuid: u16, identity: &SignedIdentity) -> (r: RegistrationCall)
        ensures
            r.netuid == netuid,
            r.hotkey@ == identity.hotkey.public_key()@,
            r.hotkey@.len() == 32,
    {
        RegistrationCall { netuid, hotkey: copy_bytes(identity.hotkey.public_key()) }
    }

    /// The name of the pallet that holds the call.
    pub fn pallet_name(&self) -> (r: &'static str)
        ensures
            r@ == "SubtensorModule"@,
    {
        "SubtensorModule"
    }

    /// The name of the call.
    pub fn call_name(&self) -> (r: &'static str)
        ensures
            r@ == "burned_register"@,
    {
        "burned_register"
    }

    /// The arguments of the call, in the form in which the network client
    /// takes them: the subnetwork under the name `netuid`, then the hotkey's
    /// public key under the name `hotkey`.
    pub fn call_data(&self) -> (r: scale_value::Composite<()>)
        ensures
            composite_fields(r) == registration_fields(self.netuid, self.hotkey@),
    {
        named_number_and_bytes("netuid", self.netuid as u128, "hotkey", &self.hotkey)
    }
}

/// The range of blocks in which a signed transaction is accepted: from its
/// anchor block to `period` blocks past it.
#[derive(Clone, Copy, Debug, PartialEq, Eq)]
pub struct ValidityWindow {
    /// The block the window opens at.
    pub anchor: BlockDescriptor,
    /// The number of blocks past the anchor for which the window stays open.
    pub period: u64,
}

impl ValidityWindow {
    /// Whether a transaction with this window is still accepted in the block
    /// with the given sequence number.
    pub open spec fn covers(self, sequence: u64) -> bool {
        self.anchor.sequence_number <= sequence && sequence - self.anchor.sequence_number
            <= self.period
    }

    /// The window of a transaction signed on `block`: anchored there, and
    /// open for the mortality margin.
    pub fn anchored_at(block: &BlockDescriptor) -> (r: ValidityWindow)
        ensures
            r.anchor == *block,
            r.period == MORTALITY_MARGIN,
            forall|sequence: u64|
                r.covers(sequence) <==> block.sequence_number <= sequence <= block.sequence_number
                    + MORTALITY_MARGIN,
    {
        ValidityWindow { anchor: *block, period: MORTALITY_MARGIN }
    }

    /// Whether a transaction with this window is still accepted in the block
    /// with the given sequence number.
    pub fn is_open_at(&self, sequence: u64) -> (r: bool)
        ensures
            r == self.covers(sequence),
    {
        self.anchor.sequence_number <= sequence && sequence - self.anchor.sequence_number
            <= self.period
    }
}

} // verus!
