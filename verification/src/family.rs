//! Transaction families and the addresses under which their state is kept.

use crate::decimal::{decimal, to_decimal};
use crate::helper::{calculate_checksum, checksum, is_hex_lower};
use crate::payloads::{PayloadView, TransactionPayload};
use crate::text::append_bytes;
use vstd::prelude::*;
use vstd::string::StringExecFns;
use vstd::utf8::encode_utf8;

verus! {

/// Number of characters in a namespace.
pub const NAMESPACE_LENGTH: usize = 6;

/// Number of characters that the payload contributes to an address.
pub const KEY_LENGTH: usize = 64;

/// Number of characters in a state address.
pub const ADDRESS_LENGTH: usize = 70;

/// The namespace of the family called `name`: the first six characters of
/// the checksum of the name.
pub open spec fn namespace(name: Seq<char>) -> Seq<char> {
    checksum(encode_utf8(name)).subrange(0, 6)
}

/// What of a payload decides its address: agent id, message type and
/// timestamp, one after the other, the timestamp in decimal. The message
/// itself has no part in it.
pub open spec fn address_key(agent_id: Seq<char>, message_type: Seq<char>, timestamp: u64) -> Seq<
    u8,
> {
    encode_utf8(agent_id) + encode_utf8(message_type) + decimal(timestamp as nat)
}

/// The address of `payload` in the family called `name`: the namespace, then
/// the first sixty-four characters of the checksum of the address key.
pub open spec fn state_address(name: Seq<char>, payload: PayloadView) -> Seq<char> {
    namespace(name) + checksum(
        address_key(payload.agent_id, payload.message_type, payload.timestamp),
    ).subrange(0, 64)
}

/// A family of transactions: its name and the versions it is offered in.
#[derive(Debug, Clone, PartialEq, Eq)]
pub struct TransactionFamily {
    name: String,
    versions: Vec<String>,
}

/// A family as plain values.
pub struct FamilyView {
    pub name: Seq<char>,
    pub versions: Seq<Seq<char>>,
}

impl FamilyView {
    /// The version that transactions of the family carry: the first one
    /// listed, or the empty text where none is.
    pub open spec fn version(self) -> Seq<char> {
        if self.versions.len() > 0 {
            self.versions[0]
        } else {
            Seq::empty()
        }
    }
}

impl View for TransactionFamily {
    type V = FamilyView;

    closed spec fn view(&self) -> FamilyView {
        FamilyView { name: self.name@, versions: self.versions.deep_view() }
    }
}

impl TransactionFamily {
    /// The family of the given name, offered in the given versions.
    pub fn new(name: &str, versions: &[String]) -> (family: Self)
        ensures
            family@.name == name@,
            family@.versions == versions.deep_view(),
    {
        let mut copies: Vec<String> = Vec::new();
        let mut i: usize = 0;
        while i < versions.len()
            invariant
                0 <= i <= versions@.len(),
                copies@.len() == i,
                forall|j: int| 0 <= j < i ==> copies@[j]@ == versions@[j]@,
            decreases versions@.len() - i,
        {
            copies.push(versions[i].clone());
            i += 1;
        }
        TransactionFamily { name: name.to_owned(), versions: copies }
    }

    /// The family's name.
    pub fn name(&self) -> (name: String)
        ensures
            name@ == self@.name,
    {
        self.name.clone()
    }

    /// The version that transactions of the family carry.
    pub fn version(&self) -> (version: String)
        ensures
            version@ == self@.version(),
    {
        if self.versions.len() > 0 {
            self.versions[0].clone()
        } else {
            String::new()
        }
    }

    /// The prefix that all addresses of the family share.
    pub fn calculate_namespace(&self) -> (prefix: String)
        ensures
            prefix@ == namespace(self@.name),
            prefix@.len() == NAMESPACE_LENGTH,
            is_hex_lower(prefix@),
    {
        let sum = calculate_checksum(self.name.as_str().as_bytes());
        sum.as_str().substring_ascii(0, NAMESPACE_LENGTH).to_owned()
    }

    /// The address under which the state of `payload` is kept.
    pub fn calculate_state_address_for(&self, payload: &TransactionPayload) -> (address: String)
        ensures
            address@ == state_address(self@.name, payload@),
            address@.len() == ADDRESS_LENGTH,
            is_hex_lower(address@),
            namespace(self@.name).is_prefix_of(address@),
    {
        let mut key: Vec<u8> = Vec::new();
        append_bytes(&mut key, payload.agent_id.as_str().as_bytes());
        append_bytes(&mut key, payload.message_type.as_str().as_bytes());
        let timestamp = to_decimal(payload.timestamp);
        append_bytes(&mut key, timestamp.as_slice());
        let sum = calculate_checksum(key.as_slice());
        let prefix = self.calculate_namespace();
        let address = prefix.concat(sum.as_str().substring_ascii(0, KEY_LENGTH));
        address
    }
}

/// Two payloads of one agent, type and timestamp have one address, whatever
/// their messages are.
pub proof fn lemma_address_ignores_message(name: Seq<char>, first: PayloadView, second: PayloadView)
    requires
        first.agent_id == second.agent_id,
        first.message_type == second.message_type,
        first.timestamp == second.timestamp,
    ensures
        state_address(name, first) == state_address(name, second),
{
}

/// Two families of one name have one namespace, whatever their versions are.
pub proof fn lemma_namespace_ignores_versions(first: FamilyView, second: FamilyView)
    requires
        first.name == second.name,
    ensures
        namespace(first.name) == namespace(second.name),
{
}

} // verus!
