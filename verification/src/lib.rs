//! Client-side engine for recording messages on a Sawtooth ledger: content
//! addresses, transaction and batch envelopes, and the request/reply protocol
//! with a validator.

pub mod alica;
pub mod command;
pub mod commands;
pub mod communication;
pub mod decimal;
pub mod family;
pub mod filter;
pub mod helper;
pub mod payloads;
pub mod sawtooth;
pub mod text;

use crate::decimal::{parse_u64, parsed_u64};
use crate::filter::{AgentIdFilter, MessageTypeFilter, PayloadFilter};
use crate::payloads::{PayloadView, TransactionPayload};
use crate::text::{find_char, position, same_text};
use vstd::prelude::*;
use vstd::string::{StrSliceExecFns, StringSliceAdditionalSpecFns};

verus! {

/// The message that a user asks to record, from the four texts that the
/// user gave. The timestamp has to be an unsigned 64-bit number in decimal:
/// a text that `decimal::parse_u64` does not read is no timestamp, and the
/// caller has to turn it away before it asks for the message.
pub fn create_alica_message(agent_id: &str, message_type: &str, message: &str, timestamp: &str) -> (payload:
    TransactionPayload)
    requires
        parsed_u64(timestamp.spec_bytes()) is Some,
    ensures
        payload@ == (PayloadView {
            agent_id: agent_id@,
            message_type: message_type@,
            message_bytes: message.spec_bytes(),
            timestamp: parsed_u64(timestamp.spec_bytes())->Some_0,
        }),
{
    let number = parse_u64(timestamp.as_bytes()).unwrap();
    TransactionPayload::new(agent_id, message_type, message.as_bytes(), number)
}

/// Whether a filter condition has a value: whether it holds a `=`.
pub open spec fn has_value(condition: Seq<char>) -> bool {
    position(condition, '=', 0) < condition.len()
}

/// Key and value of a filter condition `KEY=VALUE`: the key is what stands
/// before the first `=`, the value what stands between it and the next `=`,
/// or the end.
pub open spec fn dissected(condition: Seq<char>) -> (Seq<char>, Seq<char>) {
    let first = position(condition, '=', 0);
    let second = position(condition, '=', first + 1);
    (condition.subrange(0, first), condition.subrange(first + 1, second))
}

/// Whether a filter condition has a value.
pub fn has_filter_value(condition: &str) -> (found: bool)
    ensures
        found == has_value(condition@),
{
    find_char(condition, '=', 0) < condition.unicode_len()
}

/// Key and value of a filter condition `KEY=VALUE`. A condition without `=`
/// has no value and cannot be dissected: the caller has to turn it away
/// first, see `has_filter_value`.
pub fn dissect_filter_condition(condition: &str) -> (parts: (String, String))
    requires
        has_value(condition@),
    ensures
        parts.0@ == dissected(condition@).0,
        parts.1@ == dissected(condition@).1,
{
    let length = condition.unicode_len();
    let first = find_char(condition, '=', 0);
    assert(first < length);
    let second = find_char(condition, '=', first + 1);
    let key = condition.substring_char(0, first).to_owned();
    let value = condition.substring_char(first + 1, second).to_owned();
    (key, value)
}

/// Whether `key` names a filter: `agent_id` and `message_type` do, and no
/// other key does.
pub open spec fn names_filter(key: Seq<char>) -> bool {
    key == "agent_id"@ || key == "message_type"@
}

/// Whether `filter` is the filter that a condition with `key` and `value`
/// asks for: by agent for the key `agent_id`, by message type for the key
/// `message_type`.
pub open spec fn determined(filter: PayloadFilter, key: Seq<char>, value: Seq<char>) -> bool {
    if key == "agent_id"@ {
        filter matches PayloadFilter::AgentId(by_agent) && by_agent.required_id() == value
    } else {
        key == "message_type"@ && (filter matches PayloadFilter::MessageType(by_type)
            && by_type.required_message_type() == value)
    }
}

/// Whether `key` names a filter.
pub fn is_filter_key(key: &str) -> (named: bool)
    ensures
        named == names_filter(key@),
{
    same_text(key, "agent_id") || same_text(key, "message_type")
}

/// The filter that a condition with `key` and `value` asks for. A key that
/// names no filter cannot be served: the caller has to turn it away first,
/// see `is_filter_key`.
pub fn determine_filter(key: &str, value: &str) -> (filter: PayloadFilter)
    requires
        names_filter(key@),
    ensures
        determined(filter, key@, value@),
{
    if same_text(key, "agent_id") {
        PayloadFilter::AgentId(AgentIdFilter::new(value))
    } else {
        PayloadFilter::MessageType(MessageTypeFilter::new(value))
    }
}

/// Why a filter condition names no filter.
#[derive(Debug, Clone, PartialEq, Eq)]
pub enum FilterError {
    /// The condition has no `=`, and so no value.
    MissingValue,
    /// The condition's key, which this error carries, names no filter.
    InvalidFilter(String),
}

/// A filter error as plain values.
pub enum FilterErrorView {
    MissingValue,
    InvalidFilter(Seq<char>),
}

impl View for FilterError {
    type V = FilterErrorView;

    open spec fn view(&self) -> FilterErrorView {
        match self {
            FilterError::MissingValue => FilterErrorView::MissingValue,
            FilterError::InvalidFilter(key) => FilterErrorView::InvalidFilter(key@),
        }
    }
}

/// What is wrong with `condition`, if anything is.
pub open spec fn flaw(condition: Seq<char>) -> Option<FilterErrorView> {
    if !has_value(condition) {
        Some(FilterErrorView::MissingValue)
    } else if !names_filter(dissected(condition).0) {
        Some(FilterErrorView::InvalidFilter(dissected(condition).0))
    } else {
        None
    }
}

/// What is wrong with the first of `conditions` that names no filter.
pub open spec fn first_flaw(conditions: Seq<String>) -> Option<FilterErrorView>
    decreases conditions.len(),
{
    if conditions.len() == 0 {
        None
    } else if flaw(conditions[0]@) is Some {
        flaw(conditions[0]@)
    } else {
        first_flaw(conditions.drop_first())
    }
}

/// Whether `filter` is the filter that `condition` asks for.
pub open spec fn asked_for(filter: PayloadFilter, condition: Seq<char>) -> bool {
    &&& has_value(condition)
    &&& determined(filter, dissected(condition).0, dissected(condition).1)
}

/// The filters that `conditions` ask for, one for each condition and in
/// their order. The first condition that names no filter ends the work: it
/// is turned away with what is wrong with it, and the caller decides whether
/// to stop there.
pub fn create_filters(conditions: &Vec<String>) -> (outcome: Result<Vec<PayloadFilter>, FilterError>)
    ensures
        match first_flaw(conditions@) {
            Some(flaw) => outcome matches Err(error) && error@ == flaw,
            None => outcome matches Ok(filters) && filters@.len() == conditions@.len()
                && forall|i: int|
                0 <= i < filters@.len() ==> #[trigger] asked_for(filters@[i], conditions@[i]@),
        },
{
    let mut filters: Vec<PayloadFilter> = Vec::new();
    let mut i: usize = 0;
    assert(conditions@.skip(0) =~= conditions@);
    while i < conditions.len()
        invariant
            0 <= i <= conditions@.len(),
            filters@.len() == i,
            first_flaw(conditions@) == first_flaw(conditions@.skip(i as int)),
            forall|j: int| 0 <= j < i ==> #[trigger] asked_for(filters@[j], conditions@[j]@),
        decreases conditions@.len() - i,
    {
        let ghost rest = conditions@.skip(i as int);
        assert(rest.drop_first() =~= conditions@.skip(i + 1));
        if !has_filter_value(conditions[i].as_str()) {
            return Err(FilterError::MissingValue);
        }
        let (key, value) = dissect_filter_condition(conditions[i].as_str());
        if !is_filter_key(key.as_str()) {
            return Err(FilterError::InvalidFilter(key));
        }
        filters.push(determine_filter(key.as_str(), value.as_str()));
        i += 1;
    }
    Ok(filters)
}

} // verus!
