//! Filters that keep the payloads of one agent or of one message type.

use crate::payloads::{PayloadView, TransactionPayload};
use vstd::prelude::*;

verus! {

/// A rule that keeps some payloads of a list and drops the others.
pub trait TransactionPayloadFilter {
    /// Whether the filter keeps `payload`.
    spec fn retains(&self, payload: PayloadView) -> bool;

    /// Drops from `payloads` what the filter does not keep. What stays keeps
    /// its order.
    fn filter(&self, payloads: &mut Vec<TransactionPayload>)
        ensures
            final(payloads)@ == retained(
                |payload: PayloadView| self.retains(payload),
                old(payloads)@,
            ),
    ;
}

/// The payloads of `payloads` for which `keep` holds, in their order.
pub open spec fn retained(
    keep: spec_fn(PayloadView) -> bool,
    payloads: Seq<TransactionPayload>,
) -> Seq<TransactionPayload>
    decreases payloads.len(),
{
    if payloads.len() == 0 {
        Seq::empty()
    } else {
        let before = retained(keep, payloads.drop_last());
        if keep(payloads.last()@) {
            before.push(payloads.last())
        } else {
            before
        }
    }
}

/// What is left of `payloads` after each of `filters` was applied in turn.
pub open spec fn filtered<F: TransactionPayloadFilter>(
    filters: Seq<F>,
    payloads: Seq<TransactionPayload>,
) -> Seq<TransactionPayload>
    decreases filters.len(),
{
    if filters.len() == 0 {
        payloads
    } else {
        retained(
            |payload: PayloadView| filters.last().retains(payload),
            filtered(filters.drop_last(), payloads),
        )
    }
}

/// A field of a payload that holds text.
#[derive(Clone, Copy, PartialEq, Eq, Structural)]
enum TextField {
    AgentId,
    MessageType,
}

/// The text that `payload` holds in `field`.
spec fn field_text(payload: PayloadView, field: TextField) -> Seq<char> {
    match field {
        TextField::AgentId => payload.agent_id,
        TextField::MessageType => payload.message_type,
    }
}

/// The payloads of `payloads` that hold `wanted` in `field`, in their order.
spec fn matching(payloads: Seq<TransactionPayload>, field: TextField, wanted: Seq<char>) -> Seq<
    TransactionPayload,
> {
    retained(|payload: PayloadView| field_text(payload, field) == wanted, payloads)
}

/// Two rules that keep the same payloads leave the same list.
proof fn lemma_retained_same(
    first: spec_fn(PayloadView) -> bool,
    second: spec_fn(PayloadView) -> bool,
    payloads: Seq<TransactionPayload>,
)
    requires
        forall|payload: PayloadView| #[trigger] first(payload) == second(payload),
    ensures
        retained(first, payloads) == retained(second, payloads),
    decreases payloads.len(),
{
    if payloads.len() > 0 {
        lemma_retained_same(first, second, payloads.drop_last());
    }
}

/// Removes from `payloads` every payload that does not hold `wanted` in
/// `field`.
fn retain_matching(payloads: &mut Vec<TransactionPayload>, field: TextField, wanted: &String)
    ensures
        final(payloads)@ == matching(old(payloads)@, field, wanted@),
{
    let ghost given = payloads@;
    let ghost keep = |payload: PayloadView| field_text(payload, field) == wanted@;
    let ghost mut seen: int = 0;
    let mut i: usize = 0;
    while i < payloads.len()
        invariant
            0 <= i <= payloads@.len(),
            0 <= seen <= given.len(),
            payloads@.len() - i == given.len() - seen,
            keep == |payload: PayloadView| field_text(payload, field) == wanted@,
            payloads@.take(i as int) == retained(keep, given.take(seen)),
            forall|j: int|
                i <= j < payloads@.len() ==> #[trigger] payloads@[j] == given[j + seen - i],
        decreases payloads@.len() - i,
    {
        assert(given.take(seen + 1).drop_last() =~= given.take(seen));
        let keeps = match field {
            TextField::AgentId => payloads[i].agent_id == *wanted,
            TextField::MessageType => payloads[i].message_type == *wanted,
        };
        if keeps {
            i += 1;
        } else {
            payloads.remove(i);
            assert(forall|j: int|
                i <= j < payloads@.len() ==> #[trigger] payloads@[j] == given[j + seen + 1 - i]);
        }
        proof {
            seen = seen + 1;
        }
    }
    assert(given.take(seen) =~= given);
}

/// Keeps the payloads of one agent.
pub struct AgentIdFilter {
    required_id: String,
}

impl AgentIdFilter {
    /// The filter that keeps the payloads of the agent `id`.
    pub fn new(id: &str) -> (filter: Self)
        ensures
            filter.required_id() == id@,
    {
        AgentIdFilter { required_id: id.to_owned() }
    }

    /// The agent whose payloads the filter keeps.
    pub closed spec fn required_id(&self) -> Seq<char> {
        self.required_id@
    }
}

impl TransactionPayloadFilter for AgentIdFilter {
    open spec fn retains(&self, payload: PayloadView) -> bool {
        payload.agent_id == self.required_id()
    }

    fn filter(&self, payloads: &mut Vec<TransactionPayload>) {
        proof {
            lemma_retained_same(
                |payload: PayloadView| self.retains(payload),
                |payload: PayloadView| field_text(payload, TextField::AgentId) == self.required_id@,
                payloads@,
            );
        }
        retain_matching(payloads, TextField::AgentId, &self.required_id)
    }
}

/// Keeps the payloads of one message type.
pub struct MessageTypeFilter {
    required_message_type: String,
}

impl MessageTypeFilter {
    /// The filter that keeps the payloads of the type `message_type`.
    pub fn new(message_type: &str) -> (filter: Self)
        ensures
            filter.required_message_type() == message_type@,
    {
        MessageTypeFilter { required_message_type: message_type.to_owned() }
    }

    /// The message type whose payloads the filter keeps.
    pub closed spec fn required_message_type(&self) -> Seq<char> {
        self.required_message_type@
    }
}

impl TransactionPayloadFilter for MessageTypeFilter {
    open spec fn retains(&self, payload: PayloadView) -> bool {
        payload.message_type == self.required_message_type()
    }

    fn filter(&self, payloads: &mut Vec<TransactionPayload>) {
        proof {
            lemma_retained_same(
                |payload: PayloadView| self.retains(payload),
                |payload: PayloadView|
                    field_text(payload, TextField::MessageType) == self.required_message_type@,
                payloads@,
            );
        }
        retain_matching(payloads, TextField::MessageType, &self.required_message_type)
    }
}

/// One of the filters of this library.
pub enum PayloadFilter {
    AgentId(AgentIdFilter),
    MessageType(MessageTypeFilter),
}

impl TransactionPayloadFilter for PayloadFilter {
    open spec fn retains(&self, payload: PayloadView) -> bool {
        match self {
            PayloadFilter::AgentId(by_agent) => by_agent.retains(payload),
            PayloadFilter::MessageType(by_type) => by_type.retains(payload),
        }
    }

    fn filter(&self, payloads: &mut Vec<TransactionPayload>) {
        proof {
            match self {
                PayloadFilter::AgentId(by_agent) => {
                    lemma_retained_same(
                        |payload: PayloadView| self.retains(payload),
                        |payload: PayloadView| by_agent.retains(payload),
                        payloads@,
                    );
                },
                PayloadFilter::MessageType(by_type) => {
                    lemma_retained_same(
                        |payload: PayloadView| self.retains(payload),
                        |payload: PayloadView| by_type.retains(payload),
                        payloads@,
                    );
                },
            }
        }
        match self {
            PayloadFilter::AgentId(by_agent) => by_agent.filter(payloads),
            PayloadFilter::MessageType(by_type) => by_type.filter(payloads),
        }
    }
}

/// Applies each of `filters` to `payloads`, in their order.
pub fn apply_filters<F: TransactionPayloadFilter>(
    filters: &Vec<F>,
    payloads: &mut Vec<TransactionPayload>,
)
    ensures
        final(payloads)@ == filtered(filters@, old(payloads)@),
{
    let mut i: usize = 0;
    while i < filters.len()
        invariant
            0 <= i <= filters@.len(),
            payloads@ == filtered(filters@.take(i as int), old(payloads)@),
        decreases filters@.len() - i,
    {
        assert(filters@.take(i + 1).drop_last() =~= filters@.take(i as int));
        filters[i].filter(payloads);
        i += 1;
    }
    assert(filters@.take(i as int) =~= filters@);
}

/// What a rule leaves is no longer than what it was given, and all of it is
/// kept by the rule; a list of which the rule keeps everything is left as it
/// is.
pub proof fn lemma_retained_keeps(keep: spec_fn(PayloadView) -> bool, payloads: Seq<TransactionPayload>)
    ensures
        retained(keep, payloads).len() <= payloads.len(),
        (forall|i: int| 0 <= i < payloads.len() ==> keep(#[trigger] payloads[i]@)) ==> retained(
            keep,
            payloads,
        ) == payloads,
        forall|i: int|
            0 <= i < retained(keep, payloads).len() ==> keep(#[trigger] retained(keep, payloads)[i]@),
    decreases payloads.len(),
{
    if payloads.len() > 0 {
        let shorter = payloads.drop_last();
        lemma_retained_keeps(keep, shorter);
        if forall|i: int| 0 <= i < payloads.len() ==> keep(#[trigger] payloads[i]@) {
        }
    }
}

} // verus!
