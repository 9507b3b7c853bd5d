//! Listing the messages that a validator's state holds.

use crate::command::{payload_explanation, Error};
use crate::payloads::{ErrorView, Format, PayloadView, TransactionPayload};
use crate::sawtooth::messages::StateEntry;
use crate::text::starts_with;
use vstd::prelude::*;

verus! {

/// Whether `entry` belongs to the family whose addresses begin with
/// `namespace`.
pub open spec fn in_namespace(entry: StateEntry, namespace: Seq<char>) -> bool {
    namespace.is_prefix_of(entry.address@)
}

/// The payloads that the entries of one namespace hold, in the order of the
/// entries, read in `format`. Entries of other namespaces are passed over.
/// The first entry that cannot be read decides: its error is the result.
pub open spec fn entry_payloads<F: Format + ?Sized>(
    entries: Seq<StateEntry>,
    namespace: Seq<char>,
    format: &F,
) -> Result<Seq<PayloadView>, ErrorView>
    decreases entries.len(),
{
    if entries.len() == 0 {
        Ok(Seq::empty())
    } else {
        match entry_payloads(entries.drop_last(), namespace, format) {
            Err(error) => Err(error),
            Ok(before) => {
                if in_namespace(entries.last(), namespace) {
                    match format.deserialized(entries.last().data@) {
                        Ok(payload) => Ok(before.push(payload)),
                        Err(error) => Err(error),
                    }
                } else {
                    Ok(before)
                }
            },
        }
    }
}

/// Reads the payloads that the entries of `namespace` hold. An entry that
/// cannot be read ends the work: the command fails with what the format says
/// of it.
pub fn read_entries<F: Format + ?Sized>(
    entries: &Vec<StateEntry>,
    namespace: &str,
    payload_format: &F,
) -> (outcome: Result<Vec<TransactionPayload>, Error>)
    ensures
        match entry_payloads(entries@, namespace@, payload_format) {
            Ok(payloads) => outcome matches Ok(read) && read.deep_view() == payloads,
            Err(error) => outcome matches Err(failure) && failure.message() == payload_explanation(
                error,
            ),
        },
{
    let mut payloads: Vec<TransactionPayload> = Vec::new();
    let mut i: usize = 0;
    assert(payloads.deep_view() =~= Seq::<PayloadView>::empty());
    while i < entries.len()
        invariant
            0 <= i <= entries@.len(),
            entry_payloads(entries@.take(i as int), namespace@, payload_format) == Ok::<
                Seq<PayloadView>,
                ErrorView,
            >(payloads.deep_view()),
        decreases entries@.len() - i,
    {
        let ghost shorter = entries@.take(i as int);
        let ghost longer = entries@.take(i + 1);
        assert(longer.drop_last() =~= shorter);
        if starts_with(entries[i].address.as_str(), namespace) {
            match payload_format.deserialize(entries[i].data.as_slice()) {
                Ok(payload) => {
                    let ghost before = payloads.deep_view();
                    payloads.push(payload);
                    assert(payloads.deep_view() =~= before.push(payload@));
                },
                Err(error) => {
                    proof {
                        lemma_first_failure(entries@, namespace@, payload_format, i + 1);
                    }
                    return Err(Error::from(error));
                },
            }
        }
        i += 1;
    }
    assert(entries@.take(i as int) =~= entries@);
    Ok(payloads)
}

/// Once a part of the entries cannot be read, the whole cannot, and for the
/// same reason.
proof fn lemma_first_failure<F: Format + ?Sized>(
    entries: Seq<StateEntry>,
    namespace: Seq<char>,
    format: &F,
    k: int,
)
    requires
        0 <= k <= entries.len(),
        entry_payloads(entries.take(k), namespace, format) is Err,
    ensures
        entry_payloads(entries, namespace, format) == entry_payloads(
            entries.take(k),
            namespace,
            format,
        ),
    decreases entries.len(),
{
    if k == entries.len() {
        assert(entries.take(k) =~= entries);
    } else {
        assert(entries.drop_last().take(k) =~= entries.take(k));
        lemma_first_failure(entries.drop_last(), namespace, format, k);
    }
}

} // verus!
