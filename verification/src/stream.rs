//! Batches from a stream: reading what an item carries, and telling the
//! stream which items of a batch are to come again.

use crate::text::{decoded, text_from_utf8};
use vstd::prelude::*;

verus! {

/// One item of a batch, as the stream delivers it.
#[derive(Debug)]
pub struct StreamRecord {
    /// The identifier that the stream gave the item.
    pub sequence_number: String,
    /// What the item carries.
    pub data: Vec<u8>,
}

/// How the processing of one item of a batch ended.
#[derive(Debug)]
pub struct ItemOutcome {
    /// The identifier that the stream gave the item.
    pub item_identifier: String,
    /// Whether the item is to be delivered again.
    pub failed: bool,
}

/// An item that the stream is to deliver again.
#[derive(Debug)]
pub struct BatchItemFailure {
    pub item_identifier: String,
}

/// Mathematical model of an [`ItemOutcome`].
pub struct ItemOutcomeModel {
    pub item_identifier: Seq<char>,
    pub failed: bool,
}

impl View for ItemOutcome {
    type V = ItemOutcomeModel;

    open spec fn view(&self) -> ItemOutcomeModel {
        ItemOutcomeModel { item_identifier: self.item_identifier@, failed: self.failed }
    }
}

impl View for BatchItemFailure {
    type V = Seq<char>;

    open spec fn view(&self) -> Seq<char> {
        self.item_identifier@
    }
}

/// The identifier of an item, if the item failed.
pub open spec fn failure_of(outcome: ItemOutcome) -> Option<Seq<char>> {
    if outcome.failed {
        Some(outcome.item_identifier@)
    } else {
        None
    }
}

/// The identifiers of the failed items of a batch, in the order of the
/// batch.
pub open spec fn failed_identifiers(outcomes: Seq<ItemOutcome>) -> Seq<Seq<char>> {
    outcomes.filter_map(|outcome: ItemOutcome| failure_of(outcome))
}

/// The identifiers that a report names, in order.
pub open spec fn reported_identifiers(failures: Seq<BatchItemFailure>) -> Seq<Seq<char>> {
    failures.map_values(|failure: BatchItemFailure| failure@)
}

/// The model of what reading an item gives.
pub open spec fn read_model(result: Result<String, String>) -> Result<Seq<char>, Seq<char>> {
    match result {
        Ok(text) => Ok(text@),
        Err(reason) => Err(reason@),
    }
}

impl StreamRecord {
    /// Reads what the item carries as UTF-8 text. An item that is not text
    /// has failed, for the reason that is given in place of the text.
    pub fn text(self) -> (result: Result<String, String>)
        ensures
            read_model(result) == decoded(self.data@),
    {
        text_from_utf8(self.data)
    }
}

impl ItemOutcome {
    /// The outcome of an item that went through.
    pub fn processed(item_identifier: String) -> (outcome: ItemOutcome)
        ensures
            outcome@ == (ItemOutcomeModel { item_identifier: item_identifier@, failed: false }),
    {
        ItemOutcome { item_identifier, failed: false }
    }

    /// The outcome of an item that did not go through.
    pub fn failed(item_identifier: String) -> (outcome: ItemOutcome)
        ensures
            outcome@ == (ItemOutcomeModel { item_identifier: item_identifier@, failed: true }),
    {
        ItemOutcome { item_identifier, failed: true }
    }
}

/// Reports a batch to the stream: names each failed item, in the order of
/// the batch, and no other. What is not named counts as processed, so that
/// one failed item holds back neither the items before it nor those after.
pub fn batch_item_failures(outcomes: &Vec<ItemOutcome>) -> (failures: Vec<BatchItemFailure>)
    ensures
        reported_identifiers(failures@) == failed_identifiers(outcomes@),
        failures@.len() == failed_identifiers(outcomes@).len(),
        forall|i: int|
            0 <= i < failures@.len() ==> (#[trigger] failures@[i])@ == failed_identifiers(
                outcomes@,
            )[i],
{
    let ghost pick = |outcome: ItemOutcome| failure_of(outcome);
    let mut failures: Vec<BatchItemFailure> = Vec::new();
    let mut i: usize = 0;
    assert(outcomes@.take(0).filter_map(pick) =~= Seq::empty());
    assert(reported_identifiers(failures@) =~= Seq::empty());
    while i < outcomes.len()
        invariant
            i <= outcomes@.len(),
            pick == |outcome: ItemOutcome| failure_of(outcome),
            reported_identifiers(failures@) == outcomes@.take(i as int).filter_map(pick),
        decreases outcomes.len() - i,
    {
        proof {
            outcomes@.lemma_filter_map_take_succ(pick, i as int);
        }
        if outcomes[i].failed {
            let ghost before = reported_identifiers(failures@);
            failures.push(BatchItemFailure { item_identifier: outcomes[i].item_identifier.clone() });
            assert(reported_identifiers(failures@) =~= before + seq![
                outcomes@[i as int].item_identifier@,
            ]);
        }
        i += 1;
    }
    assert(outcomes@.take(i as int) =~= outcomes@);
    assert forall|k: int| 0 <= k < failures@.len() implies (#[trigger] failures@[k])@
        == failed_identifiers(outcomes@)[k] by {
        assert(reported_identifiers(failures@)[k] == failures@[k]@);
    }
    failures
}

/// Each item is judged alone: what is reported of a batch is what is
/// reported of its first part, followed by what is reported of its second
/// part. So a failed item neither holds back nor drags along the items
/// before and after it.
pub proof fn lemma_items_are_judged_alone(first: Seq<ItemOutcome>, second: Seq<ItemOutcome>)
    ensures
        failed_identifiers(first + second) == failed_identifiers(first) + failed_identifiers(
            second,
        ),
    decreases second.len(),
{
    if second.len() == 0 {
        assert(first + second =~= first);
        assert(failed_identifiers(second) =~= Seq::empty());
    } else {
        lemma_items_are_judged_alone(first, second.drop_last());
        assert((first + second).drop_last() =~= first + second.drop_last());
        assert((first + second).last() == second.last());
    }
}

/// Of a single item exactly this is reported: its identifier where it
/// failed, and nothing where it went through.
pub proof fn lemma_single_item(outcome: ItemOutcome)
    ensures
        failed_identifiers(seq![outcome]) == if outcome.failed {
            seq![outcome.item_identifier@]
        } else {
            Seq::<Seq<char>>::empty()
        },
{
    Seq::lemma_filter_map_singleton(outcome, |outcome: ItemOutcome| failure_of(outcome));
}

/// The report names the failed items, each as often as it failed, in the
/// order of the batch, and no item that went through: around any item of
/// the batch, the report is what is reported of the items before it, then
/// the item's own identifier if it failed, then what is reported of the
/// items after it.
pub proof fn lemma_report_is_exact(outcomes: Seq<ItemOutcome>, at: int)
    requires
        0 <= at < outcomes.len(),
    ensures
        failed_identifiers(outcomes) == failed_identifiers(outcomes.take(at)) + (if outcomes[at].failed {
            seq![outcomes[at].item_identifier@]
        } else {
            Seq::<Seq<char>>::empty()
        }) + failed_identifiers(outcomes.skip(at + 1)),
{
    let before = outcomes.take(at);
    let after = outcomes.skip(at + 1);
    assert(outcomes =~= before + seq![outcomes[at]] + after);
    lemma_items_are_judged_alone(before + seq![outcomes[at]], after);
    lemma_items_are_judged_alone(before, seq![outcomes[at]]);
    lemma_single_item(outcomes[at]);
}

} // verus!
