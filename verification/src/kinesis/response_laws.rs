//! What holds of what a shard consumer makes of a response.

use vstd::prelude::*;

use crate::kinesis::message::ShardConsumerMessageView;
use crate::kinesis::response::{ChildShardView, GetRecordsResponseView};
use crate::kinesis::shard_consumer::ShardConsumerView;

verus! {

/// Whether a response brings a child whose first parent is the shard.
pub open spec fn brings_child_of(response: GetRecordsResponseView, shard_id: Seq<char>) -> bool {
    response.child_shards matches Some(children) && exists|i: int|
        0 <= i < children.len() && (#[trigger] children[i]).parent_shards.len() > 0
            && children[i].parent_shards[0] == shard_id
}

/// A consumer announces the children whose first parent is its shard, and no others.
pub proof fn law_children_of_the_shard_are_announced(
    consumer: ShardConsumerView,
    children: Seq<ChildShardView>,
    shard_id: Seq<char>,
)
    ensures
        consumer.announced(children).contains(shard_id) <==> exists|i: int|
            0 <= i < children.len() && (#[trigger] children[i]).parent_shards.len() > 0
                && children[i].parent_shards[0] == consumer.shard_id && children[i].shard_id
                == shard_id,
{
    let keep = |child: ChildShardView| consumer.announces(child);
    let kept = children.filter(keep);
    let announced = consumer.announced(children);
    if announced.contains(shard_id) {
        let k = choose|k: int| 0 <= k < announced.len() && announced[k] == shard_id;
        children.lemma_filter_pred(keep, k);
        children.lemma_filter_contains_rev(keep, kept[k]);
        let i = choose|i: int| 0 <= i < children.len() && children[i] == kept[k];
        assert(consumer.announces(children[i]) && children[i].shard_id == shard_id);
    }
    if exists|i: int|
        0 <= i < children.len() && (#[trigger] children[i]).parent_shards.len() > 0
            && children[i].parent_shards[0] == consumer.shard_id && children[i].shard_id
            == shard_id {
        let i = choose|i: int|
            0 <= i < children.len() && (#[trigger] children[i]).parent_shards.len() > 0
                && children[i].parent_shards[0] == consumer.shard_id && children[i].shard_id
                == shard_id;
        children.lemma_filter_contains(keep, i);
        let k = choose|k: int| 0 <= k < kept.len() && kept[k] == children[i];
        assert(announced[k] == shard_id);
    }
}

/// A child is announced once, also when two shards were merged into it: no consumer repeats it,
/// and the consumers of two shards never announce the same child.
pub proof fn law_child_is_announced_once(
    consumer: ShardConsumerView,
    other: ShardConsumerView,
    children: Seq<ChildShardView>,
)
    requires
        forall|i: int, j: int|
            0 <= i < j < children.len() ==> (#[trigger] children[i]).shard_id != (
            #[trigger] children[j]).shard_id,
    ensures
        consumer.announced(children).no_duplicates(),
        consumer.shard_id != other.shard_id ==> forall|shard_id: Seq<char>|
            !(#[trigger] consumer.announced(children).contains(shard_id) && other.announced(
                children,
            ).contains(shard_id)),
{
    lemma_announced_without_duplicates(consumer, children);
    if consumer.shard_id != other.shard_id {
        assert forall|shard_id: Seq<char>|
            !(#[trigger] consumer.announced(children).contains(shard_id) && other.announced(
                children,
            ).contains(shard_id)) by {
            law_children_of_the_shard_are_announced(consumer, children, shard_id);
            law_children_of_the_shard_are_announced(other, children, shard_id);
        }
    }
}

/// The announced children are as different as the children.
proof fn lemma_announced_without_duplicates(
    consumer: ShardConsumerView,
    children: Seq<ChildShardView>,
)
    requires
        forall|i: int, j: int|
            0 <= i < j < children.len() ==> (#[trigger] children[i]).shard_id != (
            #[trigger] children[j]).shard_id,
    ensures
        consumer.announced(children).no_duplicates(),
    decreases children.len(),
{
    reveal(Seq::filter);
    if children.len() > 0 {
        let rest = children.drop_last();
        let child = children.last();
        let keep = |child: ChildShardView| consumer.announces(child);
        lemma_announced_without_duplicates(consumer, rest);
        law_children_of_the_shard_are_announced(consumer, rest, child.shard_id);
        assert(!consumer.announced(rest).contains(child.shard_id));
        if consumer.announces(child) {
            assert(consumer.announced(children) =~= consumer.announced(rest).push(child.shard_id));
        } else {
            assert(children.filter(keep) == rest.filter(keep));
        }
    }
}

/// The announced children keep the order of the children: one more child adds its id at the end
/// where its first parent is the shard, and nothing otherwise. Nothing is announced of no child.
pub proof fn law_children_are_announced_in_order(
    consumer: ShardConsumerView,
    children: Seq<ChildShardView>,
    child: ChildShardView,
)
    ensures
        consumer.announced(seq![]) == Seq::<Seq<char>>::empty(),
        child.parent_shards.len() > 0 && child.parent_shards[0] == consumer.shard_id
            ==> consumer.announced(children.push(child)) == consumer.announced(children).push(
            child.shard_id,
        ),
        child.parent_shards.len() == 0 || child.parent_shards[0] != consumer.shard_id
            ==> consumer.announced(children.push(child)) == consumer.announced(children),
{
    reveal(Seq::filter);
    let keep = |child: ChildShardView| consumer.announces(child);
    assert(children.push(child).drop_last() =~= children);
    assert(consumer.announced(seq![]) =~= Seq::<Seq<char>>::empty());
    if keep(child) {
        assert(consumer.announced(children.push(child)) =~= consumer.announced(children).push(
            child.shard_id,
        ));
    }
}

/// A response has children to announce just when it brings a child of the shard.
pub(crate) proof fn lemma_brings_child_of(consumer: ShardConsumerView, response: GetRecordsResponseView)
    ensures
        brings_child_of(response, consumer.shard_id) <==> response.child_shards is Some
            && consumer.announced(response.child_shards->0).len() > 0,
{
    if response.child_shards is Some {
        let children = response.child_shards->0;
        let announced = consumer.announced(children);
        if announced.len() > 0 {
            assert(announced.contains(announced[0]));
            law_children_of_the_shard_are_announced(consumer, children, announced[0]);
        }
        if brings_child_of(response, consumer.shard_id) {
            let i = choose|i: int|
                0 <= i < children.len() && (#[trigger] children[i]).parent_shards.len() > 0
                    && children[i].parent_shards[0] == consumer.shard_id;
            law_children_of_the_shard_are_announced(consumer, children, children[i].shard_id);
            assert(announced.contains(children[i].shard_id));
        }
    }
}

/// The records of a response come first, in one message with the id of the shard and the lag of
/// the response. A response without records gives rise to no such message.
pub proof fn law_records_come_first(consumer: ShardConsumerView, response: GetRecordsResponseView)
    ensures
        response.records.len() > 0 ==> {
            &&& consumer.messages(response).len() > 0
            &&& consumer.messages(response)[0] == (ShardConsumerMessageView::Records {
                shard_id: consumer.shard_id,
                records: response.records,
                lag_millis: response.millis_behind_latest,
            })
        },
        forall|i: int|
            0 <= i < consumer.messages(response).len() && #[trigger] consumer.messages(response)[i]
                is Records ==> i == 0 && response.records.len() > 0,
{
}

/// The children of the shard come behind the records, in one message. A response without a child
/// of the shard gives rise to no such message.
pub proof fn law_new_shards_come_second(
    consumer: ShardConsumerView,
    response: GetRecordsResponseView,
)
    ensures
        ({
            let messages = consumer.messages(response);
            let place: int = if response.records.len() > 0 {
                1
            } else {
                0
            };
            &&& brings_child_of(response, consumer.shard_id) ==> {
                &&& messages.len() > place
                &&& messages[place] == ShardConsumerMessageView::NewShards(
                    consumer.announced(response.child_shards->0),
                )
            }
            &&& forall|i: int|
                0 <= i < messages.len() && #[trigger] messages[i] is NewShards ==> i == place
                    && brings_child_of(response, consumer.shard_id)
        }),
{
    lemma_brings_child_of(consumer, response);
}

/// At the tip of the shard, a consumer that is to stop there says so last, and does not read on,
/// whatever else the response holds.
pub proof fn law_tip_is_the_end(consumer: ShardConsumerView, response: GetRecordsResponseView)
    requires
        consumer.eof_enabled,
        response.millis_behind_latest == Some(0i64),
    ensures
        consumer.messages(response).len() > 0,
        consumer.messages(response).last() == ShardConsumerMessageView::ShardEOF(consumer.shard_id),
        forall|i: int|
            0 <= i < consumer.messages(response).len() ==> #[trigger] consumer.messages(response)[i]
                !is ShardClosed,
        consumer.next_shard_iterator(response) is None,
{
}

/// Elsewhere the shard is read on from the iterator of the response. Where there is none, the
/// consumer says last that the shard is closed; where there is one, it says nothing of an end.
pub proof fn law_iterator_is_followed(consumer: ShardConsumerView, response: GetRecordsResponseView)
    requires
        !consumer.eof_enabled || response.millis_behind_latest != Some(0i64),
    ensures
        consumer.next_shard_iterator(response) == response.next_shard_iterator,
        response.next_shard_iterator is None ==> {
            &&& consumer.messages(response).len() > 0
            &&& consumer.messages(response).last() == ShardConsumerMessageView::ShardClosed(
                consumer.shard_id,
            )
        },
        forall|i: int|
            0 <= i < consumer.messages(response).len() ==> {
                &&& #[trigger] consumer.messages(response)[i] !is ShardEOF
                &&& response.next_shard_iterator is Some ==> consumer.messages(response)[i]
                    !is ShardClosed
            },
{
}

/// A response gives rise to a message for its records, one for its children and one for the end
/// of the shard, as far as there are any, and to no more.
pub proof fn law_response_has_three_messages_at_most(
    consumer: ShardConsumerView,
    response: GetRecordsResponseView,
)
    ensures
        consumer.messages(response).len() == (if response.records.len() > 0 {
            1int
        } else {
            0
        }) + (if brings_child_of(response, consumer.shard_id) {
            1int
        } else {
            0
        }) + (if consumer.eof_enabled && response.millis_behind_latest == Some(0i64)
            || response.next_shard_iterator is None {
            1int
        } else {
            0
        }),
{
    lemma_brings_child_of(consumer, response);
}

} // verus!
