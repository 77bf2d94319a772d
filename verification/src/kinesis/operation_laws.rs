//! What holds of every call of the operations of a shard consumer, in terms of what goes into the
//! call and what comes out.

use vstd::prelude::*;

use crate::kinesis::message::{message_views, ShardConsumerMessage, ShardConsumerMessageView};
use crate::kinesis::response::{
    child_shard_views, string_views, ChildShard, ChildShardView, GetRecordsResponse,
};
use crate::kinesis::response_laws::{
    law_children_are_announced_in_order, law_children_of_the_shard_are_announced,
};
use crate::kinesis::run::{
    ShardConsumerAction, ShardConsumerEvent, ShardConsumerRun, ShardConsumerStateView,
};
use crate::kinesis::shard_consumer::{ShardConsumer, ShardConsumerView};

verus! {

/// A consumer keeps what it is made with.
pub proof fn law_consumer_keeps_what_it_is_made_with(
    stream_name: String,
    shard_id: String,
    starting_sequence_number: Option<String>,
    eof_enabled: bool,
    consumer: ShardConsumer,
)
    requires
        call_ensures(
            ShardConsumer::new,
            (stream_name, shard_id, starting_sequence_number, eof_enabled),
            consumer,
        ),
    ensures
        consumer@.stream_name == stream_name@,
        consumer@.shard_id == shard_id@,
        starting_sequence_number is Some <==> consumer@.starting_sequence_number is Some,
        starting_sequence_number is Some ==> consumer@.starting_sequence_number == Some(
            starting_sequence_number->0@,
        ),
        consumer@.eof_enabled == eof_enabled,
{
}

/// A run asks first for an iterator, on the stream and the shard of its consumer, and behind the
/// record behind which the consumer is to start.
pub proof fn law_run_asks_for_its_start<'a, E>(
    consumer: &'a ShardConsumer,
    started: (ShardConsumerRun<'a>, ShardConsumerAction<E>),
)
    requires
        call_ensures(ShardConsumer::run::<E>, (consumer,), started),
    ensures
        started.0@.consumer == consumer@,
        started.0@.state is AwaitingShardIterator,
        match started.1 {
            ShardConsumerAction::GetShardIterator {
                stream_name,
                shard_id,
                starting_sequence_number,
            } => {
                &&& stream_name@ == consumer@.stream_name
                &&& shard_id@ == consumer@.shard_id
                &&& match starting_sequence_number {
                    Some(sequence_number) => consumer@.starting_sequence_number == Some(
                        sequence_number@,
                    ),
                    None => consumer@.starting_sequence_number is None,
                }
            },
            _ => false,
        },
{
}

/// The children whose first parent is the shard are announced, and no others.
pub proof fn law_announced_shards_are_children_of_the_shard(
    consumer: &ShardConsumer,
    children: &Vec<ChildShard>,
    shard_ids: Vec<String>,
    shard_id: Seq<char>,
)
    requires
        call_ensures(ShardConsumer::announced_shards, (consumer, children), shard_ids),
    ensures
        (exists|k: int| 0 <= k < shard_ids@.len() && (#[trigger] shard_ids@[k])@ == shard_id) <==> (
        exists|i: int|
            0 <= i < children@.len() && (#[trigger] children@[i]).parent_shards@.len() > 0
                && children@[i].parent_shards@[0]@ == consumer@.shard_id && children@[i].shard_id@
                == shard_id),
{
    let views = child_shard_views(children@);
    let ids = string_views(shard_ids@);
    law_children_of_the_shard_are_announced(consumer@, views, shard_id);
    if exists|k: int| 0 <= k < shard_ids@.len() && (#[trigger] shard_ids@[k])@ == shard_id {
        let k = choose|k: int| 0 <= k < shard_ids@.len() && (#[trigger] shard_ids@[k])@ == shard_id;
        assert(ids[k] == shard_id);
        assert(ids.contains(shard_id));
        let i = choose|i: int|
            0 <= i < views.len() && (#[trigger] views[i]).parent_shards.len() > 0
                && views[i].parent_shards[0] == consumer@.shard_id && views[i].shard_id == shard_id;
        assert(children@[i].parent_shards@.len() > 0);
    }
    if exists|i: int|
        0 <= i < children@.len() && (#[trigger] children@[i]).parent_shards@.len() > 0
            && children@[i].parent_shards@[0]@ == consumer@.shard_id && children@[i].shard_id@
            == shard_id {
        let i = choose|i: int|
            0 <= i < children@.len() && (#[trigger] children@[i]).parent_shards@.len() > 0
                && children@[i].parent_shards@[0]@ == consumer@.shard_id && children@[i].shard_id@
                == shard_id;
        assert(views[i].parent_shards.len() > 0 && views[i].parent_shards[0] == consumer@.shard_id);
        assert(ids.contains(shard_id));
        let k = choose|k: int| 0 <= k < ids.len() && ids[k] == shard_id;
        assert(shard_ids@[k]@ == shard_id);
    }
}

/// The announced children keep the order of the children: of two calls, where the second has one
/// more child, the second gives what the first gives and, where the first parent of the child is
/// the shard, the id of the child behind it. Of no child nothing is announced.
pub proof fn law_announced_shards_keep_their_order(
    consumer: &ShardConsumer,
    children: &Vec<ChildShard>,
    shard_ids: Vec<String>,
    child: ChildShard,
    more_children: &Vec<ChildShard>,
    more_shard_ids: Vec<String>,
)
    requires
        call_ensures(ShardConsumer::announced_shards, (consumer, children), shard_ids),
        call_ensures(ShardConsumer::announced_shards, (consumer, more_children), more_shard_ids),
        more_children@ == children@.push(child),
    ensures
        children@.len() == 0 ==> shard_ids@.len() == 0,
        more_shard_ids@.len() == shard_ids@.len() + (if child.parent_shards@.len() > 0
            && child.parent_shards@[0]@ == consumer@.shard_id {
            1int
        } else {
            0
        }),
        forall|k: int|
            0 <= k < shard_ids@.len() ==> (#[trigger] more_shard_ids@[k])@ == shard_ids@[k]@,
        more_shard_ids@.len() > shard_ids@.len() ==> more_shard_ids@.last()@ == child.shard_id@,
{
    let views = child_shard_views(children@);
    let more_views = child_shard_views(more_children@);
    let ids = string_views(shard_ids@);
    let more_ids = string_views(more_shard_ids@);
    assert(more_views =~= views.push(child@));
    law_children_are_announced_in_order(consumer@, views, child@);
    if children@.len() == 0 {
        assert(views =~= seq![]);
        assert(ids.len() == shard_ids@.len());
    }
    assert(ids.len() == shard_ids@.len() && more_ids.len() == more_shard_ids@.len());
    assert forall|k: int| 0 <= k < shard_ids@.len() implies (#[trigger] more_shard_ids@[k])@
        == shard_ids@[k]@ by {
        assert(more_ids[k] == ids[k]);
    }
    if more_shard_ids@.len() > shard_ids@.len() {
        assert(more_ids.last() == child.shard_id@);
    }
}

/// The records of a response are handed on first, with the id of the shard and the lag of the
/// response, in one message.
pub proof fn law_records_are_handed_on_first(
    consumer: &ShardConsumer,
    response: GetRecordsResponse,
    handled: (Vec<ShardConsumerMessage>, Option<String>),
)
    requires
        call_ensures(ShardConsumer::handle_response, (consumer, response), handled),
    ensures
        response.records@.len() > 0 ==> handled.0@.len() > 0 && match handled.0@[0] {
            ShardConsumerMessage::Records { shard_id, records, lag_millis } => {
                &&& shard_id@ == consumer@.shard_id
                &&& records@ == response.records@
                &&& lag_millis == response.millis_behind_latest
            },
            _ => false,
        },
        forall|i: int|
            0 <= i < handled.0@.len() && #[trigger] handled.0@[i] is Records ==> i == 0
                && response.records@.len() > 0,
{
    lemma_handled(consumer, response, handled);
}

/// The messages that come out of a call have the contents of the messages owed to the response.
proof fn lemma_handled(
    consumer: &ShardConsumer,
    response: GetRecordsResponse,
    handled: (Vec<ShardConsumerMessage>, Option<String>),
)
    requires
        call_ensures(ShardConsumer::handle_response, (consumer, response), handled),
    ensures
        handled.0@.len() == consumer@.messages(response@).len(),
        forall|i: int|
            0 <= i < handled.0@.len() ==> (#[trigger] handled.0@[i])@ == consumer@.messages(
                response@,
            )[i],
{
    let views = message_views(handled.0@);
    assert(views.len() == handled.0@.len());
    assert forall|i: int| 0 <= i < handled.0@.len() implies (#[trigger] handled.0@[i])@
        == consumer@.messages(response@)[i] by {
        assert(views[i] == handled.0@[i]@);
    }
}

/// Behind the records come the announced children, in one message: those that a call of
/// `announced_shards` gives of the children of the response.
pub proof fn law_announced_shards_are_handed_on_second(
    consumer: &ShardConsumer,
    response: GetRecordsResponse,
    handled: (Vec<ShardConsumerMessage>, Option<String>),
    children: &Vec<ChildShard>,
    shard_ids: Vec<String>,
)
    requires
        call_ensures(ShardConsumer::handle_response, (consumer, response), handled),
        response.child_shards == Some(*children),
        call_ensures(ShardConsumer::announced_shards, (consumer, children), shard_ids),
    ensures
        ({
            let place: int = if response.records@.len() > 0 {
                1
            } else {
                0
            };
            &&& shard_ids@.len() > 0 ==> handled.0@.len() > place && match handled.0@[place] {
                ShardConsumerMessage::NewShards(new_shards) => {
                    &&& new_shards@.len() == shard_ids@.len()
                    &&& forall|k: int|
                        0 <= k < shard_ids@.len() ==> (#[trigger] new_shards@[k])@
                            == shard_ids@[k]@
                },
                _ => false,
            }
            &&& forall|i: int|
                0 <= i < handled.0@.len() && #[trigger] handled.0@[i] is NewShards ==> i == place
                    && shard_ids@.len() > 0
        }),
{
    lemma_handled(consumer, response, handled);
    let place: int = if response.records@.len() > 0 {
        1
    } else {
        0
    };
    let ids = string_views(shard_ids@);
    assert(ids.len() == shard_ids@.len());
    if shard_ids@.len() > 0 {
        assert(handled.0@[place]@ == ShardConsumerMessageView::NewShards(ids));
        if let ShardConsumerMessage::NewShards(new_shards) = handled.0@[place] {
            let new_ids = string_views(new_shards@);
            assert(new_ids == ids);
            assert(new_ids.len() == new_shards@.len());
            assert forall|k: int| 0 <= k < shard_ids@.len() implies (#[trigger] new_shards@[k])@
                == shard_ids@[k]@ by {
                assert(new_ids[k] == ids[k]);
            }
        }
    }
}

/// Where a response has no children, none are handed on.
pub proof fn law_no_children_are_made_up(
    consumer: &ShardConsumer,
    response: GetRecordsResponse,
    handled: (Vec<ShardConsumerMessage>, Option<String>),
    i: int,
)
    requires
        call_ensures(ShardConsumer::handle_response, (consumer, response), handled),
        response.child_shards is None,
        0 <= i < handled.0@.len(),
    ensures
        handled.0@[i] !is NewShards,
{
    lemma_handled(consumer, response, handled);
}

/// At the tip of the shard, a consumer that is to stop there says so last, and stops, whatever
/// else the response holds.
pub proof fn law_tip_is_reported_and_ends_the_reading(
    consumer: &ShardConsumer,
    response: GetRecordsResponse,
    handled: (Vec<ShardConsumerMessage>, Option<String>),
)
    requires
        call_ensures(ShardConsumer::handle_response, (consumer, response), handled),
        consumer@.eof_enabled,
        response.millis_behind_latest == Some(0i64),
    ensures
        handled.1 is None,
        handled.0@.len() > 0,
        match handled.0@.last() {
            ShardConsumerMessage::ShardEOF(shard_id) => shard_id@ == consumer@.shard_id,
            _ => false,
        },
        forall|i: int|
            0 <= i < handled.0@.len() - 1 ==> {
                &&& #[trigger] handled.0@[i] !is ShardEOF
                &&& handled.0@[i] !is ShardClosed
            },
{
    lemma_handled(consumer, response, handled);
}

/// Elsewhere the shard is read on from the iterator of the response. Where there is none, the
/// consumer says last that the shard is closed; where there is one, it says nothing of an end.
pub proof fn law_response_says_where_to_read_on(
    consumer: &ShardConsumer,
    response: GetRecordsResponse,
    handled: (Vec<ShardConsumerMessage>, Option<String>),
)
    requires
        call_ensures(ShardConsumer::handle_response, (consumer, response), handled),
        !consumer@.eof_enabled || response.millis_behind_latest != Some(0i64),
    ensures
        match response.next_shard_iterator {
            Some(shard_iterator) => {
                &&& handled.1 is Some
                &&& handled.1->0@ == shard_iterator@
                &&& forall|i: int|
                    0 <= i < handled.0@.len() ==> #[trigger] handled.0@[i] !is ShardClosed
            },
            None => {
                &&& handled.1 is None
                &&& handled.0@.len() > 0
                &&& handled.0@.last() matches ShardConsumerMessage::ShardClosed(shard_id)
                &&& shard_id@ == consumer@.shard_id
                &&& forall|i: int|
                    0 <= i < handled.0@.len() - 1 ==> #[trigger] handled.0@[i] !is ShardClosed
            },
        },
        forall|i: int| 0 <= i < handled.0@.len() ==> #[trigger] handled.0@[i] !is ShardEOF,
{
    lemma_handled(consumer, response, handled);
}

/// Of the parts of a consumer, only the shard and whether to stop at the tip matter to what it
/// makes of a response: two consumers that agree on these hand on the same.
pub proof fn law_handling_depends_on_shard_and_eof(
    consumer: &ShardConsumer,
    other: &ShardConsumer,
    response: GetRecordsResponse,
    handled: (Vec<ShardConsumerMessage>, Option<String>),
    other_handled: (Vec<ShardConsumerMessage>, Option<String>),
)
    requires
        call_ensures(ShardConsumer::handle_response, (consumer, response), handled),
        call_ensures(ShardConsumer::handle_response, (other, response), other_handled),
        consumer@.shard_id == other@.shard_id,
        consumer@.eof_enabled == other@.eof_enabled,
    ensures
        handled.0@.len() == other_handled.0@.len(),
        forall|i: int|
            0 <= i < handled.0@.len() ==> (#[trigger] handled.0@[i])@ == other_handled.0@[i]@,
        handled.1 is Some <==> other_handled.1 is Some,
        handled.1 is Some ==> handled.1->0@ == other_handled.1->0@,
{
    lemma_handled(consumer, response, handled);
    lemma_handled(other, response, other_handled);
    if response.child_shards is Some {
        let children = response@.child_shards->0;
        lemma_announced_by_shard(consumer@, other@, children);
    }
}

/// What is announced depends on the shard alone.
proof fn lemma_announced_by_shard(
    consumer: ShardConsumerView,
    other: ShardConsumerView,
    children: Seq<ChildShardView>,
)
    requires
        consumer.shard_id == other.shard_id,
    ensures
        consumer.announced(children) == other.announced(children),
    decreases children.len(),
{
    if children.len() > 0 {
        let rest = children.drop_last();
        let child = children.last();
        lemma_announced_by_shard(consumer, other, rest);
        law_children_are_announced_in_order(consumer, rest, child);
        law_children_are_announced_in_order(other, rest, child);
        assert(rest.push(child) =~= children);
    } else {
        assert(children =~= seq![]);
        law_children_are_announced_in_order(consumer, children, arbitrary());
        law_children_are_announced_in_order(other, children, arbitrary());
    }
}

/// A run accepts what its open action can come to.
pub proof fn law_run_accepts_the_answer_it_awaits<'a, E>(
    run: &ShardConsumerRun<'a>,
    event: &ShardConsumerEvent<E>,
    accepted: bool,
)
    requires
        call_ensures(ShardConsumerRun::<'a>::accepts::<E>, (run, event), accepted),
    ensures
        accepted == match run@.state {
            ShardConsumerStateView::AwaitingShardIterator => event is ShardIterator,
            ShardConsumerStateView::AwaitingTick { .. } => event is Ticked,
            ShardConsumerStateView::AwaitingRecords => event is Records,
            ShardConsumerStateView::Sending { .. } => event is Sent,
            ShardConsumerStateView::Finished => false,
        },
{
}

/// A run goes on behind every event that it accepts.
pub proof fn law_accepted_event_can_be_stepped<'a, E>(
    run: ShardConsumerRun<'a>,
    event: ShardConsumerEvent<E>,
)
    requires
        call_ensures(ShardConsumerRun::<'a>::accepts::<E>, (&run, &event), true),
    ensures
        call_requires(ShardConsumerRun::<'a>::step::<E>, (run, event)),
{
}

/// Behind the tick that a run waits for, it asks for the records at the iterator that it holds.
pub proof fn law_step_asks_for_records_behind_a_tick<'a, E>(
    run: ShardConsumerRun<'a>,
    next: (ShardConsumerRun<'a>, ShardConsumerAction<E>),
)
    requires
        run@.state is AwaitingTick,
        call_ensures(
            ShardConsumerRun::<'a>::step::<E>,
            (run, ShardConsumerEvent::<E>::Ticked),
            next,
        ),
    ensures
        next.0@.consumer == run@.consumer,
        next.0@.state is AwaitingRecords,
        match next.1 {
            ShardConsumerAction::GetRecords { shard_iterator } => shard_iterator@
                == run@.state->AwaitingTick_shard_iterator,
            _ => false,
        },
{
}

/// Behind the answer to its first request, a run waits for a tick with the iterator that came in.
/// Where none came, it reports the shard as closed and has nothing left to do.
pub proof fn law_step_follows_the_first_iterator<'a, E>(
    run: ShardConsumerRun<'a>,
    answer: Option<String>,
    next: (ShardConsumerRun<'a>, ShardConsumerAction<E>),
)
    requires
        run@.state is AwaitingShardIterator,
        call_ensures(
            ShardConsumerRun::<'a>::step::<E>,
            (run, ShardConsumerEvent::<E>::ShardIterator(Ok(answer))),
            next,
        ),
    ensures
        next.0@.consumer == run@.consumer,
        match answer {
            Some(shard_iterator) => {
                &&& next.0@.state == (ShardConsumerStateView::AwaitingTick {
                    shard_iterator: shard_iterator@,
                })
                &&& next.1 == (ShardConsumerAction::<E>::WaitForTick { period_millis: 200 })
            },
            None => {
                &&& next.0@.state == (ShardConsumerStateView::Sending {
                    outbox: seq![],
                    next_shard_iterator: None,
                })
                &&& next.1 matches ShardConsumerAction::Send(
                    ShardConsumerMessage::ShardClosed(shard_id),
                )
                &&& shard_id@ == run@.consumer.shard_id
            },
        },
{
    assert(run@.consumer.closed_message(None).drop_first() =~= seq![]);
}

/// Behind a response, a run sends the first of the messages that a call of `handle_response` gives
/// of it, and holds the others and the iterator to read on from. Where there are no messages, it
/// waits for a tick with that iterator.
pub proof fn law_step_tells_a_response<'a, E>(
    consumer: &'a ShardConsumer,
    run: ShardConsumerRun<'a>,
    response: GetRecordsResponse,
    handled: (Vec<ShardConsumerMessage>, Option<String>),
    next: (ShardConsumerRun<'a>, ShardConsumerAction<E>),
)
    requires
        run@.state is AwaitingRecords,
        run@.consumer == consumer@,
        call_ensures(ShardConsumer::handle_response, (consumer, response), handled),
        call_ensures(
            ShardConsumerRun::<'a>::step::<E>,
            (run, ShardConsumerEvent::<E>::Records(Ok(response))),
            next,
        ),
    ensures
        next.0@.consumer == run@.consumer,
        handled.0@.len() > 0 ==> {
            &&& next.1 matches ShardConsumerAction::Send(message)
            &&& message@ == handled.0@[0]@
            &&& next.0@.state matches ShardConsumerStateView::Sending {
                outbox,
                next_shard_iterator,
            }
            &&& outbox.len() == handled.0@.len() - 1
            &&& forall|i: int|
                0 <= i < outbox.len() ==> #[trigger] outbox[i] == handled.0@[i + 1]@
            &&& next_shard_iterator is Some <==> handled.1 is Some
            &&& handled.1 is Some ==> next_shard_iterator->0 == handled.1->0@
        },
        handled.0@.len() == 0 ==> {
            &&& handled.1 is Some
            &&& next.0@.state == (ShardConsumerStateView::AwaitingTick {
                shard_iterator: handled.1->0@,
            })
            &&& next.1 == (ShardConsumerAction::<E>::WaitForTick { period_millis: 200 })
        },
{
    lemma_handled(consumer, response, handled);
}

/// Once the sink has taken a message, a run sends the next of those that it holds. Where it holds
/// none, it waits for a tick with the iterator to read on from, or succeeds where there is none.
pub proof fn law_step_goes_on_behind_a_message<'a, E>(
    run: ShardConsumerRun<'a>,
    outbox: Seq<ShardConsumerMessageView>,
    next_shard_iterator: Option<Seq<char>>,
    next: (ShardConsumerRun<'a>, ShardConsumerAction<E>),
)
    requires
        run@.state == (ShardConsumerStateView::Sending { outbox, next_shard_iterator }),
        call_ensures(
            ShardConsumerRun::<'a>::step::<E>,
            (run, ShardConsumerEvent::<E>::Sent(Ok(()))),
            next,
        ),
    ensures
        next.0@.consumer == run@.consumer,
        outbox.len() > 0 ==> {
            &&& next.1 matches ShardConsumerAction::Send(message)
            &&& message@ == outbox[0]
            &&& next.0@.state matches ShardConsumerStateView::Sending {
                outbox: rest,
                next_shard_iterator: read_on,
            }
            &&& rest.len() == outbox.len() - 1
            &&& forall|i: int| 0 <= i < rest.len() ==> #[trigger] rest[i] == outbox[i + 1]
            &&& read_on == next_shard_iterator
        },
        outbox.len() == 0 && next_shard_iterator is Some ==> {
            &&& next.0@.state == (ShardConsumerStateView::AwaitingTick {
                shard_iterator: next_shard_iterator->0,
            })
            &&& next.1 == (ShardConsumerAction::<E>::WaitForTick { period_millis: 200 })
        },
        outbox.len() == 0 && next_shard_iterator is None ==> {
            &&& next.0@.state is Finished
            &&& next.1 == ShardConsumerAction::<E>::Return(Ok(()))
        },
{
}

/// A failure of the open action ends the run with its error.
pub proof fn law_step_returns_a_failure<'a, E>(
    run: ShardConsumerRun<'a>,
    event: ShardConsumerEvent<E>,
    error: E,
    next: (ShardConsumerRun<'a>, ShardConsumerAction<E>),
)
    requires
        call_ensures(ShardConsumerRun::<'a>::step::<E>, (run, event), next),
        (run@.state is AwaitingShardIterator && event == (ShardConsumerEvent::ShardIterator(
            Err(error),
        ))) || (run@.state is AwaitingRecords && event == (ShardConsumerEvent::Records(
            Err(error),
        ))) || (run@.state is Sending && event == (ShardConsumerEvent::Sent(Err(error)))),
    ensures
        next.0@.consumer == run@.consumer,
        next.0@.state is Finished,
        next.1 == ShardConsumerAction::<E>::Return(Err(error)),
{
}

/// The contents of a message are its parts.
pub proof fn law_message_is_told_by_its_parts(message: ShardConsumerMessage)
    ensures
        match message {
            ShardConsumerMessage::NewShards(shard_ids) => {
                &&& message@ matches ShardConsumerMessageView::NewShards(views)
                &&& views.len() == shard_ids@.len()
                &&& forall|k: int| 0 <= k < views.len() ==> #[trigger] views[k] == shard_ids@[k]@
            },
            ShardConsumerMessage::Records { shard_id, records, lag_millis } => {
                message@ == (ShardConsumerMessageView::Records {
                    shard_id: shard_id@,
                    records: records@,
                    lag_millis,
                })
            },
            ShardConsumerMessage::ShardClosed(shard_id) => {
                message@ == ShardConsumerMessageView::ShardClosed(shard_id@)
            },
            ShardConsumerMessage::ShardEOF(shard_id) => {
                message@ == ShardConsumerMessageView::ShardEOF(shard_id@)
            },
        },
{
}

/// The contents of a response are its parts.
pub proof fn law_response_is_told_by_its_parts(response: GetRecordsResponse)
    ensures
        response@.records == response.records@,
        response@.millis_behind_latest == response.millis_behind_latest,
        response@.next_shard_iterator is Some <==> response.next_shard_iterator is Some,
        response.next_shard_iterator is Some ==> response@.next_shard_iterator->0
            == response.next_shard_iterator->0@,
        response@.child_shards is Some <==> response.child_shards is Some,
        response.child_shards is Some ==> {
            let children = response.child_shards->0;
            let views = response@.child_shards->0;
            &&& views.len() == children@.len()
            &&& forall|i: int|
                0 <= i < views.len() ==> {
                    &&& (#[trigger] views[i]).shard_id == children@[i].shard_id@
                    &&& views[i].parent_shards.len() == children@[i].parent_shards@.len()
                    &&& forall|k: int|
                        0 <= k < views[i].parent_shards.len() ==> #[trigger] views[i].parent_shards[k]
                            == children@[i].parent_shards@[k]@
                }
        },
{
}

} // verus!
