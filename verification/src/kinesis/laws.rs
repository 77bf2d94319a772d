//! What holds of every run of a shard consumer.
//!
//! A run is told by the events that came in, from the answer to its first request on.

use rusoto_kinesis::Record;
use vstd::prelude::*;

use crate::kinesis::message::ShardConsumerMessageView;
use crate::kinesis::response::GetRecordsResponseView;
use crate::kinesis::response_laws::{brings_child_of, lemma_brings_child_of};
use crate::kinesis::run::{
    ShardConsumerActionView, ShardConsumerEventView, ShardConsumerStateView, TICK_PERIOD_MILLIS,
};
use crate::kinesis::shard_consumer::ShardConsumerView;

verus! {

/// The state of a run behind the events.
pub open spec fn state_after<E>(
    consumer: ShardConsumerView,
    events: Seq<ShardConsumerEventView<E>>,
) -> ShardConsumerStateView
    decreases events.len(),
{
    if events.len() == 0 {
        ShardConsumerStateView::AwaitingShardIterator
    } else {
        consumer.step(state_after(consumer, events.drop_last()), events.last()).0
    }
}

/// The actions of a run up to the one that is open behind the events.
pub open spec fn actions<E>(
    consumer: ShardConsumerView,
    events: Seq<ShardConsumerEventView<E>>,
) -> Seq<ShardConsumerActionView<E>>
    decreases events.len(),
{
    if events.len() == 0 {
        seq![consumer.first_action()]
    } else {
        actions(consumer, events.drop_last()).push(
            consumer.step(state_after(consumer, events.drop_last()), events.last()).1,
        )
    }
}

/// Whether the events are those of a run: whether each is one that the run expects.
pub open spec fn is_run<E>(
    consumer: ShardConsumerView,
    events: Seq<ShardConsumerEventView<E>>,
) -> bool
    decreases events.len(),
{
    events.len() > 0 ==> {
        &&& is_run(consumer, events.drop_last())
        &&& state_after(consumer, events.drop_last()).expects(events.last())
    }
}

/// Whether a run is over and met no failure.
pub open spec fn succeeds<E>(
    consumer: ShardConsumerView,
    events: Seq<ShardConsumerEventView<E>>,
) -> bool {
    actions(consumer, events).last() == ShardConsumerActionView::<E>::Return(Ok(()))
}

/// The messages among the actions, in order.
pub open spec fn sent<E>(actions: Seq<ShardConsumerActionView<E>>) -> Seq<ShardConsumerMessageView>
    decreases actions.len(),
{
    if actions.len() == 0 {
        seq![]
    } else {
        match actions.last() {
            ShardConsumerActionView::Send(message) => sent(actions.drop_last()).push(message),
            _ => sent(actions.drop_last()),
        }
    }
}

/// The iterators at which records were asked for, in order.
pub open spec fn polled<E>(actions: Seq<ShardConsumerActionView<E>>) -> Seq<Seq<char>>
    decreases actions.len(),
{
    if actions.len() == 0 {
        seq![]
    } else {
        match actions.last() {
            ShardConsumerActionView::GetRecords { shard_iterator } => polled(
                actions.drop_last(),
            ).push(shard_iterator),
            _ => polled(actions.drop_last()),
        }
    }
}

/// The responses that came in, in order.
pub open spec fn responses<E>(events: Seq<ShardConsumerEventView<E>>) -> Seq<
    GetRecordsResponseView,
>
    decreases events.len(),
{
    if events.len() == 0 {
        seq![]
    } else {
        match events.last() {
            ShardConsumerEventView::Records(Ok(response)) => responses(events.drop_last()).push(
                response,
            ),
            _ => responses(events.drop_last()),
        }
    }
}

/// The iterator that Kinesis gave to start from.
pub open spec fn first_shard_iterator<E>(events: Seq<ShardConsumerEventView<E>>) -> Option<
    Seq<char>,
> {
    if events.len() > 0 {
        match events[0] {
            ShardConsumerEventView::ShardIterator(Ok(shard_iterator)) => shard_iterator,
            _ => None,
        }
    } else {
        None
    }
}

/// The messages that one event gives rise to.
pub open spec fn owed_for<E>(
    consumer: ShardConsumerView,
    event: ShardConsumerEventView<E>,
) -> Seq<ShardConsumerMessageView> {
    match event {
        ShardConsumerEventView::ShardIterator(Ok(shard_iterator)) => consumer.closed_message(
            shard_iterator,
        ),
        ShardConsumerEventView::Records(Ok(response)) => consumer.messages(response),
        _ => seq![],
    }
}

/// The messages that the events give rise to, in order.
pub open spec fn owed<E>(
    consumer: ShardConsumerView,
    events: Seq<ShardConsumerEventView<E>>,
) -> Seq<ShardConsumerMessageView>
    decreases events.len(),
{
    if events.len() == 0 {
        seq![]
    } else {
        owed(consumer, events.drop_last()) + owed_for(consumer, events.last())
    }
}

/// The records that the messages hand on, in order.
pub open spec fn handed_on(messages: Seq<ShardConsumerMessageView>) -> Seq<Record>
    decreases messages.len(),
{
    if messages.len() == 0 {
        seq![]
    } else {
        handed_on(messages.drop_last()) + messages.last().records()
    }
}

/// The records of the responses, in order.
pub open spec fn received(responses: Seq<GetRecordsResponseView>) -> Seq<Record>
    decreases responses.len(),
{
    if responses.len() == 0 {
        seq![]
    } else {
        received(responses.drop_last()) + responses.last().records
    }
}

/// The messages that wait behind the one that is on its way.
spec fn waiting(state: ShardConsumerStateView) -> Seq<ShardConsumerMessageView> {
    match state {
        ShardConsumerStateView::Sending { outbox, .. } => outbox,
        _ => seq![],
    }
}

/// While nothing has failed, what was sent and what waits is what is owed.
proof fn lemma_sent_and_waiting<E>(
    consumer: ShardConsumerView,
    events: Seq<ShardConsumerEventView<E>>,
)
    requires
        is_run(consumer, events),
    ensures
        events.len() > 0 && events.last().error() is Some ==> sent(
            actions(consumer, events),
        ).is_prefix_of(owed(consumer, events)),
        events.len() > 0 && events.last().error() is Some <==> {
            &&& state_after(consumer, events) is Finished
            &&& !succeeds(consumer, events)
        },
        events.len() == 0 || events.last().error() is None ==> sent(actions(consumer, events))
            + waiting(state_after(consumer, events)) == owed(consumer, events),
    decreases events.len(),
{
    reveal_with_fuel(sent, 2);
    if events.len() > 0 {
        let before = events.drop_last();
        let state = state_after(consumer, before);
        lemma_sent_and_waiting(consumer, before);
        let old = actions(consumer, before);
        let action = consumer.step(state, events.last()).1;
        assert(actions(consumer, events).drop_last() =~= old);
        assert(state !is Finished);
        let gained = owed_for(consumer, events.last());
        assert(sent(old) + waiting(state) == owed(consumer, before));
        if events.last().error() is Some {
            assert(gained =~= seq![]);
            assert(owed(consumer, events) =~= sent(old) + waiting(state));
        } else {
            assert(owed(consumer, events) == sent(old) + waiting(state) + gained);
            assert(sent(actions(consumer, events)) + waiting(state_after(consumer, events))
                =~= owed(consumer, events));
        }
    } else {
        assert(actions(consumer, events).drop_last() =~= seq![]);
        assert(sent(actions(consumer, events)) =~= seq![]);
    }
}

/// The sink hears what the answers of Kinesis give rise to, all of it and in order: each message
/// that was sent is the next one owed, nothing is left to send when the shard is read on, and
/// nothing when the run succeeds.
pub proof fn law_messages_are_sent_in_order<E>(
    consumer: ShardConsumerView,
    events: Seq<ShardConsumerEventView<E>>,
)
    requires
        is_run(consumer, events),
    ensures
        sent(actions(consumer, events)).is_prefix_of(owed(consumer, events)),
        state_after(consumer, events) is AwaitingTick ==> sent(actions(consumer, events)) == owed(
            consumer,
            events,
        ),
        state_after(consumer, events) is AwaitingRecords ==> sent(actions(consumer, events))
            == owed(consumer, events),
        succeeds(consumer, events) ==> sent(actions(consumer, events)) == owed(consumer, events),
{
    lemma_sent_and_waiting(consumer, events);
    lemma_return(consumer, events);
    let messages = sent(actions(consumer, events));
    assert(messages + seq![] =~= messages);
}

/// The open action of a run is to return just when the run is over, and it returns an error just
/// when the last event brought it.
proof fn lemma_return<E>(consumer: ShardConsumerView, events: Seq<ShardConsumerEventView<E>>)
    requires
        is_run(consumer, events),
    ensures
        actions(consumer, events).len() == events.len() + 1,
        state_after(consumer, events) is Finished <==> actions(consumer, events).last() is Return,
        forall|error: E|
            #![auto]
            actions(consumer, events).last() == ShardConsumerActionView::Return(Err(error)) <==> (
            events.len() > 0 && events.last().error() == Some(error)),
    decreases events.len(),
{
    if events.len() > 0 {
        lemma_return(consumer, events.drop_last());
    }
}

/// A failed request or a failed send ends the run with its error, and nothing else makes a run
/// return an error.
pub proof fn law_failure_is_returned<E>(
    consumer: ShardConsumerView,
    events: Seq<ShardConsumerEventView<E>>,
    error: E,
)
    requires
        is_run(consumer, events),
    ensures
        actions(consumer, events).last() == ShardConsumerActionView::Return(Err(error)) <==> (
        events.len() > 0 && {
            ||| events.last() == ShardConsumerEventView::ShardIterator(Err(error))
            ||| events.last() == ShardConsumerEventView::Records(Err(error))
            ||| events.last() == ShardConsumerEventView::<E>::Sent(Err(error))
        }),
{
    lemma_return(consumer, events);
}

/// A run returns once: behind its return no event is expected, and no action comes.
pub proof fn law_return_is_final<E>(
    consumer: ShardConsumerView,
    events: Seq<ShardConsumerEventView<E>>,
    i: int,
)
    requires
        is_run(consumer, events),
        0 <= i < actions(consumer, events).len(),
        actions(consumer, events)[i] is Return,
    ensures
        i == actions(consumer, events).len() - 1,
        forall|event: ShardConsumerEventView<E>|
            !(#[trigger] state_after(consumer, events).expects(event)),
    decreases events.len(),
{
    lemma_return(consumer, events);
    if events.len() > 0 && i < actions(consumer, events).len() - 1 {
        law_return_is_final(consumer, events.drop_last(), i);
        assert(state_after(consumer, events.drop_last()).expects(events.last()));
    }
}

/// Whether no message is a last one.
spec fn is_open(messages: Seq<ShardConsumerMessageView>) -> bool {
    forall|i: int| 0 <= i < messages.len() ==> !(#[trigger] messages[i]).is_last()
}

/// Whether the last message is a last one of the shard, and no other is.
spec fn is_ended(shard_id: Seq<char>, messages: Seq<ShardConsumerMessageView>) -> bool {
    &&& messages.len() > 0
    &&& messages.last() == ShardConsumerMessageView::ShardEOF(shard_id) || messages.last()
        == ShardConsumerMessageView::ShardClosed(shard_id)
    &&& is_open(messages.drop_last())
}

/// A last message is owed just when the run is to end behind what is owed.
proof fn lemma_last_owed<E>(consumer: ShardConsumerView, events: Seq<ShardConsumerEventView<E>>)
    requires
        is_run(consumer, events),
    ensures
        match state_after(consumer, events) {
            ShardConsumerStateView::Sending { next_shard_iterator: None, .. } => is_ended(
                consumer.shard_id,
                owed(consumer, events),
            ),
            ShardConsumerStateView::Finished => {
                ||| is_ended(consumer.shard_id, owed(consumer, events))
                ||| is_open(owed(consumer, events)) && events.last().error() is Some
            },
            _ => is_open(owed(consumer, events)),
        },
    decreases events.len(),
{
    if events.len() > 0 {
        let before = events.drop_last();
        lemma_last_owed(consumer, before);
        let old = owed(consumer, before);
        let gained = owed_for(consumer, events.last());
        match events.last() {
            ShardConsumerEventView::ShardIterator(Ok(shard_iterator)) => {
                assert((old + gained).drop_last() =~= old || shard_iterator is Some);
            },
            ShardConsumerEventView::Records(Ok(response)) => {
                let first = consumer.records_message(response) + consumer.new_shards_message(
                    response,
                );
                assert(is_open(first));
                assert(is_open(old + first));
                if consumer.next_shard_iterator(response) is None {
                    assert((old + gained).drop_last() =~= old + first);
                } else {
                    assert(old + gained =~= old + first);
                }
            },
            _ => {
                assert(old + gained =~= old);
            },
        }
    }
}

/// A run that succeeds has told its sink, as the last message, that the shard is closed or that
/// its tip is reached. No run sends anything behind such a message.
pub proof fn law_last_message_comes_last<E>(
    consumer: ShardConsumerView,
    events: Seq<ShardConsumerEventView<E>>,
)
    requires
        is_run(consumer, events),
    ensures
        succeeds(consumer, events) ==> {
            let messages = sent(actions(consumer, events));
            &&& messages.len() > 0
            &&& messages.last() == ShardConsumerMessageView::ShardEOF(consumer.shard_id)
                || messages.last() == ShardConsumerMessageView::ShardClosed(consumer.shard_id)
        },
        forall|i: int|
            0 <= i < sent(actions(consumer, events)).len() - 1 ==> {
                &&& #[trigger] sent(actions(consumer, events))[i] !is ShardEOF
                &&& sent(actions(consumer, events))[i] !is ShardClosed
            },
{
    lemma_last_owed(consumer, events);
    lemma_return(consumer, events);
    law_messages_are_sent_in_order(consumer, events);
    let messages = sent(actions(consumer, events));
    let all = owed(consumer, events);
    assert forall|i: int| 0 <= i < messages.len() - 1 implies #[trigger] messages[i] !is ShardEOF
        && messages[i] !is ShardClosed by {
        assert(messages[i] == all[i]);
        assert(all.drop_last()[i] == all[i]);
        assert(!messages[i].is_last());
    }
}

/// Once the sink has taken a last message, the run succeeds.
pub proof fn law_run_ends_behind_last_message<E>(
    consumer: ShardConsumerView,
    events: Seq<ShardConsumerEventView<E>>,
)
    requires
        is_run(consumer, events),
        state_after(consumer, events) is Sending,
        sent(actions(consumer, events)).last() is ShardEOF || sent(
            actions(consumer, events),
        ).last() is ShardClosed,
    ensures
        succeeds(consumer, events.push(ShardConsumerEventView::<E>::Sent(Ok(())))),
{
    lemma_last_owed(consumer, events);
    lemma_sent_and_waiting(consumer, events);
    lemma_sends(consumer, events);
    let event = ShardConsumerEventView::<E>::Sent(Ok(()));
    assert(events.push(event).drop_last() =~= events);
    let messages = sent(actions(consumer, events));
    let all = owed(consumer, events);
    let i = messages.len() - 1;
    assert(all[i] == messages[i]);
    if i < all.len() - 1 {
        assert(all.drop_last()[i] == all[i]);
    }
}

/// Where a message is on its way, a message was sent.
proof fn lemma_sends<E>(consumer: ShardConsumerView, events: Seq<ShardConsumerEventView<E>>)
    requires
        is_run(consumer, events),
    ensures
        state_after(consumer, events) is Sending ==> sent(actions(consumer, events)).len() > 0,
{
    reveal_with_fuel(sent, 2);
}

/// The tip of a shard is reported only by a consumer that is to stop there, and only when the last
/// response was up to date.
pub proof fn law_eof_is_reported_at_the_tip<E>(
    consumer: ShardConsumerView,
    events: Seq<ShardConsumerEventView<E>>,
    i: int,
)
    requires
        is_run(consumer, events),
        0 <= i < sent(actions(consumer, events)).len(),
        sent(actions(consumer, events))[i] is ShardEOF,
    ensures
        consumer.eof_enabled,
        responses(events).len() > 0,
        responses(events).last().millis_behind_latest == Some(0i64),
{
    law_messages_are_sent_in_order(consumer, events);
    assert(sent(actions(consumer, events))[i] == owed(consumer, events)[i]);
    lemma_eof_owed(consumer, events, i);
}

/// The message that reports the tip of the shard is owed to the last response.
proof fn lemma_eof_owed<E>(
    consumer: ShardConsumerView,
    events: Seq<ShardConsumerEventView<E>>,
    i: int,
)
    requires
        is_run(consumer, events),
        0 <= i < owed(consumer, events).len(),
        owed(consumer, events)[i] is ShardEOF,
    ensures
        responses(events).len() > 0,
        consumer.reaches_eof(responses(events).last()),
    decreases events.len(),
{
    let before = events.drop_last();
    let old = owed(consumer, before);
    if i < old.len() {
        assert(old[i] == owed(consumer, events)[i]);
        lemma_eof_owed(consumer, before, i);
        lemma_last_owed(consumer, before);
        if i < old.len() - 1 {
            assert(old.drop_last()[i] == old[i]);
        }
        assert(events.last() is Sent);
    } else {
        assert(owed_for(consumer, events.last())[i - old.len()] is ShardEOF);
    }
}

/// A shard is reported as closed only when Kinesis gave no iterator to read on from, and only if
/// the consumer did not stop at the tip.
pub proof fn law_closed_is_reported_at_the_end<E>(
    consumer: ShardConsumerView,
    events: Seq<ShardConsumerEventView<E>>,
    i: int,
)
    requires
        is_run(consumer, events),
        0 <= i < sent(actions(consumer, events)).len(),
        sent(actions(consumer, events))[i] is ShardClosed,
    ensures
        iterator_for(events, responses(events).len() as int) is None,
        responses(events).len() > 0 ==> !(consumer.eof_enabled && responses(
            events,
        ).last().millis_behind_latest == Some(0i64)),
{
    law_messages_are_sent_in_order(consumer, events);
    assert(sent(actions(consumer, events))[i] == owed(consumer, events)[i]);
    lemma_closed_owed(consumer, events, i);
}

/// The message that reports the end of the shard is owed to the last answer.
proof fn lemma_closed_owed<E>(
    consumer: ShardConsumerView,
    events: Seq<ShardConsumerEventView<E>>,
    i: int,
)
    requires
        is_run(consumer, events),
        0 <= i < owed(consumer, events).len(),
        owed(consumer, events)[i] is ShardClosed,
    ensures
        iterator_for(events, responses(events).len() as int) is None,
        responses(events).len() > 0 ==> !consumer.reaches_eof(responses(events).last()),
    decreases events.len(),
{
    let before = events.drop_last();
    let old = owed(consumer, before);
    lemma_polls(consumer, before);
    if i < old.len() {
        assert(old[i] == owed(consumer, events)[i]);
        lemma_closed_owed(consumer, before, i);
        lemma_last_owed(consumer, before);
        if i < old.len() - 1 {
            assert(old.drop_last()[i] == old[i]);
        }
        assert(events.last() is Sent);
        assert(events[0] == before[0]);
    } else {
        assert(owed_for(consumer, events.last())[i - old.len()] is ShardClosed);
    }
}

/// Each message that names the consumed shard names it by its id, and no message is empty.
pub proof fn law_messages_are_about_the_shard<E>(
    consumer: ShardConsumerView,
    events: Seq<ShardConsumerEventView<E>>,
    i: int,
)
    requires
        is_run(consumer, events),
        0 <= i < sent(actions(consumer, events)).len(),
    ensures
        match sent(actions(consumer, events))[i] {
            ShardConsumerMessageView::NewShards(shard_ids) => shard_ids.len() > 0,
            ShardConsumerMessageView::Records { shard_id, records, .. } => {
                &&& shard_id == consumer.shard_id
                &&& records.len() > 0
            },
            ShardConsumerMessageView::ShardClosed(shard_id) => shard_id == consumer.shard_id,
            ShardConsumerMessageView::ShardEOF(shard_id) => shard_id == consumer.shard_id,
        },
{
    law_messages_are_sent_in_order(consumer, events);
    assert(sent(actions(consumer, events))[i] == owed(consumer, events)[i]);
    lemma_owed_about_the_shard(consumer, events, i);
}

/// What [`law_messages_are_about_the_shard`] says of the messages sent holds of those owed.
proof fn lemma_owed_about_the_shard<E>(
    consumer: ShardConsumerView,
    events: Seq<ShardConsumerEventView<E>>,
    i: int,
)
    requires
        0 <= i < owed(consumer, events).len(),
    ensures
        match owed(consumer, events)[i] {
            ShardConsumerMessageView::NewShards(shard_ids) => shard_ids.len() > 0,
            ShardConsumerMessageView::Records { shard_id, records, .. } => {
                &&& shard_id == consumer.shard_id
                &&& records.len() > 0
            },
            ShardConsumerMessageView::ShardClosed(shard_id) => shard_id == consumer.shard_id,
            ShardConsumerMessageView::ShardEOF(shard_id) => shard_id == consumer.shard_id,
        },
    decreases events.len(),
{
    let old = owed(consumer, events.drop_last());
    if i < old.len() {
        assert(old[i] == owed(consumer, events)[i]);
        lemma_owed_about_the_shard(consumer, events.drop_last(), i);
    } else {
        assert(owed_for(consumer, events.last())[i - old.len()] == owed(consumer, events)[i]);
    }
}

/// The records of a list of messages are those of its parts.
proof fn lemma_handed_on_concat(
    left: Seq<ShardConsumerMessageView>,
    right: Seq<ShardConsumerMessageView>,
)
    ensures
        handed_on(left + right) == handed_on(left) + handed_on(right),
    decreases right.len(),
{
    if right.len() == 0 {
        assert(left + right =~= left);
        assert(handed_on(left) + handed_on(right) =~= handed_on(left));
    } else {
        lemma_handed_on_concat(left, right.drop_last());
        assert((left + right).drop_last() =~= left + right.drop_last());
        assert((left + right).last() == right.last());
    }
}

/// What is owed hands on the records of the responses.
proof fn lemma_owed_hands_on_received<E>(
    consumer: ShardConsumerView,
    events: Seq<ShardConsumerEventView<E>>,
)
    ensures
        handed_on(owed(consumer, events)) == received(responses(events)),
    decreases events.len(),
{
    if events.len() > 0 {
        let before = events.drop_last();
        let gained = owed_for(consumer, events.last());
        lemma_owed_hands_on_received(consumer, before);
        lemma_handed_on_concat(owed(consumer, before), gained);
        reveal_with_fuel(handed_on, 2);
        match events.last() {
            ShardConsumerEventView::Records(Ok(response)) => {
                let records = consumer.records_message(response);
                let new_shards = consumer.new_shards_message(response);
                let last = consumer.last_message(response);
                lemma_handed_on_concat(records + new_shards, last);
                lemma_handed_on_concat(records, new_shards);
                assert(records.len() > 0 ==> records.drop_last() =~= seq![]);
                assert(new_shards.len() > 0 ==> new_shards.drop_last() =~= seq![]);
                assert(last.len() > 0 ==> last.drop_last() =~= seq![]);
                assert(handed_on(gained) =~= response.records);
                assert(responses(events).drop_last() =~= responses(before));
            },
            ShardConsumerEventView::ShardIterator(Ok(shard_iterator)) => {
                assert(gained.len() > 0 ==> gained.drop_last() =~= seq![]);
                assert(handed_on(gained) =~= seq![]);
                assert(received(responses(before)) + handed_on(gained) =~= received(
                    responses(before),
                ));
            },
            _ => {
                assert(received(responses(before)) + handed_on(gained) =~= received(
                    responses(before),
                ));
            },
        }
    }
}

/// No record is lost, repeated or moved: when the shard is read on, and when the run succeeds,
/// the records handed on are those received.
pub proof fn law_records_are_handed_on<E>(
    consumer: ShardConsumerView,
    events: Seq<ShardConsumerEventView<E>>,
)
    requires
        is_run(consumer, events),
    ensures
        state_after(consumer, events) is AwaitingTick || state_after(consumer, events)
            is AwaitingRecords || succeeds(consumer, events) ==> handed_on(
            sent(actions(consumer, events)),
        ) == received(responses(events)),
        handed_on(sent(actions(consumer, events))).is_prefix_of(received(responses(events))),
{
    law_messages_are_sent_in_order(consumer, events);
    lemma_owed_hands_on_received(consumer, events);
    let messages = sent(actions(consumer, events));
    let all = owed(consumer, events);
    let rest = all.skip(messages.len() as int);
    assert(all =~= messages + rest);
    lemma_handed_on_concat(messages, rest);
}

/// The iterator for the `i`-th request for records: the one that Kinesis gave to start from, then
/// the one in the response before.
pub open spec fn iterator_for<E>(events: Seq<ShardConsumerEventView<E>>, i: int) -> Option<
    Seq<char>,
> {
    if i == 0 {
        first_shard_iterator(events)
    } else {
        responses(events)[i - 1].next_shard_iterator
    }
}

/// What a run knows of its requests for records.
spec fn polls_in_step<E>(
    consumer: ShardConsumerView,
    events: Seq<ShardConsumerEventView<E>>,
) -> bool {
    let asked = polled(actions(consumer, events)).len();
    let answered = responses(events).len();
    match state_after(consumer, events) {
        ShardConsumerStateView::AwaitingShardIterator => {
            &&& events.len() == 0
            &&& asked == answered == 0
        },
        ShardConsumerStateView::AwaitingTick { shard_iterator } => {
            &&& events.len() > 0
            &&& asked == answered
            &&& Some(shard_iterator) == iterator_for(events, answered as int)
            &&& answered > 0 ==> !consumer.reaches_eof(responses(events).last())
        },
        ShardConsumerStateView::AwaitingRecords => events.len() > 0 && asked == answered + 1,
        ShardConsumerStateView::Sending { next_shard_iterator, .. } => {
            &&& events.len() > 0
            &&& asked == answered
            &&& next_shard_iterator is Some ==> {
                &&& next_shard_iterator == iterator_for(events, answered as int)
                &&& answered > 0 ==> !consumer.reaches_eof(responses(events).last())
            }
        },
        ShardConsumerStateView::Finished => answered <= asked <= answered + 1,
    }
}

/// The requests for records are in step with the responses.
proof fn lemma_polls<E>(
    consumer: ShardConsumerView,
    events: Seq<ShardConsumerEventView<E>>,
)
    requires
        is_run(consumer, events),
    ensures
        polls_in_step(consumer, events),
        forall|i: int|
            0 <= i < polled(actions(consumer, events)).len() ==> {
                &&& Some(#[trigger] polled(actions(consumer, events))[i]) == iterator_for(
                    events,
                    i,
                )
                &&& i > 0 ==> !consumer.reaches_eof(responses(events)[i - 1])
            },
    decreases events.len(),
{
    reveal_with_fuel(polled, 2);
    if events.len() > 0 {
        let before = events.drop_last();
        lemma_polls(consumer, before);
        assert(actions(consumer, events).drop_last() =~= actions(consumer, before));
        if before.len() > 0 {
            assert(first_shard_iterator(events) == first_shard_iterator(before));
        }
        assert forall|i: int| 0 <= i < responses(before).len() implies #[trigger] responses(
            events,
        )[i] == responses(before)[i] by {}
    } else {
        assert(actions(consumer, events).drop_last() =~= seq![]);
    }
}

/// A shard is read from where Kinesis said to start, and each time from where the response before
/// left off. It is not read on behind a tip at which to stop.
pub proof fn law_shard_is_read_without_a_gap<E>(
    consumer: ShardConsumerView,
    events: Seq<ShardConsumerEventView<E>>,
    i: int,
)
    requires
        is_run(consumer, events),
        0 <= i < polled(actions(consumer, events)).len(),
    ensures
        Some(polled(actions(consumer, events))[i]) == iterator_for(events, i),
        i <= responses(events).len(),
        i > 0 ==> !(consumer.eof_enabled && responses(events)[i - 1].millis_behind_latest == Some(
            0i64,
        )),
{
    lemma_polls(consumer, events);
}

/// Records are asked for behind a tick, so no faster than the ticks come.
pub proof fn law_tick_comes_before_request<E>(
    consumer: ShardConsumerView,
    events: Seq<ShardConsumerEventView<E>>,
    i: int,
)
    requires
        is_run(consumer, events),
        0 <= i < actions(consumer, events).len(),
        actions(consumer, events)[i] is GetRecords,
    ensures
        i > 0,
        actions(consumer, events)[i - 1] == (ShardConsumerActionView::<E>::WaitForTick {
            period_millis: 200,
        }),
    decreases events.len(),
{
    lemma_return(consumer, events);
    if events.len() > 0 {
        let before = events.drop_last();
        lemma_return(consumer, before);
        if i < events.len() {
            law_tick_comes_before_request(consumer, before, i);
        } else {
            lemma_ticks(consumer, before);
        }
    }
}

/// Where a tick is awaited, the open action is to wait for it.
proof fn lemma_ticks<E>(consumer: ShardConsumerView, events: Seq<ShardConsumerEventView<E>>)
    requires
        is_run(consumer, events),
        state_after(consumer, events) is AwaitingTick,
    ensures
        actions(consumer, events).last() == (ShardConsumerActionView::<E>::WaitForTick {
            period_millis: TICK_PERIOD_MILLIS,
        }),
{
}

/// A run first asks for an iterator, on the stream and the shard of its consumer and behind the
/// record behind which the consumer is to start.
pub proof fn law_run_starts_where_it_is_told<E>(
    consumer: ShardConsumerView,
    events: Seq<ShardConsumerEventView<E>>,
)
    ensures
        actions(consumer, events).len() > 0,
        actions(consumer, events)[0] == (ShardConsumerActionView::<E>::GetShardIterator {
            stream_name: consumer.stream_name,
            shard_id: consumer.shard_id,
            starting_sequence_number: consumer.starting_sequence_number,
        }),
        forall|i: int|
            0 < i < actions(consumer, events).len() ==> #[trigger] actions(consumer, events)[i]
                !is GetShardIterator,
    decreases events.len(),
{
    if events.len() > 0 {
        law_run_starts_where_it_is_told(consumer, events.drop_last());
    }
}

/// What a run expects is what its open action can come to, be it a success or a failure.
pub proof fn law_expected_event_answers_the_open_action<E>(
    consumer: ShardConsumerView,
    events: Seq<ShardConsumerEventView<E>>,
    event: ShardConsumerEventView<E>,
)
    requires
        is_run(consumer, events),
    ensures
        is_run(consumer, events.push(event)) <==> match actions(consumer, events).last() {
            ShardConsumerActionView::GetShardIterator { .. } => event is ShardIterator,
            ShardConsumerActionView::WaitForTick { .. } => event is Ticked,
            ShardConsumerActionView::GetRecords { .. } => event is Records,
            ShardConsumerActionView::Send(_) => event is Sent,
            ShardConsumerActionView::Return(_) => false,
        },
{
    lemma_open_action(consumer, events);
    assert(events.push(event).drop_last() =~= events);
}

/// The state of a run goes with its open action.
proof fn lemma_open_action<E>(consumer: ShardConsumerView, events: Seq<ShardConsumerEventView<E>>)
    requires
        is_run(consumer, events),
    ensures
        match state_after(consumer, events) {
            ShardConsumerStateView::AwaitingShardIterator => {
                &&& events.len() == 0
                &&& actions(consumer, events).last() is GetShardIterator
            },
            ShardConsumerStateView::AwaitingTick { .. } => actions(consumer, events).last()
                is WaitForTick,
            ShardConsumerStateView::AwaitingRecords => actions(consumer, events).last()
                is GetRecords,
            ShardConsumerStateView::Sending { .. } => actions(consumer, events).last() is Send,
            ShardConsumerStateView::Finished => actions(consumer, events).last() is Return,
        },
{
}

/// An iterator to start from makes the run wait for a tick. Where Kinesis gives none, the shard is
/// reported as closed, and the run succeeds once the sink has taken that.
pub proof fn law_first_iterator_is_followed<E>(
    consumer: ShardConsumerView,
    shard_iterator: Seq<char>,
)
    ensures
        ({
            let events = seq![ShardConsumerEventView::<E>::ShardIterator(Ok(Some(shard_iterator)))];
            &&& is_run(consumer, events)
            &&& actions(consumer, events).last() == (ShardConsumerActionView::<E>::WaitForTick {
                period_millis: 200,
            })
        }),
        ({
            let events = seq![ShardConsumerEventView::<E>::ShardIterator(Ok(None))];
            let taken = events.push(ShardConsumerEventView::<E>::Sent(Ok(())));
            &&& is_run(consumer, events)
            &&& actions(consumer, events).last() == ShardConsumerActionView::<E>::Send(
                ShardConsumerMessageView::ShardClosed(consumer.shard_id),
            )
            &&& is_run(consumer, taken)
            &&& actions(consumer, taken).last() == ShardConsumerActionView::<E>::Return(Ok(()))
        }),
{
    let none: Seq<ShardConsumerEventView<E>> = seq![];
    let some = seq![ShardConsumerEventView::<E>::ShardIterator(Ok(Some(shard_iterator)))];
    let closed = seq![ShardConsumerEventView::<E>::ShardIterator(Ok(None))];
    let taken = closed.push(ShardConsumerEventView::<E>::Sent(Ok(())));
    assert(some.drop_last() =~= none);
    assert(closed.drop_last() =~= none);
    assert(taken.drop_last() =~= closed);
    assert(is_run(consumer, none));
    assert(consumer.closed_message(None).drop_first() =~= seq![]);
}

/// Each tick that a run waits for lets one request for records out, at the iterator that Kinesis
/// gave last.
pub proof fn law_tick_lets_a_request_out<E>(
    consumer: ShardConsumerView,
    events: Seq<ShardConsumerEventView<E>>,
)
    requires
        is_run(consumer, events),
        actions(consumer, events).last() is WaitForTick,
    ensures
        iterator_for(events, responses(events).len() as int) is Some,
        ({
            let ticked = events.push(ShardConsumerEventView::<E>::Ticked);
            let shard_iterator = iterator_for(events, responses(events).len() as int)->0;
            &&& is_run(consumer, ticked)
            &&& actions(consumer, ticked) == actions(consumer, events).push(
                ShardConsumerActionView::<E>::GetRecords { shard_iterator },
            )
            &&& polled(actions(consumer, ticked)) == polled(actions(consumer, events)).push(
                shard_iterator,
            )
        }),
{
    lemma_open_action(consumer, events);
    lemma_polls(consumer, events);
    let ticked = events.push(ShardConsumerEventView::<E>::Ticked);
    assert(ticked.drop_last() =~= events);
    assert(actions(consumer, ticked).drop_last() =~= actions(consumer, events));
}

/// The events, and behind them the sink taking that many messages.
pub open spec fn taken<E>(events: Seq<ShardConsumerEventView<E>>, count: nat) -> Seq<
    ShardConsumerEventView<E>,
>
    decreases count,
{
    if count == 0 {
        events
    } else {
        taken(events, (count - 1) as nat).push(ShardConsumerEventView::<E>::Sent(Ok(())))
    }
}

/// Messages are sent one by one, each when the sink has taken the one before.
proof fn lemma_taken<E>(
    consumer: ShardConsumerView,
    events: Seq<ShardConsumerEventView<E>>,
    messages: Seq<ShardConsumerMessageView>,
    next_shard_iterator: Option<Seq<char>>,
    count: nat,
)
    requires
        is_run(consumer, events),
        (state_after(consumer, events), actions(consumer, events).last())
            == ShardConsumerStateView::proceed::<E>(messages, next_shard_iterator),
        count <= messages.len(),
    ensures
        is_run(consumer, taken(events, count)),
        (state_after(consumer, taken(events, count)), actions(
            consumer,
            taken(events, count),
        ).last()) == ShardConsumerStateView::proceed::<E>(
            messages.skip(count as int),
            next_shard_iterator,
        ),
    decreases count,
{
    if count == 0 {
        assert(messages.skip(0) =~= messages);
    } else {
        let before = taken(events, (count - 1) as nat);
        lemma_taken(consumer, events, messages, next_shard_iterator, (count - 1) as nat);
        assert(taken(events, count).drop_last() =~= before);
        assert(messages.skip(count - 1).drop_first() =~= messages.skip(count as int));
    }
}

/// A response is told to the sink message by message. Once the sink has taken them all, the run
/// succeeds if it is at a tip at which to stop or has no iterator to read on from, and waits for
/// the next tick otherwise.
pub proof fn law_response_is_told_and_read_on<E>(
    consumer: ShardConsumerView,
    events: Seq<ShardConsumerEventView<E>>,
    response: GetRecordsResponseView,
    count: nat,
)
    requires
        is_run(consumer, events),
        actions(consumer, events).last() is GetRecords,
        count <= consumer.messages(response).len(),
    ensures
        ({
            let told = taken(
                events.push(ShardConsumerEventView::<E>::Records(Ok(response))),
                count,
            );
            &&& is_run(consumer, told)
            &&& actions(consumer, told).last() == if count < consumer.messages(response).len() {
                ShardConsumerActionView::<E>::Send(consumer.messages(response)[count as int])
            } else if consumer.eof_enabled && response.millis_behind_latest == Some(0i64)
                || response.next_shard_iterator is None {
                ShardConsumerActionView::<E>::Return(Ok(()))
            } else {
                ShardConsumerActionView::<E>::WaitForTick { period_millis: 200 }
            }
        }),
{
    lemma_open_action(consumer, events);
    let messages = consumer.messages(response);
    let answered = events.push(ShardConsumerEventView::<E>::Records(Ok(response)));
    assert(answered.drop_last() =~= events);
    lemma_taken(consumer, answered, messages, consumer.next_shard_iterator(response), count);
}

/// Each response with records gives rise to one message with these records and with the lag of
/// the response, and each response that brings a child of the shard to one message with the
/// announced children. When the shard is read on, and when the run succeeds, all of these have
/// been sent, in the order of the responses, and no others of their kind; up to then, the first of
/// them.
pub proof fn law_responses_are_told<E>(
    consumer: ShardConsumerView,
    events: Seq<ShardConsumerEventView<E>>,
)
    requires
        is_run(consumer, events),
    ensures
        ({
            let messages = sent(actions(consumer, events));
            let told = messages.filter(|message: ShardConsumerMessageView| message is Records);
            let to_tell = responses(events).filter(
                |response: GetRecordsResponseView| response.records.len() > 0,
            ).map_values(
                |response: GetRecordsResponseView|
                    ShardConsumerMessageView::Records {
                        shard_id: consumer.shard_id,
                        records: response.records,
                        lag_millis: response.millis_behind_latest,
                    },
            );
            &&& told.is_prefix_of(to_tell)
            &&& actions(consumer, events).last() is WaitForTick || succeeds(consumer, events)
                ==> told == to_tell
        }),
        ({
            let messages = sent(actions(consumer, events));
            let told = messages.filter(|message: ShardConsumerMessageView| message is NewShards);
            let to_tell = responses(events).filter(
                |response: GetRecordsResponseView| brings_child_of(response, consumer.shard_id),
            ).map_values(
                |response: GetRecordsResponseView|
                    ShardConsumerMessageView::NewShards(
                        consumer.announced(response.child_shards->0),
                    ),
            );
            &&& told.is_prefix_of(to_tell)
            &&& actions(consumer, events).last() is WaitForTick || succeeds(consumer, events)
                ==> told == to_tell
        }),
{
    law_messages_are_sent_in_order(consumer, events);
    lemma_open_action(consumer, events);
    lemma_owed_tells_records(consumer, events);
    lemma_owed_tells_children(consumer, events);
    let messages = sent(actions(consumer, events));
    let all = owed(consumer, events);
    let rest = all.skip(messages.len() as int);
    assert(all =~= messages + rest);
    let is_records = |message: ShardConsumerMessageView| message is Records;
    let is_new_shards = |message: ShardConsumerMessageView| message is NewShards;
    Seq::filter_distributes_over_add(messages, rest, is_records);
    Seq::filter_distributes_over_add(messages, rest, is_new_shards);
}

/// What [`law_responses_are_told`] says of records holds of the messages owed.
proof fn lemma_owed_tells_records<E>(
    consumer: ShardConsumerView,
    events: Seq<ShardConsumerEventView<E>>,
)
    ensures
        owed(consumer, events).filter(|message: ShardConsumerMessageView| message is Records)
            == responses(events).filter(
            |response: GetRecordsResponseView| response.records.len() > 0,
        ).map_values(
            |response: GetRecordsResponseView|
                ShardConsumerMessageView::Records {
                    shard_id: consumer.shard_id,
                    records: response.records,
                    lag_millis: response.millis_behind_latest,
                },
        ),
    decreases events.len(),
{
    let is_kind = |message: ShardConsumerMessageView| message is Records;
    let keep = |response: GetRecordsResponseView| response.records.len() > 0;
    let tell = |response: GetRecordsResponseView|
        ShardConsumerMessageView::Records {
                    shard_id: consumer.shard_id,
                    records: response.records,
                    lag_millis: response.millis_behind_latest,
                };
    let goal = responses(events).filter(keep).map_values(tell);
    if events.len() > 0 {
        let before = events.drop_last();
        let old = owed(consumer, before);
        let gained = owed_for(consumer, events.last());
        lemma_owed_tells_records(consumer, before);
        Seq::filter_distributes_over_add(old, gained, is_kind);
        match events.last() {
            ShardConsumerEventView::Records(Ok(response)) => {
                lemma_filter_map_push(responses(before), keep, tell, response);
                lemma_records_told(consumer, response);
                assert(old.filter(is_kind) + gained.filter(is_kind) =~= goal);
            },
            _ => {
                lemma_filter_of_few(gained, is_kind);
                assert(old.filter(is_kind) + gained.filter(is_kind) =~= goal);
            },
        }
    } else {
        lemma_filter_of_few(owed(consumer, events), is_kind);
        lemma_filter_of_few(responses(events), keep);
        assert(owed(consumer, events).filter(is_kind) =~= goal);
    }
}

/// What [`law_responses_are_told`] says of children holds of the messages owed.
proof fn lemma_owed_tells_children<E>(
    consumer: ShardConsumerView,
    events: Seq<ShardConsumerEventView<E>>,
)
    ensures
        owed(consumer, events).filter(|message: ShardConsumerMessageView| message is NewShards)
            == responses(events).filter(
            |response: GetRecordsResponseView| brings_child_of(response, consumer.shard_id),
        ).map_values(
            |response: GetRecordsResponseView|
                ShardConsumerMessageView::NewShards(consumer.announced(response.child_shards->0)),
        ),
    decreases events.len(),
{
    let is_kind = |message: ShardConsumerMessageView| message is NewShards;
    let keep = |response: GetRecordsResponseView| brings_child_of(response, consumer.shard_id);
    let tell = |response: GetRecordsResponseView|
        ShardConsumerMessageView::NewShards(consumer.announced(response.child_shards->0));
    let goal = responses(events).filter(keep).map_values(tell);
    if events.len() > 0 {
        let before = events.drop_last();
        let old = owed(consumer, before);
        let gained = owed_for(consumer, events.last());
        lemma_owed_tells_children(consumer, before);
        Seq::filter_distributes_over_add(old, gained, is_kind);
        match events.last() {
            ShardConsumerEventView::Records(Ok(response)) => {
                lemma_filter_map_push(responses(before), keep, tell, response);
                lemma_children_told(consumer, response);
                assert(old.filter(is_kind) + gained.filter(is_kind) =~= goal);
            },
            _ => {
                lemma_filter_of_few(gained, is_kind);
                assert(old.filter(is_kind) + gained.filter(is_kind) =~= goal);
            },
        }
    } else {
        lemma_filter_of_few(owed(consumer, events), is_kind);
        lemma_filter_of_few(responses(events), keep);
        assert(owed(consumer, events).filter(is_kind) =~= goal);
    }
}

/// Of the messages of a response, one hands on its records, if it has any.
proof fn lemma_records_told(consumer: ShardConsumerView, response: GetRecordsResponseView)
    ensures
        consumer.messages(response).filter(|message: ShardConsumerMessageView| message is Records)
            == if response.records.len() > 0 {
            seq![
                ShardConsumerMessageView::Records {
                    shard_id: consumer.shard_id,
                    records: response.records,
                    lag_millis: response.millis_behind_latest,
                },
            ]
        } else {
            seq![]
        },
{
    let is_kind = |message: ShardConsumerMessageView| message is Records;
    lemma_filter_of_three(
        consumer.records_message(response),
        consumer.new_shards_message(response),
        consumer.last_message(response),
        is_kind,
    );
}

/// Of the messages of a response, one announces children, if it brings any of the shard.
proof fn lemma_children_told(consumer: ShardConsumerView, response: GetRecordsResponseView)
    ensures
        consumer.messages(response).filter(|message: ShardConsumerMessageView| message is NewShards)
            == if brings_child_of(response, consumer.shard_id) {
            seq![
                ShardConsumerMessageView::NewShards(consumer.announced(response.child_shards->0)),
            ]
        } else {
            seq![]
        },
{
    let is_kind = |message: ShardConsumerMessageView| message is NewShards;
    lemma_filter_of_three(
        consumer.records_message(response),
        consumer.new_shards_message(response),
        consumer.last_message(response),
        is_kind,
    );
    lemma_brings_child_of(consumer, response);
}

/// A filtered and mapped sequence grows with the sequence that it is taken from.
proof fn lemma_filter_map_push<A, B>(
    s: Seq<A>,
    keep: spec_fn(A) -> bool,
    f: spec_fn(A) -> B,
    a: A,
)
    ensures
        s.push(a).filter(keep).map_values(f) == if keep(a) {
            s.filter(keep).map_values(f).push(f(a))
        } else {
            s.filter(keep).map_values(f)
        },
{
    reveal(Seq::filter);
    assert(s.push(a).drop_last() =~= s);
    assert(s.filter(keep).push(a).map_values(f) =~= s.filter(keep).map_values(f).push(f(a)));
}

/// A filter of three sequences of one element at most keeps what it keeps of each.
proof fn lemma_filter_of_three<A>(a: Seq<A>, b: Seq<A>, c: Seq<A>, keep: spec_fn(A) -> bool)
    requires
        a.len() <= 1,
        b.len() <= 1,
        c.len() <= 1,
    ensures
        (a + b + c).filter(keep) == (if a.len() == 1 && keep(a[0]) {
            a
        } else {
            seq![]
        }) + (if b.len() == 1 && keep(b[0]) {
            b
        } else {
            seq![]
        }) + (if c.len() == 1 && keep(c[0]) {
            c
        } else {
            seq![]
        }),
{
    Seq::filter_distributes_over_add(a + b, c, keep);
    Seq::filter_distributes_over_add(a, b, keep);
    lemma_filter_of_few(a, keep);
    lemma_filter_of_few(b, keep);
    lemma_filter_of_few(c, keep);
}

/// A filter keeps a single element or drops it.
proof fn lemma_filter_of_few<A>(s: Seq<A>, keep: spec_fn(A) -> bool)
    requires
        s.len() <= 1,
    ensures
        s.filter(keep) == if s.len() == 1 && keep(s[0]) {
            s
        } else {
            seq![]
        },
{
    reveal(Seq::filter);
    reveal_with_fuel(Seq::filter, 2);
    if s.len() == 1 {
        assert(s.drop_last() =~= seq![]);
        assert(s.drop_last().filter(keep) =~= seq![]);
        assert(s =~= seq![s[0]]);
    }
    assert(s.filter(keep) =~= if s.len() == 1 && keep(s[0]) {
        s
    } else {
        seq![]
    });
}

} // verus!
