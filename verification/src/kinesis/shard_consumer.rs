//! The consumer of one shard: what it is made with, and what it makes of an answer from Kinesis.

use vstd::prelude::*;

use crate::kinesis::message::{message_views, ShardConsumerMessage, ShardConsumerMessageView};
use crate::kinesis::response::{
    child_shard_views, string_views, ChildShard, ChildShardView, GetRecordsResponse,
    GetRecordsResponseView,
};

verus! {

/// Consumes one shard of a stream from its horizon, or from behind a given record.
#[derive(Debug)]
pub struct ShardConsumer {
    pub(crate) stream_name: String,
    pub(crate) shard_id: String,
    pub(crate) starting_sequence_number: Option<String>,
    pub(crate) eof_enabled: bool,
}

/// The contents of a [`ShardConsumer`].
pub struct ShardConsumerView {
    /// The stream that the shard belongs to.
    pub stream_name: Seq<char>,
    /// The shard to consume.
    pub shard_id: Seq<char>,
    /// The record behind which to start, if not at the horizon of the shard.
    pub starting_sequence_number: Option<Seq<char>>,
    /// Whether to stop at the tip of the shard.
    pub eof_enabled: bool,
}

impl ShardConsumerView {
    /// Whether this consumer announces the child shard: whether its shard is the first parent of
    /// the child. Where two shards are merged, the child has two parents.
    pub open spec fn announces(self, child: ChildShardView) -> bool {
        child.parent_shards.len() > 0 && child.parent_shards[0] == self.shard_id
    }

    /// The ids of the child shards that this consumer announces, in the order of the children.
    pub open spec fn announced(self, children: Seq<ChildShardView>) -> Seq<Seq<char>> {
        children.filter(|child: ChildShardView| self.announces(child)).map_values(
            |child: ChildShardView| child.shard_id,
        )
    }

    /// The message that hands on the records of a response, if it has any.
    pub open spec fn records_message(self, response: GetRecordsResponseView) -> Seq<
        ShardConsumerMessageView,
    > {
        if response.records.len() == 0 {
            seq![]
        } else {
            seq![
                ShardConsumerMessageView::Records {
                    shard_id: self.shard_id,
                    records: response.records,
                    lag_millis: response.millis_behind_latest,
                },
            ]
        }
    }

    /// The message that announces the child shards of a response, if there are any to announce.
    pub open spec fn new_shards_message(self, response: GetRecordsResponseView) -> Seq<
        ShardConsumerMessageView,
    > {
        match response.child_shards {
            Some(children) if self.announced(children).len() > 0 => seq![
                ShardConsumerMessageView::NewShards(self.announced(children)),
            ],
            _ => seq![],
        }
    }

    /// Whether the consumer stops behind this response because it is at the tip of the shard.
    pub open spec fn reaches_eof(self, response: GetRecordsResponseView) -> bool {
        self.eof_enabled && response.millis_behind_latest == Some(0i64)
    }

    /// The last message of the consumer, if the response is the last one that it asks for.
    pub open spec fn last_message(self, response: GetRecordsResponseView) -> Seq<
        ShardConsumerMessageView,
    > {
        if self.reaches_eof(response) {
            seq![ShardConsumerMessageView::ShardEOF(self.shard_id)]
        } else {
            self.closed_message(response.next_shard_iterator)
        }
    }

    /// The message that reports the end of the shard, if there is no iterator to read on from.
    pub open spec fn closed_message(self, shard_iterator: Option<Seq<char>>) -> Seq<
        ShardConsumerMessageView,
    > {
        if shard_iterator is None {
            seq![ShardConsumerMessageView::ShardClosed(self.shard_id)]
        } else {
            seq![]
        }
    }

    /// Everything that the consumer tells its sink about a response, in order.
    pub open spec fn messages(self, response: GetRecordsResponseView) -> Seq<
        ShardConsumerMessageView,
    > {
        self.records_message(response) + self.new_shards_message(response) + self.last_message(
            response,
        )
    }

    /// Where the consumer reads on behind a response, or nothing if it stops there.
    pub open spec fn next_shard_iterator(self, response: GetRecordsResponseView) -> Option<
        Seq<char>,
    > {
        if self.reaches_eof(response) {
            None
        } else {
            response.next_shard_iterator
        }
    }
}

impl View for ShardConsumer {
    type V = ShardConsumerView;

    open(crate) spec fn view(&self) -> ShardConsumerView {
        ShardConsumerView {
            stream_name: self.stream_name@,
            shard_id: self.shard_id@,
            starting_sequence_number: self.starting_sequence_number.deep_view(),
            eof_enabled: self.eof_enabled,
        }
    }
}

/// A filtered sequence grows with the sequence that it is taken from.
proof fn lemma_filter_push<A>(s: Seq<A>, keep: spec_fn(A) -> bool, a: A)
    ensures
        s.push(a).filter(keep) == if keep(a) {
            s.filter(keep).push(a)
        } else {
            s.filter(keep)
        },
{
    reveal(Seq::filter);
    assert(s.push(a).drop_last() =~= s);
}

impl ShardConsumer {
    /// Returns the consumer of a shard. It starts behind the record with the starting sequence
    /// number, or at the horizon of the shard where none is given, and stops at the tip of the
    /// shard if `eof_enabled` is set.
    pub fn new(
        stream_name: String,
        shard_id: String,
        starting_sequence_number: Option<String>,
        eof_enabled: bool,
    ) -> (consumer: Self)
        ensures
            consumer@ == (ShardConsumerView {
                stream_name: stream_name@,
                shard_id: shard_id@,
                starting_sequence_number: starting_sequence_number.deep_view(),
                eof_enabled,
            }),
    {
        ShardConsumer { stream_name, shard_id, starting_sequence_number, eof_enabled }
    }

    /// Returns the ids of the child shards whose first parent is the shard that is consumed. When
    /// two shards are merged, this keeps their consumers from announcing the same child twice.
    pub fn announced_shards(&self, children: &Vec<ChildShard>) -> (shard_ids: Vec<String>)
        ensures
            string_views(shard_ids@) == self@.announced(child_shard_views(children@)),
    {
        let ghost views = child_shard_views(children@);
        let ghost keep = |child: ChildShardView| self@.announces(child);
        let ghost id = |child: ChildShardView| child.shard_id;
        let mut shard_ids: Vec<String> = Vec::new();
        proof {
            reveal(Seq::filter);
            assert(string_views(shard_ids@) =~= self@.announced(views.take(0)));
        }
        for i in 0..children.len()
            invariant
                views == child_shard_views(children@),
                keep == (|child: ChildShardView| self@.announces(child)),
                id == (|child: ChildShardView| child.shard_id),
                string_views(shard_ids@) == self@.announced(views.take(i as int)),
        {
            let child = &children[i];
            let ghost before = shard_ids@;
            let announced = child.parent_shards.len() > 0 && child.parent_shards[0]
                == self.shard_id;
            if announced {
                shard_ids.push(child.shard_id.clone());
            }
            proof {
                assert(views.take(i + 1) =~= views.take(i as int).push(child@));
                lemma_filter_push(views.take(i as int), keep, child@);
                assert(announced == keep(child@));
                let kept = views.take(i as int).filter(keep);
                assert(kept.push(child@).map_values(id) =~= kept.map_values(id).push(
                    child.shard_id@,
                ));
                assert(announced ==> string_views(shard_ids@) =~= string_views(before).push(
                    child.shard_id@,
                ));
            }
        }
        assert(views.take(views.len() as int) =~= views);
        shard_ids
    }

    /// Returns what to tell the sink about a response, in order, and where to read on, or nothing
    /// if the consumer stops there.
    pub fn handle_response(&self, response: GetRecordsResponse) -> (handled: (
        Vec<ShardConsumerMessage>,
        Option<String>,
    ))
        ensures
            message_views(handled.0@) == self@.messages(response@),
            handled.1.deep_view() == self@.next_shard_iterator(response@),
    {
        let mut messages: Vec<ShardConsumerMessage> = Vec::new();
        let is_eof = self.eof_enabled && response.millis_behind_latest.unwrap_or(-1) == 0;
        if response.records.len() > 0 {
            messages.push(
                ShardConsumerMessage::Records {
                    shard_id: self.shard_id.clone(),
                    records: response.records,
                    lag_millis: response.millis_behind_latest,
                },
            );
        }
        assert(message_views(messages@) =~= self@.records_message(response@));
        if let Some(children) = response.child_shards {
            let shard_ids = self.announced_shards(&children);
            assert(string_views(shard_ids@).len() == shard_ids@.len());
            if shard_ids.len() > 0 {
                messages.push(ShardConsumerMessage::NewShards(shard_ids));
            }
        }
        assert(message_views(messages@) =~= self@.records_message(response@)
            + self@.new_shards_message(response@));
        let next_shard_iterator = if is_eof {
            messages.push(ShardConsumerMessage::ShardEOF(self.shard_id.clone()));
            None
        } else {
            if response.next_shard_iterator.is_none() {
                messages.push(ShardConsumerMessage::ShardClosed(self.shard_id.clone()));
            }
            response.next_shard_iterator
        };
        assert(message_views(messages@) =~= self@.messages(response@));
        (messages, next_shard_iterator)
    }
}

} // verus!
