//! What a shard consumer tells its sink.

use rusoto_kinesis::Record;
use vstd::prelude::*;

use crate::kinesis::response::string_views;

verus! {

/// A message from a shard consumer.
#[derive(Debug)]
pub enum ShardConsumerMessage {
    /// Shards that follow the one that is being consumed.
    NewShards(Vec<String>),
    /// Records of a shard.
    Records {
        shard_id: String,
        records: Vec<Record>,
        lag_millis: Option<i64>,
    },
    /// A shard was closed, and everything in it has been handed on.
    ShardClosed(String),
    /// The tip of a shard was reached.
    ShardEOF(String),
}

/// The contents of a [`ShardConsumerMessage`].
pub enum ShardConsumerMessageView {
    NewShards(Seq<Seq<char>>),
    Records { shard_id: Seq<char>, records: Seq<Record>, lag_millis: Option<i64> },
    ShardClosed(Seq<char>),
    ShardEOF(Seq<char>),
}

impl View for ShardConsumerMessage {
    type V = ShardConsumerMessageView;

    open spec fn view(&self) -> ShardConsumerMessageView {
        match *self {
            ShardConsumerMessage::NewShards(shard_ids) => ShardConsumerMessageView::NewShards(
                string_views(shard_ids@),
            ),
            ShardConsumerMessage::Records { shard_id, records, lag_millis } =>
                ShardConsumerMessageView::Records {
                shard_id: shard_id@,
                records: records@,
                lag_millis,
            },
            ShardConsumerMessage::ShardClosed(shard_id) => ShardConsumerMessageView::ShardClosed(
                shard_id@,
            ),
            ShardConsumerMessage::ShardEOF(shard_id) => ShardConsumerMessageView::ShardEOF(
                shard_id@,
            ),
        }
    }
}

/// The contents of a list of messages.
pub open spec fn message_views(messages: Seq<ShardConsumerMessage>) -> Seq<
    ShardConsumerMessageView,
> {
    messages.map_values(|message: ShardConsumerMessage| message@)
}

impl ShardConsumerMessageView {
    /// Whether the message is the last one of its shard consumer.
    pub open spec fn is_last(self) -> bool {
        self is ShardClosed || self is ShardEOF
    }

    /// The records that the message hands on.
    pub open spec fn records(self) -> Seq<Record> {
        match self {
            ShardConsumerMessageView::Records { records, .. } => records,
            _ => seq![],
        }
    }
}

} // verus!
