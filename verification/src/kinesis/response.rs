//! What Kinesis answers when it is asked for the records of a shard.

use rusoto_kinesis::Record;
use vstd::prelude::*;

verus! {

/// The record of the `rusoto_kinesis` crate. Nothing is claimed of it: the library carries the
/// records of a response into the message that hands them on.
#[verifier::external_type_specification]
#[verifier::external_body]
pub struct ExRecord(Record);

/// The contents of a list of strings.
pub open spec fn string_views(strings: Seq<String>) -> Seq<Seq<char>> {
    strings.map_values(|string: String| string@)
}

/// A shard that came out of the split or the merge of other shards.
#[derive(Debug)]
pub struct ChildShard {
    pub shard_id: String,
    pub parent_shards: Vec<String>,
}

/// The contents of a [`ChildShard`].
pub struct ChildShardView {
    pub shard_id: Seq<char>,
    pub parent_shards: Seq<Seq<char>>,
}

impl View for ChildShard {
    type V = ChildShardView;

    open spec fn view(&self) -> ChildShardView {
        ChildShardView {
            shard_id: self.shard_id@,
            parent_shards: string_views(self.parent_shards@),
        }
    }
}

/// The answer to a request for the records at a shard iterator.
#[derive(Debug)]
pub struct GetRecordsResponse {
    /// The records, in the order of the shard.
    pub records: Vec<Record>,
    /// The shards that follow this one, where the answer reaches its end.
    pub child_shards: Option<Vec<ChildShard>>,
    /// How far the answer is behind the tip of the shard.
    pub millis_behind_latest: Option<i64>,
    /// Where to read on, or nothing once the shard is closed and read to its end.
    pub next_shard_iterator: Option<String>,
}

/// The contents of a [`GetRecordsResponse`].
pub struct GetRecordsResponseView {
    pub records: Seq<Record>,
    pub child_shards: Option<Seq<ChildShardView>>,
    pub millis_behind_latest: Option<i64>,
    pub next_shard_iterator: Option<Seq<char>>,
}

/// The contents of a list of child shards.
pub open spec fn child_shard_views(children: Seq<ChildShard>) -> Seq<ChildShardView> {
    children.map_values(|child: ChildShard| child@)
}

impl View for GetRecordsResponse {
    type V = GetRecordsResponseView;

    open spec fn view(&self) -> GetRecordsResponseView {
        GetRecordsResponseView {
            records: self.records@,
            child_shards: match self.child_shards {
                Some(children) => Some(child_shard_views(children@)),
                None => None,
            },
            millis_behind_latest: self.millis_behind_latest,
            next_shard_iterator: self.next_shard_iterator.deep_view(),
        }
    }
}

} // verus!
