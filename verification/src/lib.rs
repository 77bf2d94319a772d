//! Parts of the Quickwit search engine, verified: the consumer of a Kinesis shard, and the errors of
//! the Elasticsearch-compatible API.

pub mod elasticsearch_api;
pub mod kinesis;
pub mod models;
