//! Consuming the shards of a Kinesis stream.

pub mod laws;
pub mod message;
pub mod operation_laws;
pub mod response;
pub mod response_laws;
pub mod run;
pub mod shard_consumer;
