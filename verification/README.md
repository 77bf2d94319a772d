# quickwit

Parts of the Quickwit search engine, verified with Verus.

- `src/kinesis` consumes a shard of a Kinesis stream. `shard_consumer` says what a consumer makes of
  an answer from Kinesis, `run` is the state machine that takes it from its first request to its
  end, and `laws` proves what holds of every run.
- `src/elasticsearch_api` holds the errors of the Elasticsearch-compatible API.
- `src/models.rs` holds names that the indexing models share.
- `app` performs what the library decides: it talks to Kinesis, waits for ticks, sends the messages,
  and puts the errors on the wire.

Three types of other crates are carried through the library without being looked into:
`rusoto_kinesis::Record`, `hyper::StatusCode` and `serde_json::Value`.
