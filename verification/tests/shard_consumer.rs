use quickwit::kinesis::message::ShardConsumerMessage;
use quickwit::kinesis::response::{ChildShard, GetRecordsResponse};
use quickwit::kinesis::run::{
    ShardConsumerAction, ShardConsumerEvent, ShardConsumerRun, TICK_PERIOD_MILLIS,
};
use quickwit::kinesis::shard_consumer::ShardConsumer;
use rusoto_kinesis::Record;

/// A stream in memory that answers as Kinesis does.
struct Stream {
    name: String,
    shards: Vec<Shard>,
}

struct Shard {
    shard_id: String,
    records: Vec<Record>,
    /// The parents of each child, with its id, once the shard is closed.
    children: Option<Vec<(String, Vec<String>)>>,
}

fn make_shard_id(index: usize) -> String {
    format!("shardId-{:012}", index)
}

fn make_record(shard_index: usize, record_index: usize, data: &'static str) -> Record {
    Record {
        data: data.into(),
        partition_key: "key".to_string(),
        sequence_number: format!("{}-{}", shard_index, record_index),
        ..Default::default()
    }
}

/// Opens a stream with the given number of shards.
fn setup(name: &str, num_shards: usize) -> Stream {
    let mut shards = Vec::new();
    for index in 0..num_shards {
        shards.push(Shard {
            shard_id: make_shard_id(index),
            records: Vec::new(),
            children: None,
        });
    }
    Stream {
        name: name.to_string(),
        shards,
    }
}

impl Stream {
    /// Puts records into shards, and returns the sequence numbers of the records.
    fn put_records(&mut self, records: &[(usize, &'static str)]) -> Vec<String> {
        let mut sequence_numbers = Vec::new();
        for (shard_index, data) in records {
            let shard = &mut self.shards[*shard_index];
            let record = make_record(*shard_index, shard.records.len(), data);
            sequence_numbers.push(record.sequence_number.clone());
            shard.records.push(record);
        }
        sequence_numbers
    }

    /// Closes shards in favour of children that have all of them as parents.
    fn replace_shards(&mut self, parents: &[usize], num_children: usize) {
        let parent_ids: Vec<String> = parents.iter().map(|index| make_shard_id(*index)).collect();
        let mut children = Vec::new();
        for index in 0..num_children {
            children.push((make_shard_id(self.shards.len() + index), parent_ids.clone()));
        }
        for index in parents {
            self.shards[*index].children = Some(children.clone());
        }
        for (shard_id, _) in children {
            self.shards.push(Shard {
                shard_id,
                records: Vec::new(),
                children: None,
            });
        }
    }

    fn get_shard_iterator(
        &self,
        stream_name: &str,
        shard_id: &str,
        starting_sequence_number: Option<String>,
    ) -> Result<Option<String>, String> {
        if stream_name != self.name {
            return Err(format!("no stream {}", stream_name));
        }
        let shard_index = match self.shards.iter().position(|shard| shard.shard_id == shard_id) {
            Some(shard_index) => shard_index,
            None => return Err(format!("no shard {}", shard_id)),
        };
        let offset = match starting_sequence_number {
            Some(sequence_number) => {
                let position = self.shards[shard_index]
                    .records
                    .iter()
                    .position(|record| record.sequence_number == sequence_number);
                position.unwrap() + 1
            }
            None => 0,
        };
        Ok(Some(format!("{}/{}", shard_index, offset)))
    }

    fn get_records(&self, shard_iterator: &str) -> Result<GetRecordsResponse, String> {
        let parts: Vec<&str> = shard_iterator.split('/').collect();
        let shard_index: usize = parts[0].parse().unwrap();
        let offset: usize = parts[1].parse().unwrap();
        let shard = &self.shards[shard_index];
        let next_shard_iterator = match &shard.children {
            Some(_) => None,
            None => Some(format!("{}/{}", shard_index, shard.records.len())),
        };
        let child_shards = match &shard.children {
            Some(children) => Some(
                children
                    .iter()
                    .map(|(shard_id, parent_shards)| make_child(shard_id, parent_shards))
                    .collect(),
            ),
            None => None,
        };
        Ok(GetRecordsResponse {
            records: shard.records[offset..].to_vec(),
            child_shards,
            millis_behind_latest: Some(0),
            next_shard_iterator,
        })
    }
}

fn make_child(shard_id: &str, parent_shards: &[String]) -> ChildShard {
    ChildShard {
        shard_id: shard_id.to_string(),
        parent_shards: parent_shards.to_vec(),
    }
}

/// Drives a consumer against the stream, and returns what it sent and how it ended.
fn drive(stream: &Stream, consumer: &ShardConsumer) -> (Vec<ShardConsumerMessage>, Result<(), String>) {
    let mut messages = Vec::new();
    let (mut run, mut action) = consumer.run();
    loop {
        let event = match action {
            ShardConsumerAction::GetShardIterator {
                stream_name,
                shard_id,
                starting_sequence_number,
            } => ShardConsumerEvent::ShardIterator(stream.get_shard_iterator(
                &stream_name,
                &shard_id,
                starting_sequence_number,
            )),
            ShardConsumerAction::WaitForTick { period_millis } => {
                assert_eq!(period_millis, 200);
                ShardConsumerEvent::Ticked
            }
            ShardConsumerAction::GetRecords { shard_iterator } => {
                ShardConsumerEvent::Records(stream.get_records(&shard_iterator))
            }
            ShardConsumerAction::Send(message) => {
                messages.push(message);
                ShardConsumerEvent::Sent(Ok(()))
            }
            ShardConsumerAction::Return(result) => return (messages, result),
        };
        assert!(run.accepts(&event));
        let (next_run, next_action) = run.step(event);
        run = next_run;
        action = next_action;
    }
}

type Event = ShardConsumerEvent<String>;
type Action = ShardConsumerAction<String>;

fn consumer(shard_id: &str, eof_enabled: bool) -> ShardConsumer {
    ShardConsumer::new("stream".to_string(), shard_id.to_string(), None, eof_enabled)
}

/// Starts a run, and brings it to where it awaits the answer to its first request for records.
fn awaiting_records(consumer: &ShardConsumer) -> ShardConsumerRun<'_> {
    let (run, _action) = consumer.run::<String>();
    let (run, _action) = run.step(Event::ShardIterator(Ok(Some("first".to_string()))));
    let (run, action) = run.step(Event::Ticked);
    assert!(matches!(action, Action::GetRecords { shard_iterator } if shard_iterator == "first"));
    run
}

fn response(next_shard_iterator: Option<&str>, millis_behind_latest: Option<i64>) -> GetRecordsResponse {
    GetRecordsResponse {
        records: Vec::new(),
        child_shards: None,
        millis_behind_latest,
        next_shard_iterator: next_shard_iterator.map(|shard_iterator| shard_iterator.to_string()),
    }
}

#[test]
fn test_shard_eof() {
    let stream = setup("test-shard-eof", 1);
    let shard_id_0 = make_shard_id(0);
    let shard_consumer =
        ShardConsumer::new("test-shard-eof".to_string(), shard_id_0.clone(), None, true);
    let (messages, result) = drive(&stream, &shard_consumer);
    assert_eq!(messages.len(), 1);
    assert!(matches!(
        &messages[0],
        ShardConsumerMessage::ShardEOF(shard_id) if *shard_id == shard_id_0
    ));
    assert!(result.is_ok());
}

#[test]
fn test_start_at_horizon() {
    let mut stream = setup("test-start-at-horizon", 1);
    stream.put_records(&[(0, "Record #00"), (0, "Record #01")]);
    let shard_id_0 = make_shard_id(0);
    let shard_consumer =
        ShardConsumer::new("test-start-at-horizon".to_string(), shard_id_0.clone(), None, true);
    let (messages, result) = drive(&stream, &shard_consumer);
    assert_eq!(messages.len(), 2);
    assert!(matches!(
        &messages[0],
        ShardConsumerMessage::Records { shard_id, records, lag_millis: _ }
            if *shard_id == shard_id_0 && records.len() == 2
    ));
    assert!(matches!(
        &messages[1],
        ShardConsumerMessage::ShardEOF(shard_id) if *shard_id == shard_id_0
    ));
    assert!(result.is_ok());
}

#[test]
fn test_start_after_sequence_number() {
    let mut stream = setup("test-start-after-sequence-number", 1);
    let sequence_numbers = stream.put_records(&[(0, "Record #00"), (0, "Record #01")]);
    let shard_id_0 = make_shard_id(0);
    let starting_sequence_number = sequence_numbers.first();
    let shard_consumer = ShardConsumer::new(
        "test-start-after-sequence-number".to_string(),
        shard_id_0.clone(),
        starting_sequence_number.cloned(),
        true,
    );
    let (messages, result) = drive(&stream, &shard_consumer);
    assert_eq!(messages.len(), 2);
    assert!(matches!(
        &messages[0],
        ShardConsumerMessage::Records { shard_id, records, lag_millis: _ }
            if *shard_id == shard_id_0 && records.len() == 1
    ));
    assert!(matches!(
        &messages[0],
        ShardConsumerMessage::Records { records, .. } if &records[0].data[..] == b"Record #01"
    ));
    assert!(matches!(
        &messages[1],
        ShardConsumerMessage::ShardEOF(shard_id) if *shard_id == shard_id_0
    ));
    assert!(result.is_ok());
}

#[test]
fn test_merge_shards() {
    let mut stream = setup("test-merge-shards", 2);
    let shard_id_0 = make_shard_id(0);
    let shard_id_1 = make_shard_id(1);
    stream.replace_shards(&[0, 1], 1);
    {
        let shard_consumer =
            ShardConsumer::new("test-merge-shards".to_string(), shard_id_0.clone(), None, false);
        let (messages, result) = drive(&stream, &shard_consumer);
        assert_eq!(messages.len(), 2);
        assert!(matches!(
            &messages[0],
            ShardConsumerMessage::NewShards(shard_ids) if *shard_ids == vec![make_shard_id(2)]
        ));
        assert!(matches!(
            &messages[1],
            ShardConsumerMessage::ShardClosed(shard_id) if *shard_id == shard_id_0
        ));
        assert!(result.is_ok());
    }
    {
        let shard_consumer =
            ShardConsumer::new("test-merge-shards".to_string(), shard_id_1.clone(), None, false);
        let (messages, result) = drive(&stream, &shard_consumer);
        assert_eq!(messages.len(), 1);
        assert!(matches!(
            &messages[0],
            ShardConsumerMessage::ShardClosed(shard_id) if *shard_id == shard_id_1
        ));
        assert!(result.is_ok());
    }
}

#[test]
fn test_split_shard() {
    let mut stream = setup("test-split-shard", 1);
    let shard_id_0 = make_shard_id(0);
    stream.replace_shards(&[0], 2);
    let shard_consumer =
        ShardConsumer::new("test-split-shard".to_string(), shard_id_0.clone(), None, false);
    let (messages, result) = drive(&stream, &shard_consumer);
    assert_eq!(messages.len(), 2);
    assert!(matches!(
        &messages[0],
        ShardConsumerMessage::NewShards(shard_ids)
            if *shard_ids == vec![make_shard_id(1), make_shard_id(2)]
    ));
    assert!(matches!(
        &messages[1],
        ShardConsumerMessage::ShardClosed(shard_id) if *shard_id == shard_id_0
    ));
    assert!(result.is_ok());
}

#[test]
fn test_first_action_asks_for_the_shard_iterator() {
    let shard_consumer = ShardConsumer::new(
        "stream".to_string(),
        "shard".to_string(),
        Some("42".to_string()),
        false,
    );
    let (_run, action) = shard_consumer.run::<String>();
    assert!(matches!(
        action,
        Action::GetShardIterator { stream_name, shard_id, starting_sequence_number }
            if stream_name == "stream"
                && shard_id == "shard"
                && starting_sequence_number == Some("42".to_string())
    ));
}

#[test]
fn test_tick_period() {
    assert_eq!(TICK_PERIOD_MILLIS, 200);
    let shard_consumer = consumer("shard", true);
    let (run, _action) = shard_consumer.run::<String>();
    let (_run, action) = run.step(Event::ShardIterator(Ok(Some("first".to_string()))));
    assert!(matches!(action, Action::WaitForTick { period_millis: 200 }));
}

#[test]
fn test_no_iterator_to_start_from_closes_the_shard() {
    let shard_consumer = consumer("shard", true);
    let (run, _action) = shard_consumer.run::<String>();
    let (run, action) = run.step(Event::ShardIterator(Ok(None)));
    assert!(matches!(
        action,
        Action::Send(ShardConsumerMessage::ShardClosed(shard_id)) if shard_id == "shard"
    ));
    let (_run, action) = run.step(Event::Sent(Ok(())));
    assert!(matches!(action, Action::Return(Ok(()))));
}

#[test]
fn test_empty_response_sends_nothing_and_reads_on() {
    let shard_consumer = consumer("shard", true);
    let run = awaiting_records(&shard_consumer);
    let (run, action) = run.step(Event::Records(Ok(response(Some("second"), Some(7)))));
    assert!(matches!(action, Action::WaitForTick { .. }));
    let (_run, action) = run.step(Event::Ticked);
    assert!(matches!(action, Action::GetRecords { shard_iterator } if shard_iterator == "second"));
}

#[test]
fn test_tip_without_eof_reads_on() {
    let shard_consumer = consumer("shard", false);
    let run = awaiting_records(&shard_consumer);
    let (_run, action) = run.step(Event::Records(Ok(response(Some("second"), Some(0)))));
    assert!(matches!(action, Action::WaitForTick { .. }));
}

#[test]
fn test_unknown_lag_is_no_tip() {
    let shard_consumer = consumer("shard", true);
    let run = awaiting_records(&shard_consumer);
    let (_run, action) = run.step(Event::Records(Ok(response(Some("second"), None))));
    assert!(matches!(action, Action::WaitForTick { .. }));
    let shard_consumer = consumer("shard", true);
    let run = awaiting_records(&shard_consumer);
    let (_run, action) = run.step(Event::Records(Ok(response(Some("second"), Some(-1)))));
    assert!(matches!(action, Action::WaitForTick { .. }));
}

#[test]
fn test_tip_of_a_closed_shard_is_reported_as_eof_alone() {
    let shard_consumer = consumer("shard", true);
    let run = awaiting_records(&shard_consumer);
    let (run, action) = run.step(Event::Records(Ok(response(None, Some(0)))));
    assert!(matches!(
        action,
        Action::Send(ShardConsumerMessage::ShardEOF(shard_id)) if shard_id == "shard"
    ));
    let (run, action) = run.step(Event::Sent(Ok(())));
    assert!(matches!(action, Action::Return(Ok(()))));
    assert!(!run.accepts(&Event::Sent(Ok(()))));
}

#[test]
fn test_messages_of_one_response_in_order() {
    let full_response = || GetRecordsResponse {
        records: vec![make_record(0, 0, "Record #00")],
        child_shards: Some(vec![make_child("child", &["shard".to_string()])]),
        millis_behind_latest: Some(3),
        next_shard_iterator: None,
    };
    let (messages, next_shard_iterator) = consumer("shard", true).handle_response(full_response());
    assert_eq!(messages.len(), 3);
    assert_eq!(next_shard_iterator, None);

    let shard_consumer = consumer("shard", true);
    let run = awaiting_records(&shard_consumer);
    let (run, action) = run.step(Event::Records(Ok(full_response())));
    assert!(matches!(
        action,
        Action::Send(ShardConsumerMessage::Records { shard_id, records, lag_millis: Some(3) })
            if shard_id == "shard" && records == vec![make_record(0, 0, "Record #00")]
    ));
    let (run, action) = run.step(Event::Sent(Ok(())));
    assert!(matches!(
        action,
        Action::Send(ShardConsumerMessage::NewShards(shard_ids)) if shard_ids == vec!["child".to_string()]
    ));
    let (run, action) = run.step(Event::Sent(Ok(())));
    assert!(matches!(
        action,
        Action::Send(ShardConsumerMessage::ShardClosed(shard_id)) if shard_id == "shard"
    ));
    let (_run, action) = run.step(Event::Sent(Ok(())));
    assert!(matches!(action, Action::Return(Ok(()))));
}

#[test]
fn test_announced_shards_by_first_parent() {
    let parents = |ids: &[&str]| -> Vec<String> { ids.iter().map(|id| id.to_string()).collect() };
    let children = vec![
        make_child("c0", &parents(&["a"])),
        make_child("c1", &parents(&["b", "a"])),
        make_child("c2", &parents(&[])),
        make_child("c3", &parents(&["a", "b"])),
    ];
    assert_eq!(
        consumer("a", true).announced_shards(&children),
        vec!["c0".to_string(), "c3".to_string()]
    );
    assert_eq!(consumer("b", true).announced_shards(&children), vec!["c1".to_string()]);
    assert!(consumer("c", true).announced_shards(&children).is_empty());
}

#[test]
fn test_children_of_other_shards_send_nothing() {
    let shard_consumer = consumer("shard", true);
    let run = awaiting_records(&shard_consumer);
    let (_run, action) = run.step(Event::Records(Ok(GetRecordsResponse {
        records: Vec::new(),
        child_shards: Some(vec![make_child("child", &["other".to_string(), "shard".to_string()])]),
        millis_behind_latest: None,
        next_shard_iterator: Some("second".to_string()),
    })));
    assert!(matches!(action, Action::WaitForTick { .. }));
}

#[test]
fn test_failures_end_the_run() {
    let error = || "failure".to_string();

    let shard_consumer = consumer("shard", true);
    let (run, _action) = shard_consumer.run::<String>();
    let (_run, action) = run.step(Event::ShardIterator(Err(error())));
    assert!(matches!(action, Action::Return(Err(e)) if e == "failure"));

    let shard_consumer = consumer("shard", true);
    let run = awaiting_records(&shard_consumer);
    let (_run, action) = run.step(Event::Records(Err(error())));
    assert!(matches!(action, Action::Return(Err(e)) if e == "failure"));

    let shard_consumer = consumer("shard", true);
    let run = awaiting_records(&shard_consumer);
    let (run, action) = run.step(Event::Records(Ok(GetRecordsResponse {
        records: vec![make_record(0, 0, "Record #00")],
        child_shards: None,
        millis_behind_latest: Some(0),
        next_shard_iterator: None,
    })));
    assert!(matches!(action, Action::Send(ShardConsumerMessage::Records { .. })));
    let (run, action) = run.step(Event::Sent(Err(error())));
    assert!(matches!(action, Action::Return(Err(e)) if e == "failure"));
    assert!(!run.accepts(&Event::Sent(Ok(()))));
    assert!(!run.accepts(&Event::Ticked));
}

#[test]
fn test_unknown_stream_is_an_error() {
    let stream = setup("stream", 1);
    let shard_consumer =
        ShardConsumer::new("other".to_string(), make_shard_id(0), None, true);
    let (messages, result) = drive(&stream, &shard_consumer);
    assert!(messages.is_empty());
    assert_eq!(result, Err("no stream other".to_string()));
}

#[test]
fn test_accepts_what_the_last_action_can_come_to() {
    let shard_consumer = consumer("shard", true);
    let (run, _action) = shard_consumer.run::<String>();
    assert!(run.accepts(&Event::ShardIterator(Ok(None))));
    assert!(!run.accepts(&Event::Ticked));
    assert!(!run.accepts(&Event::Sent(Ok(()))));
    let shard_consumer = consumer("shard", true);
    let run = awaiting_records(&shard_consumer);
    assert!(run.accepts(&Event::Records(Err("failure".to_string()))));
    assert!(!run.accepts(&Event::ShardIterator(Ok(None))));
}

#[test]
fn test_records_of_several_responses_are_handed_on() {
    let shard_consumer = consumer("shard", true);
    let run = awaiting_records(&shard_consumer);
    let first = vec![make_record(0, 0, "Record #00"), make_record(0, 1, "Record #01")];
    let (run, action) = run.step(Event::Records(Ok(GetRecordsResponse {
        records: first.clone(),
        child_shards: None,
        millis_behind_latest: Some(9),
        next_shard_iterator: Some("second".to_string()),
    })));
    assert!(matches!(
        action,
        Action::Send(ShardConsumerMessage::Records { records, lag_millis: Some(9), .. }) if records == first
    ));
    let (run, action) = run.step(Event::Sent(Ok(())));
    assert!(matches!(action, Action::WaitForTick { .. }));
    let (run, action) = run.step(Event::Ticked);
    assert!(matches!(action, Action::GetRecords { shard_iterator } if shard_iterator == "second"));
    let second = vec![make_record(0, 2, "Record #02")];
    let (run, action) = run.step(Event::Records(Ok(GetRecordsResponse {
        records: second.clone(),
        child_shards: None,
        millis_behind_latest: Some(0),
        next_shard_iterator: Some("third".to_string()),
    })));
    assert!(matches!(
        action,
        Action::Send(ShardConsumerMessage::Records { records, lag_millis: Some(0), .. }) if records == second
    ));
    let (run, action) = run.step(Event::Sent(Ok(())));
    assert!(matches!(action, Action::Send(ShardConsumerMessage::ShardEOF(_))));
    let (_run, action) = run.step(Event::Sent(Ok(())));
    assert!(matches!(action, Action::Return(Ok(()))));
}
