//! The run of a shard consumer, from the first request to its end.
//!
//! A run decides and does nothing else. It names one action at a time, whoever drives it performs
//! that action, and what came of the action decides how the run goes on.

use vstd::pervasive::unreached;
use vstd::prelude::*;

use crate::kinesis::message::{message_views, ShardConsumerMessage, ShardConsumerMessageView};
use crate::kinesis::response::{GetRecordsResponse, GetRecordsResponseView};
use crate::kinesis::shard_consumer::{ShardConsumer, ShardConsumerView};

verus! {

/// The period of the ticks that a run waits for, in milliseconds.
pub const TICK_PERIOD_MILLIS: u64 = 200;

/// What a run asks for next. `E` is the error of whoever drives the run.
#[derive(Debug)]
pub enum ShardConsumerAction<E> {
    /// Ask Kinesis for the iterator to start from.
    GetShardIterator {
        stream_name: String,
        shard_id: String,
        starting_sequence_number: Option<String>,
    },
    /// Wait for the next tick of an interval with this period. The first tick of the interval is
    /// immediate.
    WaitForTick { period_millis: u64 },
    /// Ask Kinesis for the records at an iterator.
    GetRecords { shard_iterator: String },
    /// Send a message to the sink.
    Send(ShardConsumerMessage),
    /// The run is over, with this result.
    Return(Result<(), E>),
}

/// The contents of a [`ShardConsumerAction`].
pub enum ShardConsumerActionView<E> {
    GetShardIterator {
        stream_name: Seq<char>,
        shard_id: Seq<char>,
        starting_sequence_number: Option<Seq<char>>,
    },
    WaitForTick { period_millis: u64 },
    GetRecords { shard_iterator: Seq<char> },
    Send(ShardConsumerMessageView),
    Return(Result<(), E>),
}

impl<E> View for ShardConsumerAction<E> {
    type V = ShardConsumerActionView<E>;

    open spec fn view(&self) -> ShardConsumerActionView<E> {
        match *self {
            ShardConsumerAction::GetShardIterator {
                stream_name,
                shard_id,
                starting_sequence_number,
            } => ShardConsumerActionView::GetShardIterator {
                stream_name: stream_name@,
                shard_id: shard_id@,
                starting_sequence_number: starting_sequence_number.deep_view(),
            },
            ShardConsumerAction::WaitForTick { period_millis } =>
                ShardConsumerActionView::WaitForTick { period_millis },
            ShardConsumerAction::GetRecords { shard_iterator } =>
                ShardConsumerActionView::GetRecords { shard_iterator: shard_iterator@ },
            ShardConsumerAction::Send(message) => ShardConsumerActionView::Send(message@),
            ShardConsumerAction::Return(result) => ShardConsumerActionView::Return(result),
        }
    }
}

/// What came of an action.
#[derive(Debug)]
pub enum ShardConsumerEvent<E> {
    /// Kinesis answered the request for an iterator.
    ShardIterator(Result<Option<String>, E>),
    /// The tick has passed.
    Ticked,
    /// Kinesis answered the request for records.
    Records(Result<GetRecordsResponse, E>),
    /// The sink took the message, or failed to.
    Sent(Result<(), E>),
}

/// The contents of a [`ShardConsumerEvent`].
pub enum ShardConsumerEventView<E> {
    ShardIterator(Result<Option<Seq<char>>, E>),
    Ticked,
    Records(Result<GetRecordsResponseView, E>),
    Sent(Result<(), E>),
}

impl<E> View for ShardConsumerEvent<E> {
    type V = ShardConsumerEventView<E>;

    open spec fn view(&self) -> ShardConsumerEventView<E> {
        match *self {
            ShardConsumerEvent::ShardIterator(Ok(shard_iterator)) =>
                ShardConsumerEventView::ShardIterator(Ok(shard_iterator.deep_view())),
            ShardConsumerEvent::ShardIterator(Err(error)) =>
                ShardConsumerEventView::ShardIterator(Err(error)),
            ShardConsumerEvent::Ticked => ShardConsumerEventView::Ticked,
            ShardConsumerEvent::Records(Ok(response)) => ShardConsumerEventView::Records(
                Ok(response@),
            ),
            ShardConsumerEvent::Records(Err(error)) => ShardConsumerEventView::Records(Err(error)),
            ShardConsumerEvent::Sent(result) => ShardConsumerEventView::Sent(result),
        }
    }
}

impl<E> ShardConsumerEventView<E> {
    /// The error of the action, if it failed.
    pub open spec fn error(self) -> Option<E> {
        match self {
            ShardConsumerEventView::ShardIterator(Err(error)) => Some(error),
            ShardConsumerEventView::Records(Err(error)) => Some(error),
            ShardConsumerEventView::Sent(Err(error)) => Some(error),
            _ => None,
        }
    }
}

/// What a run is waiting for.
#[derive(Debug)]
pub(crate) enum ShardConsumerState {
    AwaitingShardIterator,
    AwaitingTick { shard_iterator: String },
    AwaitingRecords,
    /// A message is on its way. Behind it, `outbox` is to be sent, and then the shard is read on
    /// from `next_shard_iterator`, or the run is over.
    Sending { outbox: Vec<ShardConsumerMessage>, next_shard_iterator: Option<String> },
    Finished,
}

/// The contents of the state of a run.
pub enum ShardConsumerStateView {
    /// The request for the first iterator is out.
    AwaitingShardIterator,
    /// The next tick is awaited, to read on from the iterator.
    AwaitingTick { shard_iterator: Seq<char> },
    /// A request for records is out.
    AwaitingRecords,
    /// A message is on its way. Behind it, `outbox` is to be sent, and then the shard is read on
    /// from `next_shard_iterator`, or the run is over.
    Sending { outbox: Seq<ShardConsumerMessageView>, next_shard_iterator: Option<Seq<char>> },
    /// The run is over.
    Finished,
}

impl View for ShardConsumerState {
    type V = ShardConsumerStateView;

    open(crate) spec fn view(&self) -> ShardConsumerStateView {
        match *self {
            ShardConsumerState::AwaitingShardIterator =>
                ShardConsumerStateView::AwaitingShardIterator,
            ShardConsumerState::AwaitingTick { shard_iterator } =>
                ShardConsumerStateView::AwaitingTick { shard_iterator: shard_iterator@ },
            ShardConsumerState::AwaitingRecords => ShardConsumerStateView::AwaitingRecords,
            ShardConsumerState::Sending { outbox, next_shard_iterator } =>
                ShardConsumerStateView::Sending {
                outbox: message_views(outbox@),
                next_shard_iterator: next_shard_iterator.deep_view(),
            },
            ShardConsumerState::Finished => ShardConsumerStateView::Finished,
        }
    }
}

impl ShardConsumerStateView {
    /// Whether the event is one of those that the last action can have come to.
    pub open spec fn expects<E>(self, event: ShardConsumerEventView<E>) -> bool {
        match self {
            ShardConsumerStateView::AwaitingShardIterator => event is ShardIterator,
            ShardConsumerStateView::AwaitingTick { .. } => event is Ticked,
            ShardConsumerStateView::AwaitingRecords => event is Records,
            ShardConsumerStateView::Sending { .. } => event is Sent,
            ShardConsumerStateView::Finished => false,
        }
    }

    /// Sends the messages one after the other, then reads on from the iterator, behind the next
    /// tick, or ends the run where there is none.
    pub open spec fn proceed<E>(
        messages: Seq<ShardConsumerMessageView>,
        next_shard_iterator: Option<Seq<char>>,
    ) -> (ShardConsumerStateView, ShardConsumerActionView<E>) {
        if messages.len() > 0 {
            (
                ShardConsumerStateView::Sending {
                    outbox: messages.drop_first(),
                    next_shard_iterator,
                },
                ShardConsumerActionView::Send(messages.first()),
            )
        } else {
            match next_shard_iterator {
                Some(shard_iterator) => (
                    ShardConsumerStateView::AwaitingTick { shard_iterator },
                    ShardConsumerActionView::WaitForTick { period_millis: TICK_PERIOD_MILLIS },
                ),
                None => (
                    ShardConsumerStateView::Finished,
                    ShardConsumerActionView::Return(Ok(())),
                ),
            }
        }
    }
}

impl ShardConsumerView {
    /// The first action of a run.
    pub open spec fn first_action<E>(self) -> ShardConsumerActionView<E> {
        ShardConsumerActionView::GetShardIterator {
            stream_name: self.stream_name,
            shard_id: self.shard_id,
            starting_sequence_number: self.starting_sequence_number,
        }
    }

    /// How a run goes on when an event comes in that it expects. A failure ends the run.
    pub open spec fn step<E>(
        self,
        state: ShardConsumerStateView,
        event: ShardConsumerEventView<E>,
    ) -> (ShardConsumerStateView, ShardConsumerActionView<E>)
        recommends
            state.expects(event),
    {
        if let Some(error) = event.error() {
            (ShardConsumerStateView::Finished, ShardConsumerActionView::Return(Err(error)))
        } else {
            match event {
                ShardConsumerEventView::ShardIterator(answer) => ShardConsumerStateView::proceed(
                    self.closed_message(answer->Ok_0),
                    answer->Ok_0,
                ),
                ShardConsumerEventView::Ticked => (
                    ShardConsumerStateView::AwaitingRecords,
                    ShardConsumerActionView::GetRecords {
                        shard_iterator: state->AwaitingTick_shard_iterator,
                    },
                ),
                ShardConsumerEventView::Records(answer) => ShardConsumerStateView::proceed(
                    self.messages(answer->Ok_0),
                    self.next_shard_iterator(answer->Ok_0),
                ),
                ShardConsumerEventView::Sent(_) => ShardConsumerStateView::proceed(
                    state->Sending_outbox,
                    state->Sending_next_shard_iterator,
                ),
            }
        }
    }
}

/// A run of a shard consumer.
#[derive(Debug)]
pub struct ShardConsumerRun<'a> {
    consumer: &'a ShardConsumer,
    state: ShardConsumerState,
}

/// The contents of a [`ShardConsumerRun`].
pub struct ShardConsumerRunView {
    pub consumer: ShardConsumerView,
    pub state: ShardConsumerStateView,
}

impl<'a> View for ShardConsumerRun<'a> {
    type V = ShardConsumerRunView;

    closed spec fn view(&self) -> ShardConsumerRunView {
        ShardConsumerRunView { consumer: self.consumer@, state: self.state@ }
    }
}

impl ShardConsumer {
    /// Starts a run of the consumer. Returns the run and its first action.
    pub fn run<E>(&self) -> (started: (ShardConsumerRun<'_>, ShardConsumerAction<E>))
        ensures
            started.0@.consumer == self@,
            started.0@.state is AwaitingShardIterator,
            started.1@ == self@.first_action::<E>(),
    {
        let action = ShardConsumerAction::GetShardIterator {
            stream_name: self.stream_name.clone(),
            shard_id: self.shard_id.clone(),
            starting_sequence_number: self.starting_sequence_number.clone(),
        };
        let run = ShardConsumerRun {
            consumer: self,
            state: ShardConsumerState::AwaitingShardIterator,
        };
        (run, action)
    }
}

impl<'a> ShardConsumerRun<'a> {
    /// Returns whether the event is one of those that the last action can have come to.
    pub fn accepts<E>(&self, event: &ShardConsumerEvent<E>) -> (accepted: bool)
        ensures
            accepted == self@.state.expects(event@),
    {
        match (&self.state, event) {
            (
                ShardConsumerState::AwaitingShardIterator,
                ShardConsumerEvent::ShardIterator(_),
            ) => true,
            (ShardConsumerState::AwaitingTick { .. }, ShardConsumerEvent::Ticked) => true,
            (ShardConsumerState::AwaitingRecords, ShardConsumerEvent::Records(_)) => true,
            (ShardConsumerState::Sending { .. }, ShardConsumerEvent::Sent(_)) => true,
            _ => false,
        }
    }

    /// Goes on by what came of the last action. Returns the run and its next action.
    pub fn step<E>(self, event: ShardConsumerEvent<E>) -> (next: (Self, ShardConsumerAction<E>))
        requires
            self@.state.expects(event@),
        ensures
            next.0@.consumer == self@.consumer,
            (next.0@.state, next.1@) == self@.consumer.step(self@.state, event@),
    {
        let ShardConsumerRun { consumer, state } = self;
        match (state, event) {
            (_, ShardConsumerEvent::ShardIterator(Err(error))) => Self::fail(consumer, error),
            (_, ShardConsumerEvent::Records(Err(error))) => Self::fail(consumer, error),
            (_, ShardConsumerEvent::Sent(Err(error))) => Self::fail(consumer, error),
            (_, ShardConsumerEvent::ShardIterator(Ok(shard_iterator))) => {
                let mut messages: Vec<ShardConsumerMessage> = Vec::new();
                if shard_iterator.is_none() {
                    messages.push(ShardConsumerMessage::ShardClosed(consumer.shard_id.clone()));
                }
                assert(message_views(messages@) =~= consumer@.closed_message(
                    shard_iterator.deep_view(),
                ));
                Self::proceed(consumer, messages, shard_iterator)
            },
            (_, ShardConsumerEvent::Records(Ok(response))) => {
                let (messages, next_shard_iterator) = consumer.handle_response(response);
                Self::proceed(consumer, messages, next_shard_iterator)
            },
            (
                ShardConsumerState::Sending { outbox, next_shard_iterator },
                ShardConsumerEvent::Sent(Ok(_)),
            ) => Self::proceed(consumer, outbox, next_shard_iterator),
            (ShardConsumerState::AwaitingTick { shard_iterator }, _) => (
                ShardConsumerRun { consumer, state: ShardConsumerState::AwaitingRecords },
                ShardConsumerAction::GetRecords { shard_iterator },
            ),
            _ => unreached(),
        }
    }

    /// Ends a run with an error.
    fn fail<E>(consumer: &'a ShardConsumer, error: E) -> (next: (Self, ShardConsumerAction<E>))
        ensures
            next.0@.consumer == consumer@,
            next.0@.state is Finished,
            next.1@ == ShardConsumerActionView::<E>::Return(Err(error)),
    {
        (
            ShardConsumerRun { consumer, state: ShardConsumerState::Finished },
            ShardConsumerAction::Return(Err(error)),
        )
    }

    /// Sends the messages one after the other, then reads on from the iterator, behind the next
    /// tick, or ends the run where there is none.
    fn proceed<E>(
        consumer: &'a ShardConsumer,
        messages: Vec<ShardConsumerMessage>,
        next_shard_iterator: Option<String>,
    ) -> (next: (Self, ShardConsumerAction<E>))
        ensures
            next.0@.consumer == consumer@,
            (next.0@.state, next.1@) == ShardConsumerStateView::proceed::<E>(
                message_views(messages@),
                next_shard_iterator.deep_view(),
            ),
    {
        let mut outbox = messages;
        if outbox.len() > 0 {
            let message = outbox.remove(0);
            assert(message_views(outbox@) =~= message_views(messages@).drop_first());
            (
                ShardConsumerRun {
                    consumer,
                    state: ShardConsumerState::Sending { outbox, next_shard_iterator },
                },
                ShardConsumerAction::Send(message),
            )
        } else {
            match next_shard_iterator {
                Some(shard_iterator) => (
                    ShardConsumerRun {
                        consumer,
                        state: ShardConsumerState::AwaitingTick { shard_iterator },
                    },
                    ShardConsumerAction::WaitForTick { period_millis: TICK_PERIOD_MILLIS },
                ),
                None => (
                    ShardConsumerRun { consumer, state: ShardConsumerState::Finished },
                    ShardConsumerAction::Return(Ok(())),
                ),
            }
        }
    }
}

} // verus!
