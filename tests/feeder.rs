use std::collections::VecDeque;
use std::sync::atomic::{AtomicUsize, Ordering};

use kik_sync_service::channel::ChannelConfig;
use kik_sync_service::feeder::{
    on_collect, on_dispatch, FeederAction, FeederRecycler, QueueAction, QueueOutcome,
};
use kik_sync_service::message::{Message, MessageData, MessageInput};

// A square-number payload: the result is the input squared.
#[derive(Clone, Debug, PartialEq)]
pub struct Square(u64);

impl MessageData for Square {
    fn new() -> Self {
        Square(0)
    }
}

#[derive(Clone, Debug, PartialEq)]
pub struct Number(u64);

impl MessageInput<Square> for Number {
    fn new() -> Self {
        Number(0)
    }
}

#[derive(Clone)]
pub struct SquareMessage {
    input: Number,
    data: Square,
}

impl Message<Square, Number> for SquareMessage {
    fn input_spec(&self) -> Number {
        self.input.clone()
    }

    fn data_spec(&self) -> Square {
        self.data.clone()
    }

    fn set_input(&mut self, message_input: Number) {
        self.input = message_input;
    }

    fn work(&mut self) {
        self.data = Square(self.input.0 * self.input.0);
    }

    fn clone_message_data(&self) -> Square {
        self.data.clone()
    }

    fn new() -> Self {
        SquareMessage { input: Number::new(), data: Square::new() }
    }
}

static BUILT_ENVELOPES: AtomicUsize = AtomicUsize::new(0);

// The same payload, counting how many envelopes are built.
#[derive(Clone)]
pub struct CountedMessage {
    inner: SquareMessage,
}

impl Message<Square, Number> for CountedMessage {
    fn input_spec(&self) -> Number {
        self.inner.input_spec()
    }

    fn data_spec(&self) -> Square {
        self.inner.data_spec()
    }

    fn set_input(&mut self, message_input: Number) {
        self.inner.set_input(message_input);
    }

    fn work(&mut self) {
        self.inner.work();
    }

    fn clone_message_data(&self) -> Square {
        self.inner.clone_message_data()
    }

    fn new() -> Self {
        BUILT_ENVELOPES.fetch_add(1, Ordering::SeqCst);
        CountedMessage { inner: <SquareMessage as Message<Square, Number>>::new() }
    }
}

/// Runs the dispatch and collection queues in one thread: a dispatched
/// envelope waits in `queue`, and is transformed when it is collected.
struct Driver<S> {
    queue: VecDeque<S>,
    peak: usize,
}

impl<S> Driver<S> {
    fn new() -> Self {
        Driver { queue: VecDeque::new(), peak: 0 }
    }

    fn next<T, R>(&mut self, feeder: &mut FeederRecycler<T, R, S>) -> Option<T>
    where
        T: MessageData,
        R: MessageInput<T>,
        S: Message<T, R>,
    {
        match feeder.retrieve_data() {
            FeederAction::Finished => None,
            FeederAction::Collect(batch) => {
                for envelope in batch {
                    self.queue.push_back(envelope);
                }
                self.peak = self.peak.max(self.queue.len());
                let mut envelope = self.queue.pop_front().expect("an envelope is in flight");
                envelope.work();
                let delivery = feeder.accept_collected(envelope);
                for envelope in delivery.dispatch {
                    self.queue.push_back(envelope);
                }
                self.peak = self.peak.max(self.queue.len());
                Some(delivery.data)
            }
        }
    }

    fn drain<T, R>(&mut self, feeder: &mut FeederRecycler<T, R, S>) -> Vec<T>
    where
        T: MessageData,
        R: MessageInput<T>,
        S: Message<T, R>,
    {
        let mut results = Vec::new();
        while let Some(data) = self.next(feeder) {
            results.push(data);
        }
        results
    }
}

fn numbers(from: u64, to: u64) -> Vec<Number> {
    (from..to).map(Number).collect()
}

fn sorted_values(results: &[Square]) -> Vec<u64> {
    let mut values: Vec<u64> = results.iter().map(|s| s.0).collect();
    values.sort();
    values
}

#[test]
fn zero_inputs_end_at_once() {
    let mut feeder: FeederRecycler<Square, Number, SquareMessage> = FeederRecycler::new(0, 16);
    let mut empty: Vec<Number> = Vec::new();
    feeder.append_input(&mut empty);
    assert!(matches!(feeder.retrieve_data(), FeederAction::Finished));
    assert_eq!(feeder.get_remaining_messages(), 0);
    assert!(!feeder.is_collecting());
}

#[test]
fn append_input_empties_the_caller_vector() {
    let mut feeder: FeederRecycler<Square, Number, SquareMessage> = FeederRecycler::new(7, 4);
    let mut inputs = numbers(0, 5);
    feeder.append_input(&mut inputs);
    assert!(inputs.is_empty());
    assert_eq!(feeder.get_remaining_messages(), 5);
    assert_eq!(feeder.get_id(), 7);
}

#[test]
fn every_input_yields_one_result() {
    for budget in [1usize, 2, 3, 8, 16] {
        for n in [0u64, 1, 2, 7, 8, 9, 17, 100] {
            let mut feeder: FeederRecycler<Square, Number, SquareMessage> =
                FeederRecycler::new(0, budget);
            let mut driver = Driver::new();
            let mut inputs = numbers(0, n);
            feeder.append_input(&mut inputs);
            let results = driver.drain(&mut feeder);
            assert_eq!(results.len() as u64, n);
            let expected: Vec<u64> = (0..n).map(|x| x * x).collect();
            assert_eq!(sorted_values(&results), expected);
            assert_eq!(feeder.get_remaining_messages(), 0);
        }
    }
}

#[test]
fn in_flight_never_exceeds_budget() {
    for budget in [1usize, 2, 5, 8] {
        let mut feeder: FeederRecycler<Square, Number, SquareMessage> =
            FeederRecycler::new(0, budget);
        let mut driver = Driver::new();
        let mut inputs = numbers(0, 60);
        feeder.append_input(&mut inputs);
        let results = driver.drain(&mut feeder);
        assert_eq!(results.len(), 60);
        assert_eq!(driver.peak, budget);
    }
}

#[test]
fn recycling_builds_few_envelopes() {
    let mut feeder: FeederRecycler<Square, Number, CountedMessage> = FeederRecycler::new(0, 8);
    let mut driver = Driver::new();
    let mut inputs = numbers(0, 1000);
    feeder.append_input(&mut inputs);
    let before = BUILT_ENVELOPES.load(Ordering::SeqCst);
    let results = driver.drain(&mut feeder);
    let built = BUILT_ENVELOPES.load(Ordering::SeqCst) - before;
    assert_eq!(results.len(), 1000);
    // The first step fills the budget, discards the envelope it collects and builds one more.
    assert_eq!(built, 9);
}

#[test]
fn remaining_counts_down_by_one_per_step() {
    let mut feeder: FeederRecycler<Square, Number, SquareMessage> = FeederRecycler::new(0, 3);
    let mut driver = Driver::new();
    let mut inputs = numbers(0, 10);
    feeder.append_input(&mut inputs);
    for left in (0..10usize).rev() {
        assert!(driver.next(&mut feeder).is_some());
        assert_eq!(feeder.get_remaining_messages(), left);
    }
    assert!(driver.next(&mut feeder).is_none());
}

#[test]
fn inputs_leave_from_the_end() {
    let mut feeder: FeederRecycler<Square, Number, SquareMessage> = FeederRecycler::new(0, 2);
    let mut driver = Driver::new();
    let mut inputs = vec![Number(1), Number(2), Number(3)];
    feeder.append_input(&mut inputs);
    let results: Vec<u64> = driver.drain(&mut feeder).iter().map(|s| s.0).collect();
    assert_eq!(results, vec![9, 4, 1]);
}

#[test]
fn a_second_batch_after_draining() {
    let mut feeder: FeederRecycler<Square, Number, SquareMessage> = FeederRecycler::new(0, 5);
    let mut driver = Driver::new();
    let mut inputs = numbers(0, 12);
    feeder.append_input(&mut inputs);
    assert_eq!(driver.drain(&mut feeder).len(), 12);
    assert!(driver.next(&mut feeder).is_none());
    let mut more = numbers(100, 103);
    feeder.append_input(&mut more);
    let results = driver.drain(&mut feeder);
    assert_eq!(sorted_values(&results), vec![10000, 10201, 10404]);
}

#[test]
fn four_workers_hundred_then_fifty() {
    let mut config = ChannelConfig::new();
    assert_eq!(config.set_worker_number(4), Ok(()));
    assert_eq!(config.get_package_number(), 8);
    assert_eq!(config.get_channel_size(), 4);
    let mut feeder: FeederRecycler<Square, Number, SquareMessage> =
        FeederRecycler::new(0, config.get_package_number());
    let mut driver = Driver::new();
    let mut inputs = numbers(0, 100);
    feeder.append_input(&mut inputs);
    assert_eq!(driver.drain(&mut feeder).len(), 100);
    assert_eq!(feeder.get_remaining_messages(), 0);
    let mut more = numbers(0, 50);
    feeder.append_input(&mut more);
    assert_eq!(driver.drain(&mut feeder).len(), 50);
    assert_eq!(feeder.get_remaining_messages(), 0);
}

// What type of data should be returned.
pub struct MessageArray {
    data: [u32; 1024],
}

impl Clone for MessageArray {
    fn clone(&self) -> Self {
        MessageArray { data: self.data }
    }
}

impl MessageData for MessageArray {
    fn new() -> Self {
        MessageArray { data: [0; 1024] }
    }
}

impl MessageArray {
    pub fn get(&mut self) -> &mut [u32; 1024] {
        &mut self.data
    }
}

// What kind of input it needs.
#[derive(Clone)]
pub struct Coordinates {
    pub x0: usize,
    pub y0: usize,
    pub x1: usize,
    pub y1: usize,
}

impl MessageInput<MessageArray> for Coordinates {
    fn new() -> Self {
        Coordinates { x0: 0, y0: 0, x1: 0, y1: 0 }
    }
}

#[derive(Clone)]
pub struct ThreadMessage {
    pub array: MessageArray,
    pub current_input: Coordinates,
}

impl Message<MessageArray, Coordinates> for ThreadMessage {
    fn input_spec(&self) -> Coordinates {
        self.current_input.clone()
    }

    fn data_spec(&self) -> MessageArray {
        self.array.clone()
    }

    fn set_input(&mut self, message_input: Coordinates) {
        self.current_input = message_input;
    }

    fn work(&mut self) {
        let (x0, y0, x1, y1) = (
            self.current_input.x0,
            self.current_input.y0,
            self.current_input.x1,
            self.current_input.y1,
        );
        let array = self.array.get();
        let mut counter: usize = 0;
        for _y in y0..y1 {
            for _x in x0..x1 {
                array[counter] = counter as u32;
                counter += 1;
            }
        }
    }

    fn clone_message_data(&self) -> MessageArray {
        self.array.clone()
    }

    fn new() -> Self {
        ThreadMessage {
            current_input: <Coordinates as MessageInput<MessageArray>>::new(),
            array: <MessageArray as MessageData>::new(),
        }
    }
}

fn tiles(width: usize, height: usize, coordinates: &mut Vec<Coordinates>) {
    for y in 0..(height / 32) {
        for x in 0..(width / 32) {
            let (x0, y0) = (32 * x, 32 * y);
            coordinates.push(Coordinates { x0, y0, x1: x0 + 32, y1: y0 + 32 });
        }
    }
}

#[test]
fn test() {
    let width: usize = 1024;
    let height: usize = 768;
    let mut coordinates: Vec<Coordinates> = Vec::with_capacity((height / 32) * (width / 32));
    assert_eq!(width % 32, 0);
    assert_eq!(height % 32, 0);
    tiles(width, height, &mut coordinates);

    let config = ChannelConfig::default();
    let mut feeder: FeederRecycler<MessageArray, Coordinates, ThreadMessage> =
        FeederRecycler::new(0, config.get_package_number());
    let mut driver = Driver::new();
    feeder.append_input(&mut coordinates);

    let mut counter = 0;
    while let Some(mut i) = driver.next(&mut feeder) {
        let mut highest: u32 = 0;
        for j in i.get().iter() {
            if highest < *j {
                highest = *j;
            }
        }
        assert_eq!(highest % 32, 31);
        println!("Total line {}: {}", counter, highest);
        counter += 1;
    }
    assert_eq!(counter, 768);

    tiles(width, height, &mut coordinates);
    feeder.append_input(&mut coordinates);

    let mut counter = 0;
    while let Some(mut i) = driver.next(&mut feeder) {
        let mut highest: u32 = 0;
        for j in i.get().iter() {
            if highest < *j {
                highest = *j;
            }
        }
        assert_eq!(highest % 32, 31);
        println!("Total line {}: {}", counter, highest);
        counter += 1;
    }
    assert_eq!(counter, 768);
}

#[test]
fn coordinator_queue_decisions() {
    assert_eq!(on_dispatch(QueueOutcome::Done), QueueAction::Proceed);
    assert_eq!(on_dispatch(QueueOutcome::Busy), QueueAction::Relieve);
    assert_eq!(on_dispatch(QueueOutcome::Closed), QueueAction::Fatal);
    assert_eq!(on_collect(QueueOutcome::Done), QueueAction::Proceed);
    assert_eq!(on_collect(QueueOutcome::Busy), QueueAction::Retry);
    assert_eq!(on_collect(QueueOutcome::Closed), QueueAction::Fatal);
}

#[test]
fn stashed_envelopes_stay_in_flight() {
    let mut feeder: FeederRecycler<Square, Number, SquareMessage> = FeederRecycler::new(0, 3);
    assert!(!feeder.stash_room());
    assert!(feeder.take_stashed().is_none());
    let mut inputs = vec![Number(5), Number(6), Number(7)];
    feeder.append_input(&mut inputs);
    let mut batch = match feeder.retrieve_data() {
        FeederAction::Collect(batch) => batch,
        FeederAction::Finished => panic!("inputs are pending"),
    };
    assert_eq!(batch.len(), 3);
    // Two finished envelopes are taken off the queue ahead of their step.
    let mut early = batch.remove(2);
    early.work();
    assert!(feeder.stash_room());
    feeder.stash_collected(early);
    let mut early = batch.remove(1);
    early.work();
    feeder.stash_collected(early);
    assert!(feeder.stash_room());
    assert_eq!(feeder.get_remaining_messages(), 3);
    let collected = feeder.take_stashed().expect("an envelope is stashed");
    let delivery = feeder.accept_collected(collected);
    assert_eq!(delivery.data, Square(36));
    assert!(delivery.dispatch.is_empty());
    assert_eq!(feeder.get_remaining_messages(), 2);
    let collected = feeder.take_stashed().expect("an envelope is stashed");
    assert!(feeder.take_stashed().is_none());
    assert!(matches!(feeder.retrieve_data(), FeederAction::Collect(_)));
    let delivery = feeder.accept_collected(collected);
    assert_eq!(delivery.data, Square(25));
    assert_eq!(feeder.get_remaining_messages(), 1);
}

#[test]
fn recycled_envelope_keeps_result_and_takes_held_input() {
    let mut feeder: FeederRecycler<Square, Number, SquareMessage> = FeederRecycler::new(0, 2);
    let mut inputs = vec![Number(1), Number(2), Number(3), Number(4)];
    feeder.append_input(&mut inputs);
    // Nothing in flight: inputs 4 and 3 go out in fresh envelopes.
    let first = match feeder.retrieve_data() {
        FeederAction::Collect(batch) => batch,
        FeederAction::Finished => panic!("inputs are pending"),
    };
    let taken: Vec<u64> = first.iter().map(|m| m.input.0).collect();
    assert_eq!(taken, vec![4, 3]);
    let mut envelopes: Vec<SquareMessage> = first;
    let mut collected = envelopes.remove(0);
    collected.work();
    let delivery = feeder.accept_collected(collected);
    assert_eq!(delivery.data, Square(16));
    // The collected envelope is discarded and input 2 goes out in a fresh one.
    let refill: Vec<u64> = delivery.dispatch.iter().map(|m| m.input.0).collect();
    assert_eq!(refill, vec![2]);
    assert_eq!(feeder.get_remaining_messages(), 3);
    // Envelopes are in flight and input 1 waits: it is held for recycling.
    let second = match feeder.retrieve_data() {
        FeederAction::Collect(batch) => batch,
        FeederAction::Finished => panic!("inputs are pending"),
    };
    assert!(second.is_empty());
    let mut collected = envelopes.remove(0);
    collected.work();
    let delivery = feeder.accept_collected(collected);
    assert_eq!(delivery.data, Square(9));
    assert_eq!(delivery.dispatch.len(), 1);
    assert_eq!(delivery.dispatch[0].input, Number(1));
    assert_eq!(delivery.dispatch[0].data, Square(9));
    assert_eq!(feeder.get_remaining_messages(), 2);
}
