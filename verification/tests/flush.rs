use rustcore::engine::FeatureEngine;
use rustcore::event::Event;
use rustcore::arithmetic::Arithmetic;
use rustcore::flush::{flush_outcome, FlushChannelClosed};

/// IEEE 754 arithmetic as the machine does it.
struct Ieee;

impl Arithmetic for Ieee {
    fn sum(&self, a: u64, b: u64) -> u64 {
        (f64::from_bits(a) + f64::from_bits(b)).to_bits()
    }

    fn difference(&self, a: u64, b: u64) -> u64 {
        (f64::from_bits(a) - f64::from_bits(b)).to_bits()
    }

    fn product(&self, a: u64, b: u64) -> u64 {
        (f64::from_bits(a) * f64::from_bits(b)).to_bits()
    }

    fn quotient(&self, a: u64, b: u64) -> u64 {
        (f64::from_bits(a) / f64::from_bits(b)).to_bits()
    }

    fn from_integer(&self, n: i128) -> u64 {
        (n as f64).to_bits()
    }

    fn narrow(&self, x: u64) -> u32 {
        (f64::from_bits(x) as f32).to_bits()
    }

    fn sum32(&self, a: u32, b: u32) -> u32 {
        (f32::from_bits(a) + f32::from_bits(b)).to_bits()
    }
}

fn state(engine: &FeatureEngine) -> Vec<(u32, (u64, u64))> {
    (0..256).map(|i| (engine.accumulator(i), engine.get_stats(i))).collect()
}

#[test]
fn barrier_is_answered_at_once() {
    let (ack, done) = crossbeam_channel::bounded::<()>(1);
    let mut engine = FeatureEngine::new();
    engine.process(Event::Flush { ack }, &Ieee);
    assert_eq!(done.try_recv(), Ok(()));
    assert_eq!(flush_outcome(done.recv()), Err(FlushChannelClosed));
}

#[test]
fn barrier_changes_nothing() {
    let mut engine = FeatureEngine::new();
    engine.push_swap_event(1.0f64.to_bits(), 1000, &Ieee);
    engine.apply_liquidity(2.0f64.to_bits(), 4.0f64.to_bits(), &Ieee);
    let before = state(&engine);
    let (ack, done) = crossbeam_channel::unbounded::<()>();
    engine.process(Event::Flush { ack }, &Ieee);
    assert_eq!(flush_outcome(done.recv()), Ok(()));
    assert_eq!(state(&engine), before);
    assert_eq!(engine.last_swap_ts(), Some(1000));
    engine.push_swap_event(1.0f64.to_bits(), 1250, &Ieee);
    assert_eq!(f32::from_bits(engine.accumulator(66)), 250.0);
}

#[test]
fn barrier_follows_the_events_before_it() {
    let (ack, done) = crossbeam_channel::bounded::<()>(1);
    let mut engine = FeatureEngine::new();
    let events = vec![
        Event::Swap { amount: 2.0f64.to_bits(), timestamp_ms: 10 },
        Event::Liquidity { delta: 1.0f64.to_bits(), prev: 4.0f64.to_bits() },
        Event::Flush { ack },
    ];
    for evt in events {
        assert!(done.try_recv().is_err());
        engine.process(evt, &Ieee);
    }
    assert_eq!(flush_outcome(done.recv()), Ok(()));
    assert_eq!(f32::from_bits(engine.accumulator(64)), 2.0);
    assert_eq!(f32::from_bits(engine.accumulator(65)), 1.0);
    assert_eq!(f32::from_bits(engine.accumulator(0)), 1.0);
    assert_eq!(f32::from_bits(engine.accumulator(1)), 0.25);
}

#[test]
fn dropped_barrier_is_a_failure() {
    let (ack, done) = crossbeam_channel::bounded::<()>(1);
    let pending = Event::Flush { ack };
    drop(pending);
    assert_eq!(flush_outcome(done.recv()), Err(FlushChannelClosed));
}

#[test]
fn full_channel_does_not_stop_the_engine() {
    let (ack, done) = crossbeam_channel::bounded::<()>(1);
    ack.send(()).unwrap();
    let mut engine = FeatureEngine::new();
    engine.process(Event::Flush { ack }, &Ieee);
    assert_eq!(done.try_recv(), Ok(()));
    assert!(done.try_recv().is_err());
}

#[test]
fn gone_receiver_does_not_stop_the_engine() {
    let (ack, done) = crossbeam_channel::bounded::<()>(1);
    drop(done);
    let mut engine = FeatureEngine::new();
    engine.process(Event::Flush { ack }, &Ieee);
    engine.push_swap_event(1.0f64.to_bits(), 5, &Ieee);
    assert_eq!(f32::from_bits(engine.accumulator(65)), 1.0);
}
