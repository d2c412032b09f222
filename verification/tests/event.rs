use rustcore::event::{Event, InvalidEvent, PyEvent};

fn record(
    tag: &str,
    delta: Option<f64>,
    prev: Option<f64>,
    amount: Option<f64>,
    timestamp_ms: Option<i64>,
) -> PyEvent {
    PyEvent::new(
        tag.to_string(),
        delta.map(f64::to_bits),
        prev.map(f64::to_bits),
        amount.map(f64::to_bits),
        timestamp_ms,
    )
}

#[test]
fn new_keeps_every_field() {
    let rec = PyEvent::new("Swap".to_string(), Some(1), None, Some(3), Some(-4));
    assert_eq!(rec.tag, "Swap");
    assert_eq!(rec.delta, Some(1));
    assert_eq!(rec.prev, None);
    assert_eq!(rec.amount, Some(3));
    assert_eq!(rec.timestamp_ms, Some(-4));
}

#[test]
fn liquidity_record_decodes() {
    let rec = record("Liquidity", Some(-2.5), Some(10.0), None, None);
    match rec.decode() {
        Ok(Event::Liquidity { delta, prev }) => {
            assert_eq!(f64::from_bits(delta), -2.5);
            assert_eq!(f64::from_bits(prev), 10.0);
        }
        _ => panic!("a liquidity event was expected"),
    }
}

#[test]
fn swap_record_decodes() {
    let rec = record("Swap", None, None, Some(10.0), Some(1000));
    match rec.decode() {
        Ok(Event::Swap { amount, timestamp_ms }) => {
            assert_eq!(f64::from_bits(amount), 10.0);
            assert_eq!(timestamp_ms, 1000);
        }
        _ => panic!("a swap event was expected"),
    }
}

#[test]
fn fields_of_the_other_category_are_ignored() {
    let rec = record("Swap", Some(1.0), Some(2.0), Some(3.0), Some(4));
    assert!(matches!(rec.decode(), Ok(Event::Swap { timestamp_ms: 4, .. })));
    let rec = record("Liquidity", Some(1.0), Some(2.0), Some(3.0), Some(4));
    assert!(matches!(rec.decode(), Ok(Event::Liquidity { .. })));
}

#[test]
fn missing_delta_is_refused() {
    let rec = record("Liquidity", None, Some(1.0), None, None);
    assert!(matches!(rec.decode(), Err(InvalidEvent::MissingDelta)));
}

#[test]
fn missing_delta_comes_before_missing_prev() {
    let rec = record("Liquidity", None, None, None, None);
    assert!(matches!(rec.decode(), Err(InvalidEvent::MissingDelta)));
}

#[test]
fn missing_prev_is_refused() {
    let rec = record("Liquidity", Some(1.0), None, Some(1.0), Some(1));
    assert!(matches!(rec.decode(), Err(InvalidEvent::MissingPrev)));
}

#[test]
fn missing_amount_is_refused() {
    let rec = record("Swap", Some(1.0), Some(1.0), None, Some(1));
    assert!(matches!(rec.decode(), Err(InvalidEvent::MissingAmount)));
    let rec = record("Swap", None, None, None, None);
    assert!(matches!(rec.decode(), Err(InvalidEvent::MissingAmount)));
}

#[test]
fn missing_timestamp_is_refused() {
    let rec = record("Swap", None, None, Some(1.0), None);
    assert!(matches!(rec.decode(), Err(InvalidEvent::MissingTimestamp)));
}

#[test]
fn unknown_tags_are_refused() {
    for tag in ["", "swap", "Swap ", "Liquidit", "Liquidityy", "Flush", "Swäp", "SwapLiquidity"] {
        let rec = record(tag, Some(1.0), Some(1.0), Some(1.0), Some(1));
        assert!(matches!(rec.decode(), Err(InvalidEvent::UnknownTag)), "tag {:?}", tag);
    }
}

#[test]
fn error_texts() {
    assert_eq!(InvalidEvent::MissingDelta.message(), "missing delta");
    assert_eq!(InvalidEvent::MissingPrev.message(), "missing prev");
    assert_eq!(InvalidEvent::MissingAmount.message(), "missing amount");
    assert_eq!(InvalidEvent::MissingTimestamp.message(), "missing timestamp");
    assert_eq!(InvalidEvent::UnknownTag.message(), "unknown event tag");
}
