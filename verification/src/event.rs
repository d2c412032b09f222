use crate::text::same_text;
use vstd::prelude::*;

verus! {

/// A market event. Amounts are binary64 numbers, held by their bit patterns.
pub enum Event {
    /// A change of a pool's liquidity: the change and the value before it.
    Liquidity { delta: u64, prev: u64 },
    /// A trade: its signed amount and its time in milliseconds.
    Swap { amount: u64, timestamp_ms: i64 },
    /// A barrier. It carries no feature data; the engine answers it on `ack`
    /// once every event before it has been applied.
    Flush { ack: crossbeam_channel::Sender<()> },
}

/// Why a record is no event.
#[derive(Clone, Copy, Debug, PartialEq, Eq, Structural)]
pub enum InvalidEvent {
    MissingDelta,
    MissingPrev,
    MissingAmount,
    MissingTimestamp,
    UnknownTag,
}

impl InvalidEvent {
    /// The text of the error.
    pub open spec fn spec_message(self) -> Seq<char> {
        match self {
            InvalidEvent::MissingDelta => "missing delta"@,
            InvalidEvent::MissingPrev => "missing prev"@,
            InvalidEvent::MissingAmount => "missing amount"@,
            InvalidEvent::MissingTimestamp => "missing timestamp"@,
            InvalidEvent::UnknownTag => "unknown event tag"@,
        }
    }

    /// The text of the error.
    pub fn message(&self) -> (text: String)
        ensures
            text@ == self.spec_message(),
    {
        match self {
            InvalidEvent::MissingDelta => "missing delta".to_owned(),
            InvalidEvent::MissingPrev => "missing prev".to_owned(),
            InvalidEvent::MissingAmount => "missing amount".to_owned(),
            InvalidEvent::MissingTimestamp => "missing timestamp".to_owned(),
            InvalidEvent::UnknownTag => "unknown event tag".to_owned(),
        }
    }
}

/// An event as it arrives from outside: a tag that names the category, and
/// the fields of every category, each present or not.
#[derive(Clone, Debug)]
pub struct PyEvent {
    pub tag: String,
    pub delta: Option<u64>,
    pub prev: Option<u64>,
    pub amount: Option<u64>,
    pub timestamp_ms: Option<i64>,
}

impl PyEvent {
    /// A record with the given tag and fields.
    pub fn new(
        tag: String,
        delta: Option<u64>,
        prev: Option<u64>,
        amount: Option<u64>,
        timestamp_ms: Option<i64>,
    ) -> (rec: PyEvent)
        ensures
            rec.tag == tag,
            rec.delta == delta,
            rec.prev == prev,
            rec.amount == amount,
            rec.timestamp_ms == timestamp_ms,
    {
        PyEvent { tag, delta, prev, amount, timestamp_ms }
    }

    /// The event that the record stands for, or the first thing it lacks.
    /// The tag decides the category; a `Liquidity` record needs `delta` and
    /// `prev`, a `Swap` record `amount` and `timestamp_ms`, asked for in
    /// this order. Fields of the other category are ignored.
    pub open spec fn decoded(self) -> Result<Event, InvalidEvent> {
        if self.tag@ == "Liquidity"@ {
            if self.delta is None {
                Err(InvalidEvent::MissingDelta)
            } else if self.prev is None {
                Err(InvalidEvent::MissingPrev)
            } else {
                Ok(Event::Liquidity { delta: self.delta->0, prev: self.prev->0 })
            }
        } else if self.tag@ == "Swap"@ {
            if self.amount is None {
                Err(InvalidEvent::MissingAmount)
            } else if self.timestamp_ms is None {
                Err(InvalidEvent::MissingTimestamp)
            } else {
                Ok(Event::Swap { amount: self.amount->0, timestamp_ms: self.timestamp_ms->0 })
            }
        } else {
            Err(InvalidEvent::UnknownTag)
        }
    }

    /// Checks the record against its category and gives the event.
    pub fn decode(&self) -> (r: Result<Event, InvalidEvent>)
        ensures
            r == self.decoded(),
    {
        if same_text(self.tag.as_str(), "Liquidity") {
            match (self.delta, self.prev) {
                (None, _) => Err(InvalidEvent::MissingDelta),
                (Some(_), None) => Err(InvalidEvent::MissingPrev),
                (Some(delta), Some(prev)) => Ok(Event::Liquidity { delta, prev }),
            }
        } else if same_text(self.tag.as_str(), "Swap") {
            match (self.amount, self.timestamp_ms) {
                (None, _) => Err(InvalidEvent::MissingAmount),
                (Some(_), None) => Err(InvalidEvent::MissingTimestamp),
                (Some(amount), Some(timestamp_ms)) => Ok(Event::Swap { amount, timestamp_ms }),
            }
        } else {
            Err(InvalidEvent::UnknownTag)
        }
    }
}

} // verus!
