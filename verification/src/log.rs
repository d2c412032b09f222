use vstd::prelude::*;

verus! {

/// A decoded log record. Amounts and reserves are binary64 numbers, held by
/// their bit patterns.
#[derive(Clone, Debug)]
pub struct ParsedEvent {
    pub ts: i64,
    pub kind: String,
    pub amount_in: u64,
    pub amount_out: u64,
    pub reserve_a: u64,
    pub reserve_b: u64,
}

/// The number that stands for a field: the field's own where it is there,
/// else zero.
pub open spec fn or_zero(field: Option<u64>) -> u64 {
    match field {
        Some(x) => x,
        None => 0,
    }
}

impl ParsedEvent {
    /// The record with the given kind and fields. A field that is not there
    /// counts as zero.
    pub fn from_fields(
        kind: String,
        ts: Option<i64>,
        amount_in: Option<u64>,
        amount_out: Option<u64>,
        reserve_a: Option<u64>,
        reserve_b: Option<u64>,
    ) -> (rec: ParsedEvent)
        ensures
            rec.kind == kind,
            rec.ts == (match ts {
                Some(t) => t,
                None => 0,
            }),
            rec.amount_in == or_zero(amount_in),
            rec.amount_out == or_zero(amount_out),
            rec.reserve_a == or_zero(reserve_a),
            rec.reserve_b == or_zero(reserve_b),
    {
        ParsedEvent {
            ts: match ts {
                Some(t) => t,
                None => 0,
            },
            kind,
            amount_in: present_or_zero(amount_in),
            amount_out: present_or_zero(amount_out),
            reserve_a: present_or_zero(reserve_a),
            reserve_b: present_or_zero(reserve_b),
        }
    }
}

/// The field's number where it is there, else zero.
fn present_or_zero(field: Option<u64>) -> (x: u64)
    ensures
        x == or_zero(field),
{
    match field {
        Some(x) => x,
        None => 0,
    }
}

} // verus!
