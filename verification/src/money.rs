//! Amounts of money. The engine counts money in minor units, hundredths of
//! the currency, and writes it with two decimal places.

use vstd::prelude::*;
use vstd::string::*;
use crate::protocol::Message;
use crate::text::{decimal_digits, digit_char, push_decimal_u64};

verus! {

/// The minor units in one unit of the currency.
pub const MINOR_PER_UNIT: i64 = 100;

/// An amount written with two decimal places: a minus sign for a negative
/// amount, the whole units, a point, and the hundredths in two digits.
pub open spec fn spec_amount_text(minor: i64) -> Seq<char> {
    let size: int = if minor < 0 {
        -minor
    } else {
        minor as int
    };
    (if minor < 0 {
        seq!['-']
    } else {
        Seq::empty()
    }) + decimal_digits((size / 100) as nat) + seq!['.', digit_char((size % 100) / 10), digit_char(size % 10)]
}

/// Writes an amount with two decimal places.
pub fn amount_text(minor: i64) -> (text: String)
    ensures
        text@ == spec_amount_text(minor),
{
    let mut text = String::new();
    let size: u64 = if minor < 0 {
        text.push('-');
        (-(minor as i128)) as u64
    } else {
        minor as u64
    };
    let ghost sign = text@;
    push_decimal_u64(&mut text, size / 100);
    text.push('.');
    let cents: u8 = (size % 100) as u8;
    text.push((48u8 + cents / 10) as char);
    text.push((48u8 + cents % 10) as char);
    proof {
        assert(text@ =~= spec_amount_text(minor));
    }
    text
}

/// The sales of an event in numbers.
#[derive(Clone, Copy, Debug, PartialEq, Eq, Structural)]
pub struct SalesCounts {
    pub total_seats: i32,
    pub sold_seats: i32,
    pub reserved_seats: i32,
    pub free_seats: i32,
    pub revenue_minor: i64,
    pub bookings_count: i32,
}

/// The sales of an event as they are served.
#[derive(Debug, Clone)]
pub struct AnalyticsResponse {
    pub event_id: i64,
    pub total_seats: i32,
    pub sold_seats: i32,
    pub reserved_seats: i32,
    pub free_seats: i32,
    pub total_revenue: String,
    pub bookings_count: i32,
}

/// Why sales are not served, if they are not: the event id must be
/// positive, and the event must exist.
pub open spec fn spec_analytics_fault(event_id: i64, exists: bool) -> Option<Message> {
    if event_id <= 0 {
        Some(Message::AnalyticsIdNotPositive)
    } else if !exists {
        Some(Message::EventNotFound)
    } else {
        None
    }
}

/// The sales of an event as they are served: the numbers as they are, the
/// revenue with two decimal places. An event without seats has none to
/// count and is served with zeros.
pub fn analytics_response(event_id: i64, exists: bool, counts: Option<SalesCounts>) -> (response: Result<
    AnalyticsResponse,
    Message,
>)
    ensures
        match response {
            Ok(r) => {
                let c = match counts {
                    Some(c) => c,
                    None => SalesCounts {
                        total_seats: 0,
                        sold_seats: 0,
                        reserved_seats: 0,
                        free_seats: 0,
                        revenue_minor: 0,
                        bookings_count: 0,
                    },
                };
                &&& spec_analytics_fault(event_id, exists) is None
                &&& r.event_id == event_id
                &&& r.total_seats == c.total_seats
                &&& r.sold_seats == c.sold_seats
                &&& r.reserved_seats == c.reserved_seats
                &&& r.free_seats == c.free_seats
                &&& r.total_revenue@ == spec_amount_text(c.revenue_minor)
                &&& r.bookings_count == c.bookings_count
            },
            Err(message) => spec_analytics_fault(event_id, exists) == Some(message),
        },
{
    if event_id <= 0 {
        return Err(Message::AnalyticsIdNotPositive);
    }
    if !exists {
        return Err(Message::EventNotFound);
    }
    let c = match counts {
        Some(c) => c,
        None => SalesCounts {
            total_seats: 0,
            sold_seats: 0,
            reserved_seats: 0,
            free_seats: 0,
            revenue_minor: 0,
            bookings_count: 0,
        },
    };
    Ok(
        AnalyticsResponse {
            event_id,
            total_seats: c.total_seats,
            sold_seats: c.sold_seats,
            reserved_seats: c.reserved_seats,
            free_seats: c.free_seats,
            total_revenue: amount_text(c.revenue_minor),
            bookings_count: c.bookings_count,
        },
    )
}

} // verus!
