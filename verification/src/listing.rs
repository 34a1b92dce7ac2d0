//! Listing the seats of an event, and the pages in which lists are served.

use vstd::prelude::*;
use vstd::string::*;
use crate::protocol::Message;
use crate::text::{decimal, push_decimal};

verus! {

/// The page that is served when none is asked for.
pub const DEFAULT_PAGE: u32 = 1;

/// The largest page, and the one served when no size is asked for.
pub const MAX_PAGE_SIZE: u32 = 20;

/// The page that is served for the page asked for: the first page when
/// none, or page 0, is asked for.
pub open spec fn spec_page(page: Option<u32>) -> u32 {
    match page {
        Some(p) => if p < 1 {
            1
        } else {
            p
        },
        None => DEFAULT_PAGE,
    }
}

/// The number of items on a page for the size asked for: between 1 and
/// `MAX_PAGE_SIZE`, and `MAX_PAGE_SIZE` when none is asked for.
pub open spec fn spec_page_size(page_size: Option<u32>) -> u32 {
    match page_size {
        Some(n) => if n < 1 {
            1
        } else if n > MAX_PAGE_SIZE {
            MAX_PAGE_SIZE
        } else {
            n
        },
        None => MAX_PAGE_SIZE,
    }
}

/// A window into a list: how many items to serve, and how many to skip
/// before.
#[derive(Clone, Copy, Debug, PartialEq, Eq, Structural)]
pub struct Window {
    pub limit: i64,
    pub offset: i64,
}

/// The window for a page: as many items as the page holds, after the items
/// of all pages before it.
pub open spec fn spec_window(page: Option<u32>, page_size: Option<u32>) -> Window {
    Window {
        limit: spec_page_size(page_size) as i64,
        offset: ((spec_page(page) - 1) * spec_page_size(page_size)) as i64,
    }
}

/// The page that is served for the page asked for.
pub fn page_number(page: Option<u32>) -> (p: u32)
    ensures
        p == spec_page(page),
{
    match page {
        Some(p) => if p < 1 {
            1
        } else {
            p
        },
        None => DEFAULT_PAGE,
    }
}

/// The number of items on a page for the size asked for.
pub fn page_size(size: Option<u32>) -> (n: u32)
    ensures
        n == spec_page_size(size),
{
    match size {
        Some(n) => if n < 1 {
            1
        } else if n > MAX_PAGE_SIZE {
            MAX_PAGE_SIZE
        } else {
            n
        },
        None => MAX_PAGE_SIZE,
    }
}

/// The window for a page.
pub fn window(page: Option<u32>, size: Option<u32>) -> (w: Window)
    ensures
        w == spec_window(page, size),
        w.limit == spec_page_size(size),
        w.offset == (spec_page(page) - 1) * spec_page_size(size),
{
    let p: i64 = page_number(page) as i64;
    let n: i64 = page_size(size) as i64;
    assert((p - 1) * n <= 0xffff_ffff * 20) by (nonlinear_arith)
        requires
            1 <= p <= 0xffff_ffff,
            1 <= n <= 20,
    ;
    assert((p - 1) * n >= 0) by (nonlinear_arith)
        requires
            1 <= p,
            1 <= n,
    ;
    Window { limit: n, offset: (p - 1) * n }
}

/// What a caller asks of the seat list of an event.
#[derive(Debug, Clone)]
pub struct SeatsQuery {
    pub event_id: i64,
    pub page: Option<u32>,
    pub page_size: Option<u32>,
    pub row: Option<i32>,
    pub status: Option<String>,
}

/// Whether a text is one of the three seat statuses a list can be filtered
/// by.
pub open spec fn is_status_filter(text: Seq<char>) -> bool {
    text == "FREE"@ || text == "RESERVED"@ || text == "SOLD"@
}

/// Why a query is refused, if it is: the event id must be positive, a row
/// must be positive, and a status must be one of the three.
pub open spec fn spec_seats_query_fault(query: SeatsQuery) -> Option<Message> {
    if query.event_id <= 0 {
        Some(Message::EventIdNotPositive)
    } else if query.row is Some && query.row->0 <= 0 {
        Some(Message::RowNotPositive)
    } else if query.status is Some && !is_status_filter(query.status->0@) {
        Some(Message::StatusNotKnown)
    } else {
        None
    }
}

/// The statement that lists seats: the seats of the event, of one row if a
/// row is asked for, of one status if a status is asked for, by row and
/// number, one window of them. The parameters are numbered in this order.
pub open spec fn spec_seats_sql(by_row: bool, by_status: bool) -> Seq<char> {
    let filters: int = if by_row {
        1int
    } else {
        0int
    } + if by_status {
        1int
    } else {
        0int
    };
    "SELECT id, row, number, status FROM seats WHERE event_id = $1"@ + (if by_row {
        " AND row = $2"@
    } else {
        Seq::empty()
    }) + (if by_status {
        " AND status = $"@ + decimal(
            if by_row {
                3
            } else {
                2
            },
        )
    } else {
        Seq::empty()
    }) + " ORDER BY row, number LIMIT $"@ + decimal(2 + filters) + " OFFSET $"@ + decimal(3 + filters)
}

/// How to list seats: the statement and the window that goes into its last
/// two parameters.
#[derive(Debug, Clone)]
pub struct SeatsPlan {
    pub sql: String,
    pub window: Window,
}

/// The statement that lists seats.
pub fn seats_sql(by_row: bool, by_status: bool) -> (sql: String)
    ensures
        sql@ == spec_seats_sql(by_row, by_status),
{
    let mut sql = String::from_str("SELECT id, row, number, status FROM seats WHERE event_id = $1");
    let ghost base = sql@;
    let mut next: i64 = 2;
    if by_row {
        sql.append(" AND row = $2");
        next = 3;
    }
    let ghost with_row = sql@;
    if by_status {
        sql.append(" AND status = $");
        push_decimal(&mut sql, next);
        next = next + 1;
    }
    let ghost with_status = sql@;
    sql.append(" ORDER BY row, number LIMIT $");
    push_decimal(&mut sql, next);
    sql.append(" OFFSET $");
    push_decimal(&mut sql, next + 1);
    proof {
        assert(with_row =~= base + (if by_row {
            " AND row = $2"@
        } else {
            Seq::empty()
        }));
        assert(sql@ =~= spec_seats_sql(by_row, by_status));
    }
    sql
}

/// Checks a query and says how to serve it.
pub fn plan_seats_query(query: &SeatsQuery) -> (plan: Result<SeatsPlan, Message>)
    ensures
        match plan {
            Ok(p) => {
                &&& spec_seats_query_fault(*query) is None
                &&& p.sql@ == spec_seats_sql(query.row is Some, query.status is Some)
                &&& p.window == spec_window(query.page, query.page_size)
            },
            Err(message) => spec_seats_query_fault(*query) == Some(message),
        },
{
    if query.event_id <= 0 {
        return Err(Message::EventIdNotPositive);
    }
    if let Some(row) = query.row {
        if row <= 0 {
            return Err(Message::RowNotPositive);
        }
    }
    if let Some(status) = &query.status {
        let text = status.as_str();
        if !(*text == *"FREE" || *text == *"RESERVED" || *text == *"SOLD") {
            return Err(Message::StatusNotKnown);
        }
    }
    Ok(
        SeatsPlan {
            sql: seats_sql(query.row.is_some(), query.status.is_some()),
            window: window(query.page, query.page_size),
        },
    )
}

} // verus!
