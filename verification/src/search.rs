//! Searching events: what a search is cached under, which window of the
//! results it serves, from which date on, and what text goes to the
//! full-text index.

use vstd::prelude::*;
use vstd::string::*;
use chrono::{Datelike, NaiveDate};
use crate::keys::{search_cache_key, spec_search_cache_key};
use crate::listing::{spec_window, window, Window};

verus! {

/// Year, month and day of the date that a text of the form `YYYY-MM-DD`
/// names; nothing for a text that names no date.
pub uninterp spec fn iso_date(text: Seq<char>) -> Option<(i32, u32, u32)>;

/// Whether a character is a letter or a digit of any script.
pub uninterp spec fn is_alphanumeric(c: char) -> bool;

/// Whether a character is white space of any script.
pub uninterp spec fn is_whitespace(c: char) -> bool;

/// `NaiveDate::parse_from_str` of the crate chrono with the format
/// `%Y-%m-%d`, and `Datelike::year`, `month` and `day`: the date a text
/// names, which depends on the text alone.
#[verifier::external_body]
fn parse_iso_date(text: &str) -> (date: Option<(i32, u32, u32)>)
    ensures
        date == iso_date(text@),
{
    match NaiveDate::parse_from_str(text, "%Y-%m-%d") {
        Ok(date) => Some((date.year(), date.month(), date.day())),
        Err(_) => None,
    }
}

/// `char::is_alphanumeric` of the standard library.
#[verifier::external_body]
fn char_is_alphanumeric(c: char) -> (yes: bool)
    ensures
        yes == is_alphanumeric(c),
{
    c.is_alphanumeric()
}

/// `char::is_whitespace` of the standard library.
#[verifier::external_body]
fn char_is_whitespace(c: char) -> (yes: bool)
    ensures
        yes == is_whitespace(c),
{
    c.is_whitespace()
}

/// What a caller asks of the list of events.
#[derive(Debug, Clone)]
pub struct EventsQuery {
    pub query: Option<String>,
    pub date: Option<String>,
    pub page: Option<u32>,
    pub page_size: Option<u32>,
}

/// A calendar date.
#[derive(Clone, Copy, Debug, PartialEq, Eq, Structural)]
pub struct SearchDate {
    pub year: i32,
    pub month: u32,
    pub day: u32,
}

/// How to serve a search.
#[derive(Debug, Clone)]
pub struct SearchPlan {
    /// The key under which the answer is cached.
    pub cache_key: String,
    /// The text that is searched for; empty when none was given.
    pub query: String,
    /// The window of the results.
    pub window: Window,
    /// The first day of which events are wanted: midnight of that day.
    pub from_date: Option<SearchDate>,
}

/// A text an optional parameter stands for: the text itself, or the empty
/// text where the parameter is missing.
pub open spec fn text_or_empty(text: Option<String>) -> Seq<char> {
    match text {
        Some(t) => t@,
        None => Seq::empty(),
    }
}

/// The page whose number goes into the cache key: the page asked for, the
/// first where none is.
pub open spec fn spec_asked_page(page: Option<u32>) -> u32 {
    match page {
        Some(p) => p,
        None => 1,
    }
}

/// The date from which on events are wanted: the date the parameter names,
/// or none where it is missing or names no date.
pub open spec fn spec_from_date(date: Option<String>) -> Option<SearchDate> {
    match date {
        Some(text) => match iso_date(text@) {
            Some((year, month, day)) => Some(SearchDate { year, month, day }),
            None => None,
        },
        None => None,
    }
}

/// Whether a character is kept in the text that goes to the full-text
/// index: letters, digits, white space and the hyphen are.
pub open spec fn is_kept(c: char) -> bool {
    is_alphanumeric(c) || is_whitespace(c) || c == '-'
}

/// Whether the kept characters of a text end in white space.
pub open spec fn ends_in_gap(text: Seq<char>) -> bool
    decreases text.len(),
{
    if text.len() == 0 {
        false
    } else if is_kept(text.last()) {
        is_whitespace(text.last())
    } else {
        ends_in_gap(text.drop_last())
    }
}

/// The text that goes to the full-text index: the kept characters of the
/// query, with every run of white space between two words as one blank and
/// none at either end.
pub open spec fn spec_prepared(text: Seq<char>) -> Seq<char>
    decreases text.len(),
{
    if text.len() == 0 {
        Seq::empty()
    } else {
        let before = spec_prepared(text.drop_last());
        let c = text.last();
        if !is_kept(c) || is_whitespace(c) {
            before
        } else if before.len() > 0 && ends_in_gap(text.drop_last()) {
            before.push(' ').push(c)
        } else {
            before.push(c)
        }
    }
}

/// Whether a search needs the full-text index: it does not when there is
/// neither a text nor a date to search by.
pub open spec fn spec_needs_full_text(query: Seq<char>, from_date: Option<SearchDate>) -> bool {
    query.len() > 0 || from_date is Some
}

/// Whether a search needs the full-text index.
pub fn needs_full_text(query: &str, from_date: &Option<SearchDate>) -> (needed: bool)
    ensures
        needed == spec_needs_full_text(query@, *from_date),
{
    query.unicode_len() > 0 || from_date.is_some()
}

/// Prepares a query for the full-text index.
pub fn prepare_search_query(query: &str) -> (prepared: String)
    ensures
        prepared@ == spec_prepared(query@),
{
    let mut prepared = String::new();
    let mut gap = false;
    let mut empty = true;
    let len = query.unicode_len();
    let mut n: usize = 0;
    for c in it: query.chars()
        invariant
            n == it.index(),
            it.seq() == query@,
            len == query@.len(),
            prepared@ == spec_prepared(query@.take(n as int)),
            gap == ends_in_gap(query@.take(n as int)),
            empty == (prepared@.len() == 0),
    {
        proof {
            assert(query@.take(n + 1).drop_last() =~= query@.take(n as int));
            assert(query@.take(n + 1).last() == c);
        }
        let space = char_is_whitespace(c);
        if space {
            gap = true;
        } else if char_is_alphanumeric(c) || c == '-' {
            if gap && !empty {
                prepared.push(' ');
            }
            prepared.push(c);
            gap = false;
            empty = false;
        }
        n = n + 1;
    }
    proof {
        assert(query@.take(n as int) =~= query@);
    }
    prepared
}

fn text_of(text: &Option<String>) -> (t: &str)
    ensures
        t@ == text_or_empty(*text),
{
    match text {
        Some(t) => t.as_str(),
        None => {
            proof {
                reveal_strlit("");
            }
            ""
        },
    }
}

/// Says how to serve a search: the cache key holds the query, the date, the
/// page and the size of a page as they were asked for; the window skips the
/// pages before the one asked for.
pub fn plan_search(params: &EventsQuery) -> (plan: SearchPlan)
    ensures
        plan.cache_key@ == spec_search_cache_key(
            text_or_empty(params.query),
            text_or_empty(params.date),
            spec_asked_page(params.page),
            crate::listing::spec_page_size(params.page_size),
        ),
        plan.query@ == text_or_empty(params.query),
        plan.window == spec_window(params.page, params.page_size),
        plan.from_date == spec_from_date(params.date),
{
    let query = text_of(&params.query);
    let date = text_of(&params.date);
    let page = match params.page {
        Some(p) => p,
        None => 1,
    };
    let size = crate::listing::page_size(params.page_size);
    let from_date = match &params.date {
        Some(text) => match parse_iso_date(text.as_str()) {
            Some((year, month, day)) => Some(SearchDate { year, month, day }),
            None => None,
        },
        None => None,
    };
    SearchPlan {
        cache_key: search_cache_key(query, date, page, size),
        query: String::from_str(query),
        window: window(params.page, params.page_size),
        from_date,
    }
}

} // verus!
