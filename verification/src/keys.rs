//! The names under which the key store holds things.
//!
//! | key | holds | lives for |
//! |---|---|---|
//! | `seat:{seat_id}:reserved` | the user that locked the seat | 300 s |
//! | `seats:{event_id}` | the seat list of an event | 86400 s |
//! | `events` | the list of events | 3600 s |
//! | `search:events:q={}&date={}&p={}&ps={}` | a search result | 3600 s |
//! | `auth:{email}:{password_hash}` | a signed-in user | as asked |

use vstd::prelude::*;
use vstd::string::*;
use crate::text::{decimal, push_decimal};

verus! {

/// The key of the list of events.
pub const EVENTS_KEY: &'static str = "events";

/// Seconds the list of events stays cached.
pub const EVENTS_TTL_SECONDS: u64 = 3600;

/// Seconds the seat list of an event stays cached.
pub const SEATS_TTL_SECONDS: u64 = 86400;

/// Seconds a search result stays cached.
pub const SEARCH_TTL_SECONDS: u64 = 3600;

/// Seconds between two updates of a user's last login.
pub const LAST_LOGIN_TTL_SECONDS: u64 = 900;

/// The pattern that matches every seat lock.
pub const SEAT_LOCK_PATTERN: &'static str = "seat:*:reserved";

/// The pattern that matches every key that begins like a seat lock.
pub const SEAT_KEY_PATTERN: &'static str = "seat:*";

/// The pattern that matches every cached seat list.
pub const SEATS_CACHE_PATTERN: &'static str = "seats:*";

/// The key of the lock of a seat.
pub open spec fn spec_seat_lock_key(seat_id: i64) -> Seq<char> {
    "seat:"@ + decimal(seat_id as int) + ":reserved"@
}

/// The key of the cached seat list of an event.
pub open spec fn spec_seats_cache_key(event_id: i64) -> Seq<char> {
    "seats:"@ + decimal(event_id as int)
}

/// The key of a cached search result: query, date, page and page size, as
/// they were asked for.
pub open spec fn spec_search_cache_key(query: Seq<char>, date: Seq<char>, page: u32, page_size: u32) -> Seq<
    char,
> {
    "search:events:q="@ + query + "&date="@ + date + "&p="@ + decimal(page as int) + "&ps="@ + decimal(
        page_size as int,
    )
}

/// The key of a cached sign-in.
pub open spec fn spec_auth_cache_key(email: Seq<char>, password_hash: Seq<char>) -> Seq<char> {
    "auth:"@ + email + ":"@ + password_hash
}

/// The pattern that matches every cached sign-in of a user.
pub open spec fn spec_auth_cache_pattern(email: Seq<char>) -> Seq<char> {
    "auth:"@ + email + ":*"@
}

/// The key that marks a user's last login as recently updated.
pub open spec fn spec_last_login_key(user_id: i32) -> Seq<char> {
    "last_login_update:"@ + decimal(user_id as int)
}

/// The key of the lock of a seat.
pub fn seat_lock_key(seat_id: i64) -> (key: String)
    ensures
        key@ == spec_seat_lock_key(seat_id),
{
    let mut key = String::from_str("seat:");
    push_decimal(&mut key, seat_id);
    key.append(":reserved");
    key
}

/// The key of the cached seat list of an event.
pub fn seats_cache_key(event_id: i64) -> (key: String)
    ensures
        key@ == spec_seats_cache_key(event_id),
{
    let mut key = String::from_str("seats:");
    push_decimal(&mut key, event_id);
    key
}

/// The key of a cached search result.
pub fn search_cache_key(query: &str, date: &str, page: u32, page_size: u32) -> (key: String)
    ensures
        key@ == spec_search_cache_key(query@, date@, page, page_size),
{
    let mut key = String::from_str("search:events:q=");
    key.append(query);
    key.append("&date=");
    key.append(date);
    key.append("&p=");
    push_decimal(&mut key, page as i64);
    key.append("&ps=");
    push_decimal(&mut key, page_size as i64);
    key
}

/// The key of a cached sign-in.
pub fn auth_cache_key(email: &str, password_hash: &str) -> (key: String)
    ensures
        key@ == spec_auth_cache_key(email@, password_hash@),
{
    let mut key = String::from_str("auth:");
    key.append(email);
    key.append(":");
    key.append(password_hash);
    key
}

/// The pattern that matches every cached sign-in of a user.
pub fn auth_cache_pattern(email: &str) -> (pattern: String)
    ensures
        pattern@ == spec_auth_cache_pattern(email@),
{
    let mut pattern = String::from_str("auth:");
    pattern.append(email);
    pattern.append(":*");
    pattern
}

/// The key that marks a user's last login as recently updated.
pub fn last_login_key(user_id: i32) -> (key: String)
    ensures
        key@ == spec_last_login_key(user_id),
{
    let mut key = String::from_str("last_login_update:");
    push_decimal(&mut key, user_id as i64);
    key
}

/// The keys of the locks of the given seats, in the same order.
pub open spec fn spec_seat_lock_keys(seat_ids: Seq<i64>) -> Seq<Seq<char>> {
    Seq::new(seat_ids.len(), |i: int| spec_seat_lock_key(seat_ids[i]))
}

/// The keys of the locks of the given seats, in the same order.
pub fn seat_lock_keys(seat_ids: &Vec<i64>) -> (keys: Vec<String>)
    ensures
        keys.deep_view() == spec_seat_lock_keys(seat_ids@),
{
    let mut keys: Vec<String> = Vec::new();
    let mut i: usize = 0;
    while i < seat_ids.len()
        invariant
            i <= seat_ids.len(),
            keys.deep_view() == spec_seat_lock_keys(seat_ids@.take(i as int)),
        decreases seat_ids.len() - i,
    {
        let key = seat_lock_key(seat_ids[i]);
        let ghost before = keys.deep_view();
        keys.push(key);
        proof {
            assert(keys.deep_view() =~= before.push(key@));
            assert(keys.deep_view() =~= spec_seat_lock_keys(seat_ids@.take(i + 1)));
        }
        i = i + 1;
    }
    proof {
        assert(seat_ids@.take(i as int) =~= seat_ids@);
    }
    keys
}

} // verus!
