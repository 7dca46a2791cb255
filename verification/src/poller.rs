//! The decisions of the indexer's event poller: which contract events it
//! stores, where it resumes after a page, and how often it polls.
//!
//! The poller reads a page of contract events after its saved cursor, stores
//! those whose first topic is one the governance contract publishes, and
//! saves the highest ledger it has seen as the new cursor.
use vstd::prelude::*;
use vstd::utf8::encode_utf8;

use crate::decimal::{parse_u64, parse_u64_spec};

verus! {

/// Seconds between polls when none is configured or the setting is unreadable.
pub const DEFAULT_POLL_INTERVAL_SECS: u64 = 3;

/// The most events one page request asks for.
pub const EVENTS_PAGE_LIMIT: u64 = 200;

/// Whether the poller stores events whose first topic is `t`: the topics the
/// governance contract publishes.
pub open spec fn tracked_topic(t: Seq<char>) -> bool {
    ||| t == "init"@
    ||| t == "created"@
    ||| t == "vote"@
    ||| t == "final"@
    ||| t == "executed"@
    ||| t == "cancelled"@
    ||| t == "qupdate"@
    ||| t == "admxfer"@
    ||| t == "paused"@
    ||| t == "unpaused"@
    ||| t == "durationupdate"@
}

/// Whether two texts are equal.
fn same_text(a: &str, b: &str) -> (r: bool)
    ensures
        r == (a@ == b@),
{
    a.to_owned() == b.to_owned()
}

/// Whether the poller stores events whose first topic is `topic`.
pub fn is_tracked_topic(topic: &str) -> (r: bool)
    ensures
        r == tracked_topic(topic@),
{
    same_text(topic, "init") || same_text(topic, "created") || same_text(topic, "vote")
        || same_text(topic, "final") || same_text(topic, "executed") || same_text(
        topic,
        "cancelled",
    ) || same_text(topic, "qupdate") || same_text(topic, "admxfer") || same_text(topic, "paused")
        || same_text(topic, "unpaused") || same_text(topic, "durationupdate")
}

/// One record of a page of contract events, as the poller reads it: its
/// ledger and its first topic when that is a string.
#[derive(Clone, Debug)]
pub struct PolledEvent {
    pub ledger: u64,
    pub topic: Option<String>,
}

/// Whether the poller stores `e`.
pub open spec fn stored_event(e: PolledEvent) -> bool {
    e.topic matches Some(t) && tracked_topic(t@)
}

/// The positions, in page order, of the events of `page` the poller stores.
pub open spec fn stored_positions(page: Seq<PolledEvent>) -> Seq<usize>
    decreases page.len(),
{
    if page.len() == 0 {
        Seq::empty()
    } else {
        let rest = stored_positions(page.drop_last());
        if stored_event(page.last()) {
            rest.push((page.len() - 1) as usize)
        } else {
            rest
        }
    }
}

/// The highest ledger among `cursor` and the ledgers of `page`.
pub open spec fn max_ledger(page: Seq<PolledEvent>, cursor: u64) -> u64
    decreases page.len(),
{
    if page.len() == 0 {
        cursor
    } else {
        let m = max_ledger(page.drop_last(), cursor);
        if page.last().ledger > m {
            page.last().ledger
        } else {
            m
        }
    }
}

/// What the poller does with one page of events.
#[derive(Clone, Debug)]
pub struct PollPlan {
    /// The positions of the events to store, in page order.
    pub store: Vec<usize>,
    /// The cursor to save afterwards; `None` for an empty page, which leaves
    /// the cursor as it is.
    pub cursor: Option<u64>,
}

/// Decides what to do with a page of events read after `cursor`: store the
/// events with a tracked topic, in page order, then move the cursor to the
/// highest ledger seen. An empty page changes nothing.
pub fn plan_poll(cursor: u64, page: &Vec<PolledEvent>) -> (r: PollPlan)
    ensures
        r.store@ == stored_positions(page@),
        r.cursor == if page@.len() == 0 {
            None
        } else {
            Some(max_ledger(page@, cursor))
        },
{
    let ghost s = page@;
    let mut store: Vec<usize> = Vec::new();
    let mut top: u64 = cursor;
    let mut i: usize = 0;
    while i < page.len()
        invariant
            s == page@,
            i <= s.len(),
            store@ == stored_positions(s.take(i as int)),
            top == max_ledger(s.take(i as int), cursor),
        decreases s.len() - i,
    {
        assert(s.take(i + 1).drop_last() =~= s.take(i as int));
        assert(s.take(i + 1).last() == s[i as int]);
        let e = &page[i];
        let keep = match &e.topic {
            Some(t) => is_tracked_topic(t.as_str()),
            None => false,
        };
        if keep {
            store.push(i);
        }
        if e.ledger > top {
            top = e.ledger;
        }
        i = i + 1;
    }
    assert(s.take(s.len() as int) =~= s);
    if page.len() == 0 {
        PollPlan { store, cursor: None }
    } else {
        PollPlan { store, cursor: Some(top) }
    }
}

/// The poll interval for the setting `raw`: its value when it reads as a
/// `u64`, else the default of 3 seconds.
pub open spec fn poll_interval_spec(raw: Option<Seq<char>>) -> u64 {
    match raw {
        Some(t) => match parse_u64_spec(encode_utf8(t)) {
            Some(n) => n,
            None => DEFAULT_POLL_INTERVAL_SECS,
        },
        None => DEFAULT_POLL_INTERVAL_SECS,
    }
}

/// The poll interval in seconds for the setting `raw`, if one is given.
pub fn poll_interval_secs(raw: Option<&str>) -> (r: u64)
    ensures
        r == poll_interval_spec(
            match raw {
                Some(t) => Some(t@),
                None => None,
            },
        ),
{
    match raw {
        Some(t) => match parse_u64(t) {
            Some(n) => n,
            None => DEFAULT_POLL_INTERVAL_SECS,
        },
        None => DEFAULT_POLL_INTERVAL_SECS,
    }
}

} // verus!
