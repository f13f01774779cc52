//! Event service decisions: which endpoints a new event is recorded for,
//! and how stored events are presented.

use vstd::prelude::*;
use crate::models::{CreateEvent, Event, EventFilters, EventResponse, Notification};
use crate::services::notification_service::page_bounds;

verus! {

/// Whether `serde_json` parses a text as a JSON value.
pub uninterp spec fn is_json_text(s: Seq<char>) -> bool;

/// Calls `serde_json::from_str::<serde_json::Value>` and reports whether it
/// succeeded. Claimed: the answer depends on the text alone.
#[verifier::external_body]
pub(crate) fn parses_as_json(s: &str) -> (r: bool)
    ensures
        r == is_json_text(s@),
{
    serde_json::from_str::<serde_json::Value>(s).is_ok()
}

/// The endpoints a new event is recorded for: one record per active
/// endpoint, in order, each naming its endpoint; a single record naming none
/// when no endpoint is active.
pub open spec fn event_targets(notifications: Seq<Notification>) -> Seq<Option<String>> {
    let active = notifications.filter(|n: Notification| n.is_active).map_values(
        |n: Notification| Some(n.id),
    );
    if active.len() == 0 {
        seq![None]
    } else {
        active
    }
}

/// Plans the records of a new event from the account's endpoints.
pub fn plan_event_targets(notifications: &Vec<Notification>) -> (r: Vec<Option<String>>)
    ensures
        r@ == event_targets(notifications@),
{
    let ghost ns = notifications@;
    let mut out: Vec<Option<String>> = Vec::new();
    let mut i: usize = 0;
    while i < notifications.len()
        invariant
            i <= ns.len(),
            ns == notifications@,
            out@ == ns.take(i as int).filter(|n: Notification| n.is_active).map_values(
                |n: Notification| Some(n.id),
            ),
        decreases ns.len() - i,
    {
        let n = &notifications[i];
        proof {
            assert(ns.take(i + 1).drop_last() =~= ns.take(i as int));
            reveal(Seq::filter);
        }
        if n.is_active {
            out.push(Some(n.id.clone()));
        }
        assert(out@ =~= ns.take(i + 1).filter(|n: Notification| n.is_active).map_values(
            |n: Notification| Some(n.id),
        ));
        i += 1;
    }
    assert(ns.take(ns.len() as int) =~= ns);
    if out.len() == 0 {
        let mut single: Vec<Option<String>> = Vec::new();
        single.push(None);
        assert(single@ =~= seq![None]);
        return single;
    }
    out
}

/// A new event is always recorded at least once.
pub proof fn law_event_always_recorded(notifications: Seq<Notification>)
    ensures
        event_targets(notifications).len() >= 1,
{
}

/// The record of an event for one endpoint (or none).
pub fn event_for_target(ev: &CreateEvent, id: String, target: Option<String>) -> (r: CreateEvent)
    ensures
        r == (CreateEvent { id, notifications_id: target, ..*ev }),
{
    CreateEvent {
        id,
        account_id: ev.account_id.clone(),
        user_id: ev.user_id.clone(),
        node_id: ev.node_id.clone(),
        node_alias: ev.node_alias.clone(),
        event_type: ev.event_type,
        severity: ev.severity,
        title: ev.title.clone(),
        description: ev.description.clone(),
        data: ev.data.clone(),
        notifications_id: target,
        timestamp: ev.timestamp,
    }
}

/// `r` presents stored event `e`: the same fields, with the data kept when
/// it parses as JSON and replaced by `fallback` otherwise.
pub open spec fn presents(r: EventResponse, e: Event, fallback: Seq<char>) -> bool {
    &&& r.id == e.id
    &&& r.account_id == e.account_id
    &&& r.user_id == e.user_id
    &&& r.node_id == e.node_id
    &&& r.node_alias == e.node_alias
    &&& r.event_type == e.event_type
    &&& r.severity == e.severity
    &&& r.title == e.title
    &&& r.description == e.description
    &&& r.notifications_id == e.notifications_id
    &&& r.data@ == if is_json_text(e.data@) {
        e.data@
    } else {
        fallback
    }
    &&& r.timestamp == e.timestamp
    &&& r.created_at == e.created_at
}

/// The presented form of a stored event: same fields, data kept when it
/// parses as JSON and replaced by `fallback` otherwise.
pub fn event_response(e: Event, fallback: &str) -> (r: EventResponse)
    ensures
        presents(r, e, fallback@),
{
    let data = if parses_as_json(e.data.as_str()) {
        e.data
    } else {
        String::from_str(fallback)
    };
    EventResponse {
        id: e.id,
        account_id: e.account_id,
        user_id: e.user_id,
        node_id: e.node_id,
        node_alias: e.node_alias,
        event_type: e.event_type,
        severity: e.severity,
        title: e.title,
        description: e.description,
        notifications_id: e.notifications_id,
        data,
        timestamp: e.timestamp,
        created_at: e.created_at,
    }
}

impl EventResponse {
    /// The presented form of a stored event; data that does not parse as JSON
    /// becomes `null`.
    pub fn from_event(e: Event) -> (r: EventResponse)
        ensures
            presents(r, e, "null"@),
    {
        event_response(e, "null")
    }
}

/// The presented forms of an account's events, in order; data that does not
/// parse as JSON becomes `{}`.
pub fn account_event_responses(events: Vec<Event>) -> (r: Vec<EventResponse>)
    ensures
        r@.len() == events@.len(),
        forall|i: int| 0 <= i < events@.len() ==> presents(#[trigger] r@[i], events@[i], "{}"@),
{
    let ghost evs = events@;
    let mut out: Vec<EventResponse> = Vec::new();
    let mut rest = events;
    let mut i: usize = 0;
    let n = rest.len();
    while i < n
        invariant
            n == evs.len(),
            i <= n,
            out@.len() == i,
            rest@ == evs.skip(i as int),
            forall|k: int| 0 <= k < i ==> presents(#[trigger] out@[k], evs[k], "{}"@),
        decreases n - i,
    {
        let e = rest.remove(0);
        assert(e == evs[i as int]);
        assert(rest@ =~= evs.skip(i + 1));
        out.push(event_response(e, "{}"));
        i += 1;
    }
    out
}

/// The page bounds of an account's event listing: the filters' limit (at
/// most 1000, 50 when absent) and offset (0 when absent).
pub fn account_event_page(filters: &Option<EventFilters>) -> (r: (i64, i64))
    ensures
        r == match *filters {
            Some(f) => (
                match f.limit {
                    Some(l) => if l < 1000 {
                        l
                    } else {
                        1000
                    },
                    None => 50,
                },
                match f.offset {
                    Some(o) => o,
                    None => 0,
                },
            ),
            None => (50i64, 0i64),
        },
{
    match filters {
        Some(f) => page_bounds(f.limit, f.offset),
        None => page_bounds(None, None),
    }
}

} // verus!
