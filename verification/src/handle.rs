//! What the handlers decide: the time span of a summary, the order of its
//! events, the text sent for them, and the response to an HTTP request.
use vstd::prelude::*;

use crate::app::state::Notice;
use crate::calendar::Event;
use crate::lamb::{headers_map, HttpMethod, HttpResponse, ScheduleKind};
use crate::time::{clock_text, mountain_clock_text, second_of_day, Timestamp, MAX_SECS};

verus! {

/// The instant that a summary's day is counted from: `now` with its hour and
/// minute set to zero. The second within the minute and the nanoseconds stay.
pub open spec fn last_midnight(now: Timestamp) -> Timestamp {
    now.spec_with_hour(0).unwrap().spec_with_minute(0).unwrap()
}

/// The first instant of the summary of `kind`: the last midnight for today's
/// summary, one day later for tomorrow's.
pub open spec fn window_start(now: Timestamp, kind: ScheduleKind) -> Timestamp {
    if kind == ScheduleKind::SummaryTomorrow {
        last_midnight(now).spec_plus_seconds(86400)
    } else {
        last_midnight(now)
    }
}

/// The last midnight is the start of the UTC day plus the seconds already
/// past in the current minute, with the nanoseconds unchanged.
pub proof fn lemma_last_midnight(now: Timestamp)
    requires
        now.wf(),
    ensures
        last_midnight(now).secs == now.secs - second_of_day(now.secs as int) + now.secs % 60,
        last_midnight(now).nanos == now.nanos,
{
    let s = now.secs as int;
    let sod = second_of_day(s);
    let x = sod % 3600;
    vstd::arithmetic::div_mod::lemma_fundamental_div_mod(s, 86400);
    vstd::arithmetic::div_mod::lemma_mod_multiples_vanish(s / 86400, x, 86400);
    assert(s - sod == 86400 * (s / 86400));
    assert(x % 86400 == x);
    assert(second_of_day(s - sod + x) == x);
    vstd::arithmetic::div_mod::lemma_mod_mod(s, 60, 1440);
    assert(x % 3600 == x);
    assert(x % 60 == sod % 60) by {
        vstd::arithmetic::div_mod::lemma_mod_mod(sod, 60, 60);
    }
}

/// The time span that a summary covers: one day from its start.
pub fn summary_window(now: Timestamp, kind: ScheduleKind) -> (r: (Timestamp, Timestamp))
    requires
        now.is_plain(),
        kind != ScheduleKind::KeepWarm,
        last_midnight(now).secs + (if kind == ScheduleKind::SummaryTomorrow {
            2 * 86400
        } else {
            86400
        }) <= MAX_SECS,
    ensures
        r.0 == window_start(now, kind),
        r.1 == window_start(now, kind).spec_plus_seconds(86400),
        r.0.is_plain(),
        r.1.is_plain(),
{
    let last = now.with_hour(0).unwrap().with_minute(0).unwrap();
    let this_midnight = last.plus_seconds(86400);
    let begin = match kind {
        ScheduleKind::SummaryTomorrow => this_midnight,
        _ => last,
    };
    let end = begin.plus_seconds(86400);
    (begin, end)
}


/// Tomorrow's summary covers the day that follows today's: it starts where
/// today's ends (see `summary_window` for the end of each).
pub proof fn law_tomorrow_follows_today(now: Timestamp)
    ensures
        window_start(now, ScheduleKind::SummaryTomorrow) == window_start(
            now,
            ScheduleKind::SummaryToday,
        ).spec_plus_seconds(86400),
{
}

/// `sorted` with `e` placed after every event that starts no later than it
/// and before the events that start later.
pub open spec fn insert_by_start(sorted: Seq<Event>, e: Event) -> Seq<Event>
    decreases sorted.len(),
{
    if sorted.len() == 0 {
        seq![e]
    } else if sorted.last().time_start.spec_le(e.time_start) {
        sorted.push(e)
    } else {
        insert_by_start(sorted.drop_last(), e).push(sorted.last())
    }
}

/// The events in ascending order of their start, events that start at the
/// same instant keeping their order (a stable sort).
pub open spec fn sort_by_start(s: Seq<Event>) -> Seq<Event>
    decreases s.len(),
{
    if s.len() == 0 {
        Seq::empty()
    } else {
        insert_by_start(sort_by_start(s.drop_last()), s.last())
    }
}

/// The events start in ascending order.
pub open spec fn sorted_by_start(s: Seq<Event>) -> bool {
    forall|i: int, j: int| 0 <= i < j < s.len() ==> s[i].time_start.spec_le(s[j].time_start)
}

proof fn lemma_insert_split(sorted: Seq<Event>, e: Event, pos: int)
    requires
        0 <= pos <= sorted.len(),
        forall|k: int| pos <= k < sorted.len() ==> !sorted[k].time_start.spec_le(e.time_start),
    ensures
        insert_by_start(sorted, e) == insert_by_start(sorted.take(pos), e) + sorted.skip(pos),
    decreases sorted.len() - pos,
{
    if pos < sorted.len() {
        lemma_insert_split(sorted, e, pos + 1);
        let t = sorted.take(pos + 1);
        assert(t.drop_last() =~= sorted.take(pos));
        assert(t.last() == sorted[pos]);
        assert(insert_by_start(t, e) == insert_by_start(sorted.take(pos), e).push(sorted[pos]));
        assert(sorted.skip(pos) =~= seq![sorted[pos]] + sorted.skip(pos + 1));
        assert(insert_by_start(sorted.take(pos), e).push(sorted[pos]) + sorted.skip(pos + 1)
            =~= insert_by_start(sorted.take(pos), e) + sorted.skip(pos));
    } else {
        assert(sorted.take(pos) =~= sorted);
        assert(sorted.skip(pos) =~= Seq::<Event>::empty());
        assert(insert_by_start(sorted, e) + Seq::<Event>::empty() =~= insert_by_start(sorted, e));
    }
}

/// Places `e` into the list, after every event that starts no later.
fn insert_event(out: &mut Vec<Event>, e: Event)
    ensures
        final(out)@ == insert_by_start(old(out)@, e),
{
    let ghost sorted = out@;
    let mut pos = out.len();
    while pos > 0 && !out[pos - 1].time_start.le(&e.time_start)
        invariant
            out@ == sorted,
            0 <= pos <= sorted.len(),
            forall|k: int| pos <= k < sorted.len() ==> !sorted[k].time_start.spec_le(e.time_start),
        decreases pos,
    {
        pos = pos - 1;
    }
    proof {
        lemma_insert_split(sorted, e, pos as int);
        let t = sorted.take(pos as int);
        if pos > 0 {
            assert(t.last() == sorted[pos - 1]);
            assert(t.last().time_start.spec_le(e.time_start));
            assert(insert_by_start(t, e) == t.push(e));
        } else {
            assert(t =~= Seq::<Event>::empty());
            assert(insert_by_start(t, e) == seq![e]);
        }
    }
    let ghost e0 = e;
    out.insert(pos, e);
    assert(out@ =~= sorted.take(pos as int).push(e0) + sorted.skip(pos as int));
}

/// Sorts the events by their start, keeping the order of events that start
/// at the same instant.
pub fn sort_events_by_start(events: Vec<Event>) -> (r: Vec<Event>)
    ensures
        r@ == sort_by_start(events@),
{
    let ghost all = events@;
    let mut out: Vec<Event> = Vec::new();
    for e in it: events.into_iter()
        invariant
            it.seq() == all,
            out@ == sort_by_start(all.take(it.index() as int)),
    {
        let ghost i = it.index() as int;
        proof {
            let t = all.take(i + 1);
            assert(t.drop_last() =~= all.take(i));
            assert(t.last() == all[i]);
        }
        insert_event(&mut out, e);
    }
    assert(all.take(all.len() as int) =~= all);
    out
}

proof fn lemma_insert_multiset(sorted: Seq<Event>, e: Event)
    ensures
        insert_by_start(sorted, e).to_multiset() == sorted.to_multiset().insert(e),
    decreases sorted.len(),
{
    broadcast use vstd::seq_lib::group_to_multiset_ensures;

    if sorted.len() == 0 {
        assert(seq![e] =~= Seq::<Event>::empty().push(e));
    } else if sorted.last().time_start.spec_le(e.time_start) {
    } else {
        lemma_insert_multiset(sorted.drop_last(), e);
        assert(sorted =~= sorted.drop_last().push(sorted.last()));
        assert(sorted.to_multiset() == sorted.drop_last().to_multiset().insert(sorted.last()));
        assert(insert_by_start(sorted.drop_last(), e).push(sorted.last()).to_multiset()
            == insert_by_start(sorted.drop_last(), e).to_multiset().insert(sorted.last()));
        assert(sorted.drop_last().to_multiset().insert(e).insert(sorted.last())
            =~= sorted.drop_last().to_multiset().insert(sorted.last()).insert(e));
    }
}

proof fn lemma_insert_sorted(sorted: Seq<Event>, e: Event)
    requires
        sorted_by_start(sorted),
    ensures
        sorted_by_start(insert_by_start(sorted, e)),
        insert_by_start(sorted, e).len() == sorted.len() + 1,
        forall|k: int|
            0 <= k < insert_by_start(sorted, e).len() ==> (#[trigger] insert_by_start(sorted, e)[k]
                == e || sorted.contains(insert_by_start(sorted, e)[k])),
    decreases sorted.len(),
{
    let r = insert_by_start(sorted, e);
    if sorted.len() == 0 {
    } else if sorted.last().time_start.spec_le(e.time_start) {
        assert forall|i: int, j: int| 0 <= i < j < r.len() implies r[i].time_start.spec_le(
            r[j].time_start,
        ) by {
            if j == sorted.len() {
                assert(sorted[i].time_start.spec_le(sorted.last().time_start) || i == sorted.len()
                    - 1);
            }
        }
        assert forall|k: int| 0 <= k < r.len() implies (#[trigger] r[k] == e || sorted.contains(
            r[k],
        )) by {
            if k < sorted.len() {
                assert(r[k] == sorted[k]);
            }
        }
    } else {
        let d = sorted.drop_last();
        let m = sorted.last();
        assert(sorted_by_start(d));
        lemma_insert_sorted(d, e);
        let inner = insert_by_start(d, e);
        assert forall|k: int| 0 <= k < inner.len() implies inner[k].time_start.spec_le(
            m.time_start,
        ) by {
            if inner[k] != e {
                assert(d.contains(inner[k]));
                let idx = choose|idx: int| 0 <= idx < d.len() && d[idx] == inner[k];
                assert(sorted[idx] == d[idx]);
            }
        }
        assert forall|i: int, j: int| 0 <= i < j < r.len() implies r[i].time_start.spec_le(
            r[j].time_start,
        ) by {
            if j == r.len() - 1 {
                assert(r[i] == inner[i]);
            } else {
                assert(r[i] == inner[i]);
                assert(r[j] == inner[j]);
            }
        }
        assert forall|k: int| 0 <= k < r.len() implies (#[trigger] r[k] == e || sorted.contains(
            r[k],
        )) by {
            if k == r.len() - 1 {
                assert(sorted[sorted.len() - 1] == m);
            } else {
                assert(r[k] == inner[k]);
                if inner[k] != e {
                    let idx = choose|idx: int| 0 <= idx < d.len() && d[idx] == inner[k];
                    assert(sorted[idx] == d[idx]);
                }
            }
        }
    }
}

/// The sorted summary holds the same events as the list it came from, each
/// as often, and they start in ascending order.
pub proof fn law_sort_by_start(s: Seq<Event>)
    ensures
        sorted_by_start(sort_by_start(s)),
        sort_by_start(s).to_multiset() == s.to_multiset(),
        sort_by_start(s).len() == s.len(),
    decreases s.len(),
{
    broadcast use vstd::seq_lib::group_to_multiset_ensures;

    if s.len() == 0 {
        assert(sort_by_start(s) =~= s);
    } else {
        law_sort_by_start(s.drop_last());
        lemma_insert_sorted(sort_by_start(s.drop_last()), s.last());
        lemma_insert_multiset(sort_by_start(s.drop_last()), s.last());
        assert(s =~= s.drop_last().push(s.last()));
    }
}

/// The line of the summary for one event: its title in quotes, its category
/// in brackets, then its start and end in Mountain Standard Time, and a blank
/// line after.
pub open spec fn event_text(e: Event) -> Seq<char> {
    "\""@ + e.title@ + "\" ("@ + e.cat.text() + ")\n"@ + clock_text(e.time_start) + " - "@
        + clock_text(e.time_end) + "\n\n"@
}

/// The summary of a list of events, one after the other.
pub open spec fn summary_text(events: Seq<Event>) -> Seq<char>
    decreases events.len(),
{
    if events.len() == 0 {
        Seq::empty()
    } else {
        summary_text(events.drop_last()) + event_text(events.last())
    }
}

/// The summary has one entry per event: adding an event at the end adds its
/// title in quotes, its category (whatever its location) in brackets, its
/// start and end in Mountain Standard Time, and a blank line.
pub proof fn law_summary_appends_one_entry(events: Seq<Event>, e: Event)
    ensures
        summary_text(events.push(e)) == summary_text(events) + "\""@ + e.title@ + "\" ("@
            + e.cat.text() + ")\n"@ + clock_text(e.time_start) + " - "@ + clock_text(e.time_end)
            + "\n\n"@,
{
    assert(events.push(e).drop_last() =~= events);
    assert(event_text(e) =~= "\""@ + e.title@ + "\" ("@ + e.cat.text() + ")\n"@ + clock_text(
        e.time_start,
    ) + " - "@ + clock_text(e.time_end) + "\n\n"@);
}

/// The summary of two lists one after the other is the summary of the first
/// followed by that of the second: every event gives its own entry, in order.
pub proof fn law_summary_concatenates(a: Seq<Event>, b: Seq<Event>)
    ensures
        summary_text(a + b) == summary_text(a) + summary_text(b),
    decreases b.len(),
{
    if b.len() == 0 {
        assert(a + b =~= a);
        assert(summary_text(b) =~= Seq::<char>::empty());
        assert(summary_text(a) + summary_text(b) =~= summary_text(a));
    } else {
        law_summary_concatenates(a, b.drop_last());
        assert((a + b).drop_last() =~= a + b.drop_last());
        assert((a + b).last() == b.last());
        assert(summary_text(a + b) =~= summary_text(a) + summary_text(b));
    }
}

/// Where an event takes place does not show in the summary: two lists whose
/// events differ only in their locations give the same text.
pub proof fn law_summary_ignores_location(a: Seq<Event>, b: Seq<Event>)
    requires
        a.len() == b.len(),
        forall|i: int|
            0 <= i < a.len() ==> a[i].cat == b[i].cat && a[i].title == b[i].title && a[i].time_start
                == b[i].time_start && a[i].time_end == b[i].time_end,
    ensures
        summary_text(a) == summary_text(b),
    decreases a.len(),
{
    if a.len() > 0 {
        law_summary_ignores_location(a.drop_last(), b.drop_last());
        assert(a.last() == a[a.len() - 1]);
        assert(b.last() == b[b.len() - 1]);
    }
}

/// Every event's start and end can be written.
pub open spec fn times_wf(events: Seq<Event>) -> bool {
    forall|i: int| 0 <= i < events.len() ==> events[i].time_start.wf() && events[i].time_end.wf()
}

/// Writes the summary of the events in the order given.
pub fn summary_message(events: &Vec<Event>) -> (s: String)
    requires
        times_wf(events@),
    ensures
        s@ == summary_text(events@),
{
    let mut msg = String::new();
    let n = events.len();
    let mut i: usize = 0;
    while i < n
        invariant
            n == events@.len(),
            i <= n,
            times_wf(events@),
            msg@ == summary_text(events@.take(i as int)),
        decreases n - i,
    {
        let e = &events[i];
        let ghost before = msg@;
        msg.append("\"");
        msg.append(e.title.as_str());
        msg.append("\" (");
        let cat = e.cat.to_string();
        msg.append(cat.as_str());
        msg.append(")\n");
        let start = mountain_clock_text(&e.time_start);
        msg.append(start.as_str());
        msg.append(" - ");
        let end = mountain_clock_text(&e.time_end);
        msg.append(end.as_str());
        msg.append("\n\n");
        proof {
            let t = events@.take(i + 1);
            assert(t.drop_last() =~= events@.take(i as int));
            assert(t.last() == events@[i as int]);
            assert(msg@ =~= before + event_text(events@[i as int]));
        }
        i += 1;
    }
    assert(events@.take(n as int) =~= events@);
    msg
}

/// The notification that summarizes a day: titled `Today's Events`, with the
/// events sorted by their start.
pub fn summary_notice(events: Vec<Event>) -> (n: Notice)
    requires
        times_wf(events@),
    ensures
        n.title@ == "Today's Events"@,
        n.body@ == summary_text(sort_by_start(events@)),
{
    proof {
        law_sort_by_start(events@);
        let s = sort_by_start(events@);
        assert forall|i: int| 0 <= i < s.len() implies s[i].time_start.wf() && s[i].time_end.wf() by {
            assert(s.contains(s[i]));
            vstd::seq_lib::to_multiset_contains(s, s[i]);
            vstd::seq_lib::to_multiset_contains(events@, s[i]);
            let k = choose|k: int| 0 <= k < events@.len() && events@[k] == s[i];
            assert(events@[k].time_start.wf());
        }
    }
    let sorted = sort_events_by_start(events);
    let body = summary_message(&sorted);
    Notice { title: String::from_str("Today's Events"), body }
}

/// Where an HTTP request is routed.
#[derive(Debug, PartialEq, Eq, Structural, Clone, Copy)]
pub enum Route {
    /// Runs the jobs.
    Execute,
    /// The path exists but not for this method.
    MethodNotAllowed,
    /// No handler exists for the path: such a request gets no response.
    Unmatched,
}

/// The route of a request: a POST to `/execute` runs the jobs, any other
/// method there is refused, and other paths have no handler.
pub open spec fn route_of(method: HttpMethod, path: Seq<char>) -> Route {
    if path == "/execute"@ {
        if method == HttpMethod::Post {
            Route::Execute
        } else {
            Route::MethodNotAllowed
        }
    } else {
        Route::Unmatched
    }
}

/// Routes a request. A request to any path but `/execute`, whatever its
/// method, is unmatched: no handler answers it.
pub fn route(method: HttpMethod, path: &str) -> (r: Route)
    ensures
        r == route_of(method, path@),
        path@ != "/execute"@ ==> r == Route::Unmatched,
        path@ == "/execute"@ ==> (r == Route::Execute <==> method == HttpMethod::Post),
{
    if String::from_str(path) == String::from_str("/execute") {
        match method {
            HttpMethod::Post => Route::Execute,
            _ => Route::MethodNotAllowed,
        }
    } else {
        Route::Unmatched
    }
}

/// The response to running the jobs: the JSON body that reports success with
/// status 200, or the JSON body that reports the error with status 500.
pub fn execute_response(outcome: Result<&str, &str>) -> (r: HttpResponse)
    ensures
        r.status == (if outcome is Ok { 200i32 } else { 500i32 }),
        r.body matches Some(b) && b@ == (match outcome {
            Ok(j) => j@,
            Err(j) => j@,
        }),
        r.headers matches Some(h) && h@ == Map::<Seq<char>, Seq<char>>::empty().insert(
            "content-type"@,
            "application/json"@,
        ),
{
    match outcome {
        Ok(json) => HttpResponse::new().body_json(json),
        Err(json) => HttpResponse::new().status(500).body_json(json),
    }
}

/// The JSON text of a string, as `serde_json::to_string` writes it: the
/// string in double quotes, with the characters that JSON does not allow
/// there escaped.
pub uninterp spec fn json_string_text(s: Seq<char>) -> Seq<char>;

/// Calls `serde_json::to_string` on a string. The contract claims that the
/// call succeeds (it writes into a `Vec`, which cannot fail) and that the
/// text is [`json_string_text`] of the string; how characters are escaped is
/// left to that name.
#[verifier::external_body]
fn json_string(s: &str) -> (r: serde_json::Result<String>)
    ensures
        match r {
            Ok(t) => t@ == json_string_text(s@),
            Err(_) => false,
        },
{
    serde_json::to_string(s)
}

/// The body that reports that the jobs ran.
pub open spec fn success_body_text() -> Seq<char> {
    "{\"success\":true}"@
}

/// The body that reports that the jobs failed, with the text of the error.
pub open spec fn error_body_text(errors: Seq<char>) -> Seq<char> {
    "{\"success\":false,\"errors\":"@ + json_string_text(errors) + "}"@
}

/// The JSON body that reports that the jobs ran: `{"success":true}`.
pub fn success_body() -> (b: String)
    ensures
        b@ == success_body_text(),
{
    String::from_str("{\"success\":true}")
}

/// The JSON body that reports that the jobs failed: `success` is `false`
/// and `errors` holds the text of the error as a JSON string.
pub fn error_body(errors: &str) -> (b: String)
    ensures
        b@ == error_body_text(errors@),
{
    let mut b = String::from_str("{\"success\":false,\"errors\":");
    match json_string(errors) {
        Ok(t) => b.append(t.as_str()),
        Err(_) => {
            proof {
                assert(false);
            }
        },
    }
    b.append("}");
    b
}

/// The response to running the jobs: status 200 with the body that reports
/// success, or status 500 with the body that reports the error's text.
pub fn job_response(outcome: Result<(), &str>) -> (r: HttpResponse)
    ensures
        r.status == (if outcome is Ok { 200i32 } else { 500i32 }),
        r.body matches Some(b) && b@ == (match outcome {
            Ok(_) => success_body_text(),
            Err(errors) => error_body_text(errors@),
        }),
        r.headers matches Some(h) && h@ == Map::<Seq<char>, Seq<char>>::empty().insert(
            "content-type"@,
            "application/json"@,
        ),
{
    match outcome {
        Ok(()) => {
            let body = success_body();
            execute_response(Ok(body.as_str()))
        },
        Err(errors) => {
            let body = error_body(errors);
            execute_response(Err(body.as_str()))
        },
    }
}

/// The response to a request whose method is refused: status 405, no
/// headers, no body.
pub fn method_not_allowed() -> (r: HttpResponse)
    ensures
        r.status == 405,
        r.headers is None,
        r.body is None,
{
    HttpResponse::new().status(405)
}

} // verus!
