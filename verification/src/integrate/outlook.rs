//! The Outlook calendar, read through Microsoft Graph with the Azure AD sign-in.
use vstd::prelude::*;

use super::ad::Auth;
use crate::calendar::{Cat, Event};
use crate::time::{graph_datetime, parse_graph_datetime, rfc3339_text, to_rfc3339, Timestamp};

verus! {

/// An Outlook calendar and the sign-in that reads it.
#[derive(Debug)]
pub struct Outlook(Auth);

/// One parameter of a query string.
pub struct QueryParam {
    pub name: String,
    pub value: String,
}

/// The GET request that reads the events of a time span.
pub struct CalendarViewRequest {
    pub url: String,
    pub query: Vec<QueryParam>,
    pub authorization: String,
}

impl CalendarViewRequest {
    /// The query's parameters, by name and value, in order.
    pub open spec fn params(self) -> Seq<(Seq<char>, Seq<char>)> {
        self.query@.map_values(|q: QueryParam| (q.name@, q.value@))
    }
}

/// An event as the calendar view of Microsoft Graph gives it.
pub struct CalendarViewResponse {
    pub subject: String,
    pub start: DateWrapper,
    pub end: DateWrapper,
    pub location: Location,
}

/// Where an event takes place.
pub struct Location {
    pub display_name: String,
}

/// A date and time with the name of its time zone.
pub struct DateWrapper {
    pub date_time: String,
    pub time_zone: String,
}

impl DateWrapper {
    /// The date and time can be read.
    pub open spec fn parses(self) -> bool {
        graph_datetime(self.date_time@) is Some
    }

    /// The instant that the date and time stand for, read as UTC whatever
    /// time zone is named.
    pub open spec fn instant(self) -> Timestamp {
        let p = graph_datetime(self.date_time@).unwrap();
        Timestamp { secs: p.0, nanos: p.1 }
    }

    /// Reads the date and time as an instant in UTC.
    pub fn into_timestamp(self) -> (t: Timestamp)
        requires
            self.parses(),
        ensures
            t == self.instant(),
            t.wf(),
    {
        match parse_graph_datetime(self.date_time.as_str()) {
            Some(t) => t,
            None => {
                proof {
                    assert(false);
                }
                Timestamp { secs: 0, nanos: 0 }
            },
        }
    }

    /// Reads the date and time as an instant in UTC, where it can be read.
    pub fn try_into_timestamp(self) -> (t: Option<Timestamp>)
        ensures
            t == (if self.parses() { Some(self.instant()) } else { None::<Timestamp> }),
    {
        if parse_graph_datetime(self.date_time.as_str()).is_some() {
            Some(self.into_timestamp())
        } else {
            None
        }
    }
}

impl CalendarViewResponse {
    /// Both ends of the event can be read.
    pub open spec fn parses(self) -> bool {
        self.start.parses() && self.end.parses()
    }

    /// The calendar event that the reply stands for: a work event, titled with
    /// the subject, at the location's name.
    pub open spec fn event_matches(self, e: Event) -> bool {
        &&& e.cat == Cat::Work
        &&& e.title == self.subject
        &&& e.time_start == self.start.instant()
        &&& e.time_end == self.end.instant()
        &&& e.location == Some(self.location.display_name)
    }

    /// Makes the calendar event out of the reply.
    pub fn into_event(self) -> (e: Event)
        requires
            self.parses(),
        ensures
            self.event_matches(e),
            e.time_start.wf(),
            e.time_end.wf(),
    {
        Event {
            cat: Cat::Work,
            title: self.subject,
            time_start: self.start.into_timestamp(),
            time_end: self.end.into_timestamp(),
            location: Some(self.location.display_name),
        }
    }

    /// Makes the calendar event out of the reply, where both ends can be read.
    pub fn try_into_event(self) -> (e: Option<Event>)
        ensures
            self.parses() <==> e is Some,
            e matches Some(ev) ==> self.event_matches(ev),
    {
        if parse_graph_datetime(self.start.date_time.as_str()).is_some() && parse_graph_datetime(
            self.end.date_time.as_str(),
        ).is_some() {
            Some(self.into_event())
        } else {
            None
        }
    }
}

/// Every reply in the list can be read.
pub open spec fn all_parse(values: Seq<CalendarViewResponse>) -> bool {
    forall|i: int| 0 <= i < values.len() ==> values[i].parses()
}

/// The events that a list of replies stands for, in the same order.
pub open spec fn events_match(values: Seq<CalendarViewResponse>, events: Seq<Event>) -> bool {
    &&& events.len() == values.len()
    &&& forall|i: int| 0 <= i < values.len() ==> values[i].event_matches(events[i])
}

/// Makes the calendar events out of the replies of the calendar view.
pub fn into_events(values: Vec<CalendarViewResponse>) -> (events: Vec<Event>)
    requires
        all_parse(values@),
    ensures
        events_match(values@, events@),
        forall|i: int| 0 <= i < events@.len() ==> events@[i].time_start.wf() && events@[i].time_end.wf(),
{
    let ghost all = values@;
    let mut events: Vec<Event> = Vec::new();
    for v in it: values.into_iter()
        invariant
            it.seq() == all,
            all_parse(all),
            events@.len() == it.index(),
            forall|i: int| 0 <= i < it.index() ==> all[i].event_matches(events@[i]),
            forall|i: int| 0 <= i < events@.len() ==> events@[i].time_start.wf() && events@[i].time_end.wf(),
    {
        let ghost k = it.index() as int;
        assert(v == all[k]);
        events.push(v.into_event());
    }
    events
}

/// Makes the calendar events out of the replies, where every reply can be
/// read; nothing otherwise.
pub fn try_into_events(values: Vec<CalendarViewResponse>) -> (events: Option<Vec<Event>>)
    ensures
        all_parse(values@) <==> events is Some,
        events matches Some(es) ==> events_match(values@, es@),
{
    let n = values.len();
    let mut i: usize = 0;
    while i < n
        invariant
            n == values@.len(),
            i <= n,
            forall|j: int| 0 <= j < i ==> values@[j].parses(),
        decreases n - i,
    {
        if parse_graph_datetime(values[i].start.date_time.as_str()).is_none()
            || parse_graph_datetime(values[i].end.date_time.as_str()).is_none() {
            return None;
        }
        i += 1;
    }
    Some(into_events(values))
}

/// The path of the calendar view under the Graph base URL.
pub open spec fn calendar_view_path() -> Seq<char> {
    "/me/calendar/calendarView"@
}

impl Outlook {
    /// The sign-in the calendar reads with.
    pub closed spec fn auth(self) -> Auth {
        self.0
    }

    /// The calendar that reads with the given sign-in.
    pub closed spec fn spec_new(auth: Auth) -> Outlook {
        Outlook(auth)
    }

    /// Makes a calendar that reads with the given sign-in.
    pub fn new(auth: Auth) -> (o: Self)
        ensures
            o == Outlook::spec_new(auth),
            o.auth() == auth,
    {
        Outlook(auth)
    }

    /// The sign-in the calendar reads with.
    pub fn sign_in(&self) -> (a: &Auth)
        ensures
            *a == self.auth(),
    {
        &self.0
    }

    /// The token sent with the request: the access token once signed in, and
    /// empty otherwise.
    pub open spec fn bearer_token(self) -> Seq<char> {
        match self.auth() {
            Auth::Authed { token, .. } => token@,
            _ => Seq::<char>::empty(),
        }
    }

    /// The request that reads the events between `after` and `before`.
    pub fn calendar_view_request(&self, after: Timestamp, before: Timestamp) -> (r:
        CalendarViewRequest)
        requires
            after.wf(),
            before.wf(),
        ensures
            r.url@ == self.auth().graph_base_url()@ + calendar_view_path(),
            r.params() == seq![
                ("startDateTime"@, rfc3339_text(after.secs, after.nanos)),
                ("endDateTime"@, rfc3339_text(before.secs, before.nanos)),
            ],
            r.authorization@ == "Bearer "@ + self.bearer_token(),
            !(self.auth() is Authed) ==> r.authorization@ == "Bearer "@,
            self.auth() matches Auth::Authed { token, .. } ==> r.authorization@ == "Bearer "@
                + token@,
    {
        let token: String = match self.0.token() {
            Some(t) => String::from_str(t),
            None => String::new(),
        };
        let mut url = String::from_str(self.0.shared().graph_base_url);
        url.append("/me/calendar/calendarView");
        let query = vec![
            QueryParam { name: String::from_str("startDateTime"), value: to_rfc3339(&after) },
            QueryParam { name: String::from_str("endDateTime"), value: to_rfc3339(&before) },
        ];
        let mut authorization = String::from_str("Bearer ");
        authorization.append(token.as_str());
        let r = CalendarViewRequest { url, query, authorization };
        assert(r.params() =~= seq![
            ("startDateTime"@, rfc3339_text(after.secs, after.nanos)),
            ("endDateTime"@, rfc3339_text(before.secs, before.nanos)),
        ]);
        r
    }
}

/// The calendar request carries a token only once signed in: the access
/// token of a granted sign-in, and nothing for a sign-in that has not started
/// or whose device code still waits.
pub proof fn law_bearer_only_when_signed_in(o: Outlook)
    ensures
        !(o.auth() is Authed) ==> o.bearer_token() =~= Seq::<char>::empty(),
        o.auth() matches Auth::Authed { token, .. } ==> o.bearer_token() == token@,
{
}

} // verus!
