//! The events that the Lambda function receives, and the HTTP responses it
//! gives.
use vstd::prelude::*;

verus! {

/// A map from text keys to text values, such as the headers of an HTTP
/// message. Each key occurs once.
pub struct Object {
    entries: Vec<(String, String)>,
}

/// The entries hold no key twice.
pub open spec fn keys_distinct(s: Seq<(String, String)>) -> bool {
    forall|i: int, j: int| 0 <= i < s.len() && 0 <= j < s.len() && s[i].0@ == s[j].0@ ==> i == j
}

/// The map that a list of entries with distinct keys stands for.
pub open spec fn map_of(s: Seq<(String, String)>) -> Map<Seq<char>, Seq<char>> {
    Map::new(
        |k: Seq<char>| exists|i: int| 0 <= i < s.len() && s[i].0@ == k,
        |k: Seq<char>| s[choose|i: int| 0 <= i < s.len() && s[i].0@ == k].1@,
    )
}

proof fn lemma_map_of_at(s: Seq<(String, String)>, i: int)
    requires
        keys_distinct(s),
        0 <= i < s.len(),
    ensures
        map_of(s).contains_key(s[i].0@),
        map_of(s)[s[i].0@] == s[i].1@,
{
    let k = s[i].0@;
    assert(exists|j: int| 0 <= j < s.len() && s[j].0@ == k);
    let j = choose|j: int| 0 <= j < s.len() && s[j].0@ == k;
    assert(j == i);
}

impl Object {
    #[verifier::type_invariant]
    closed spec fn inv(self) -> bool {
        keys_distinct(self.entries@)
    }

    /// The map the object holds.
    pub closed spec fn view(self) -> Map<Seq<char>, Seq<char>> {
        map_of(self.entries@)
    }

    /// The entries, one per key.
    pub closed spec fn pairs(self) -> Seq<(String, String)> {
        self.entries@
    }

    /// An empty object.
    pub fn new() -> (o: Object)
        ensures
            o.view() == Map::<Seq<char>, Seq<char>>::empty(),
            o.pairs() == Seq::<(String, String)>::empty(),
    {
        let o = Object { entries: Vec::new() };
        assert(o.view() =~= Map::<Seq<char>, Seq<char>>::empty());
        o
    }

    /// The number of keys.
    pub fn len(&self) -> (n: usize)
        ensures
            n == self.pairs().len(),
    {
        self.entries.len()
    }

    /// The entries, one per key.
    pub fn entries(&self) -> (e: &Vec<(String, String)>)
        ensures
            e@ == self.pairs(),
            keys_distinct(e@),
            map_of(e@) == self.view(),
    {
        proof {
            use_type_invariant(self);
        }
        &self.entries
    }

    /// Sets the value of a key, replacing the value it had.
    pub fn insert(&mut self, k: String, v: String)
        ensures
            final(self).view() == old(self).view().insert(k@, v@),
    {
        proof {
            use_type_invariant(&*self);
        }
        let n = self.entries.len();
        let mut i: usize = 0;
        while i < n
            invariant
                n == self.entries@.len(),
                i <= n,
                self.entries@ == old(self).entries@,
                keys_distinct(self.entries@),
                forall|j: int| 0 <= j < i ==> self.entries@[j].0@ != k@,
            decreases n - i,
        {
            if self.entries[i].0 == k {
                let mut entries: Vec<(String, String)> = Vec::new();
                std::mem::swap(&mut entries, &mut self.entries);
                proof {
                    lemma_map_of_update(entries@, i as int, k, v);
                }
                entries.set(i, (k, v));
                self.entries = entries;
                return ;
            }
            i += 1;
        }
        let mut entries: Vec<(String, String)> = Vec::new();
        std::mem::swap(&mut entries, &mut self.entries);
        proof {
            lemma_map_of_push(entries@, k, v);
        }
        entries.push((k, v));
        self.entries = entries;
    }
}

/// Replacing the value at a key keeps the keys distinct and updates the map.
proof fn lemma_map_of_update(s: Seq<(String, String)>, i: int, k: String, v: String)
    requires
        keys_distinct(s),
        0 <= i < s.len(),
        s[i].0@ == k@,
    ensures
        keys_distinct(s.update(i, (k, v))),
        map_of(s.update(i, (k, v))) == map_of(s).insert(k@, v@),
{
    let t = s.update(i, (k, v));
    assert forall|a: int, b: int| 0 <= a < t.len() && 0 <= b < t.len() && t[a].0@ == t[b].0@ implies a
        == b by {
        assert(s[a].0@ == t[a].0@);
        assert(s[b].0@ == t[b].0@);
    }
    lemma_map_of_at(t, i);
    assert forall|key: Seq<char>| #[trigger] map_of(s).insert(k@, v@).contains_key(key) implies map_of(
        t,
    ).contains_key(key) && map_of(t)[key] == map_of(s).insert(k@, v@)[key] by {
        if key != k@ {
            assert(map_of(s).contains_key(key));
            let j = choose|j: int| 0 <= j < s.len() && s[j].0@ == key;
            assert(j != i);
            assert(t[j] == s[j]);
            lemma_map_of_at(s, j);
            lemma_map_of_at(t, j);
        }
    }
    assert forall|key: Seq<char>| #[trigger] map_of(t).contains_key(key) implies map_of(s).insert(
        k@,
        v@,
    ).contains_key(key) by {
        let j = choose|j: int| 0 <= j < t.len() && t[j].0@ == key;
        assert(s[j].0@ == key);
    }
    assert(map_of(t) =~= map_of(s).insert(k@, v@));
}

/// Adding an entry with a new key keeps the keys distinct and extends the map.
proof fn lemma_map_of_push(s: Seq<(String, String)>, k: String, v: String)
    requires
        keys_distinct(s),
        forall|j: int| 0 <= j < s.len() ==> s[j].0@ != k@,
    ensures
        keys_distinct(s.push((k, v))),
        map_of(s.push((k, v))) == map_of(s).insert(k@, v@),
{
    let t = s.push((k, v));
    assert forall|a: int, b: int| 0 <= a < t.len() && 0 <= b < t.len() && t[a].0@ == t[b].0@ implies a
        == b by {
        if a < s.len() && b < s.len() {
            assert(s[a].0@ == t[a].0@);
            assert(s[b].0@ == t[b].0@);
        } else if a < s.len() {
            assert(s[a].0@ == t[a].0@);
        } else if b < s.len() {
            assert(s[b].0@ == t[b].0@);
        }
    }
    lemma_map_of_at(t, s.len() as int);
    assert forall|key: Seq<char>| #[trigger] map_of(s).insert(k@, v@).contains_key(key) implies map_of(
        t,
    ).contains_key(key) && map_of(t)[key] == map_of(s).insert(k@, v@)[key] by {
        if key != k@ {
            assert(map_of(s).contains_key(key));
            let j = choose|j: int| 0 <= j < s.len() && s[j].0@ == key;
            assert(t[j] == s[j]);
            lemma_map_of_at(s, j);
            lemma_map_of_at(t, j);
        }
    }
    assert forall|key: Seq<char>| #[trigger] map_of(t).contains_key(key) implies map_of(s).insert(
        k@,
        v@,
    ).contains_key(key) by {
        let j = choose|j: int| 0 <= j < t.len() && t[j].0@ == key;
        if j < s.len() {
            assert(s[j].0@ == key);
        }
    }
    assert(map_of(t) =~= map_of(s).insert(k@, v@));
}

/// What the Lambda function was invoked for.
pub enum Event {
    Http(HttpRequest),
    Schedule { kind: ScheduleKind },
}

/// The scheduled runs.
#[derive(Debug, PartialEq, Eq, Structural, Clone, Copy)]
pub enum ScheduleKind {
    KeepWarm,
    SummaryToday,
    SummaryTomorrow,
}

/// An HTTP request that reached the function.
pub struct HttpRequest {
    pub path: String,
    pub method: HttpMethod,
    pub headers: Option<Object>,
    pub query: Option<Object>,
    pub body: Option<String>,
}

/// The HTTP response that the function gives.
pub struct HttpResponse {
    pub status: i32,
    pub headers: Option<Object>,
    pub body: Option<String>,
}

/// The methods of an HTTP request that the function tells apart.
#[derive(Debug, PartialEq, Eq, Structural, Clone, Copy)]
pub enum HttpMethod {
    Get,
    Post,
    Options,
    Other,
}

/// The map of an optional object: its map where there is one, else empty.
pub open spec fn headers_map(h: Option<Object>) -> Map<Seq<char>, Seq<char>> {
    match h {
        Some(o) => o.view(),
        None => Map::empty(),
    }
}

impl HttpResponse {
    /// A response with status 200, no headers and no body.
    pub fn new() -> (r: Self)
        ensures
            r.status == 200,
            r.headers is None,
            r.body is None,
    {
        HttpResponse { status: 200, headers: None, body: None }
    }

    /// Sets the status.
    pub fn status(self, status: i32) -> (r: Self)
        ensures
            r.status == status,
            r.headers == self.headers,
            r.body == self.body,
    {
        HttpResponse { status, ..self }
    }

    /// Sets the body to a JSON text and marks it as JSON.
    pub fn body_json(self, json: &str) -> (r: Self)
        ensures
            r.status == self.status,
            r.body matches Some(b) && b@ == json@,
            r.headers matches Some(h) && h@ == headers_map(self.headers).insert(
                "content-type"@,
                "application/json"@,
            ),
    {
        self.body(json).header("content-type", "application/json")
    }

    /// Sets the body.
    pub fn body(self, body: &str) -> (r: Self)
        ensures
            r.status == self.status,
            r.headers == self.headers,
            r.body matches Some(b) && b@ == body@,
    {
        HttpResponse { body: Some(String::from_str(body)), ..self }
    }

    /// Sets all headers at once.
    pub fn headers(self, headers: Object) -> (r: Self)
        ensures
            r.status == self.status,
            r.headers == Some(headers),
            r.body == self.body,
    {
        HttpResponse { headers: Some(headers), ..self }
    }

    /// Sets one header, adding the headers where there were none.
    pub fn header(self, k: &str, v: &str) -> (r: Self)
        ensures
            r.status == self.status,
            r.body == self.body,
            r.headers matches Some(h) && h@ == headers_map(self.headers).insert(k@, v@),
    {
        let mut this = self;
        if this.headers.is_none() {
            this = this.headers(Object::new());
        }
        let mut h = match this.headers {
            Some(h) => h,
            None => Object::new(),
        };
        h.insert(String::from_str(k), String::from_str(v));
        HttpResponse { headers: Some(h), ..this }
    }
}

} // verus!
