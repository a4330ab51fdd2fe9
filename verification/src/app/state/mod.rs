//! Where the application state is kept, and what the operations on it
//! decide: which sign-in notices to send, and how the outcomes of the
//! calendars and notifiers combine.
use vstd::prelude::*;

pub mod file;
pub mod in_mem;

use super::{AnyError, Error};
use crate::calendar::Event;
use crate::integrate::ad::Auth;

verus! {

/// Where the state is kept.
#[derive(Debug, PartialEq, Eq, Structural, Clone, Copy)]
pub enum S {
    File,
    InMem,
}

impl S {
    /// The store named by the `STATE_MODE` setting: the file for `FILE`, and
    /// memory otherwise.
    pub fn from_mode(mode: Option<&str>) -> (s: S)
        ensures
            s == (if mode matches Some(m) && m@ == "FILE"@ {
                S::File
            } else {
                S::InMem
            }),
    {
        match mode {
            Some(m) => {
                if String::from_str(m) == String::from_str("FILE") {
                    S::File
                } else {
                    S::InMem
                }
            },
            None => S::InMem,
        }
    }
}

/// A notification: its title and its body.
pub struct Notice {
    pub title: String,
    pub body: String,
}

/// The notices that a sign-in state calls for: while a device code waits to
/// be entered, one with the service's message, then one with the code.
pub open spec fn auth_notice_texts(auth: Auth) -> Seq<(Seq<char>, Seq<char>)> {
    match auth {
        Auth::WaitForCodeAuth { message, user_code, .. } => seq![
            ("Auth needed"@, message@),
            ("Code"@, user_code@),
        ],
        _ => Seq::empty(),
    }
}

/// The titles and bodies of a list of notices.
pub open spec fn notice_texts(v: Seq<Notice>) -> Seq<(Seq<char>, Seq<char>)> {
    v.map_values(|n: Notice| (n.title@, n.body@))
}

/// The notices to send after a sign-in step.
pub fn auth_notices(auth: &Auth) -> (v: Vec<Notice>)
    ensures
        notice_texts(v@) == auth_notice_texts(*auth),
        !(*auth is WaitForCodeAuth) ==> v@.len() == 0,
        *auth matches Auth::WaitForCodeAuth { message, user_code, .. } ==> {
            &&& v@.len() == 2
            &&& v@[0].title@ == "Auth needed"@ && v@[0].body@ == message@
            &&& v@[1].title@ == "Code"@ && v@[1].body@ == user_code@
        },
{
    match (auth.wait_msg(), auth.user_code()) {
        (Some(code_msg), Some(user_code)) => {
            let v = vec![
                Notice { title: String::from_str("Auth needed"), body: String::from_str(code_msg) },
                Notice { title: String::from_str("Code"), body: String::from_str(user_code) },
            ];
            assert(notice_texts(v@) =~= auth_notice_texts(*auth));
            v
        },
        _ => {
            let v: Vec<Notice> = Vec::new();
            assert(notice_texts(v@) =~= auth_notice_texts(*auth));
            v
        },
    }
}

/// The values of the successes, in order.
pub open spec fn ok_values<T, E>(s: Seq<Result<T, E>>) -> Seq<T>
    decreases s.len(),
{
    if s.len() == 0 {
        Seq::empty()
    } else {
        let init = ok_values(s.drop_last());
        match s.last() {
            Ok(t) => init.push(t),
            Err(_) => init,
        }
    }
}

/// The errors of the failures, in order.
pub open spec fn err_values<T, E>(s: Seq<Result<T, E>>) -> Seq<E>
    decreases s.len(),
{
    if s.len() == 0 {
        Seq::empty()
    } else {
        let init = err_values(s.drop_last());
        match s.last() {
            Ok(_) => init,
            Err(e) => init.push(e),
        }
    }
}

/// Collects a list of outcomes: all the values where every outcome is a
/// success, and otherwise all the errors, each list in order.
pub fn collect_results<T, E>(results: Vec<Result<T, E>>) -> (r: Result<Vec<T>, Vec<E>>)
    ensures
        err_values(results@).len() == 0 ==> (r matches Ok(v) && v@ == ok_values(results@)),
        err_values(results@).len() > 0 ==> (r matches Err(es) && es@ == err_values(results@)),
{
    let ghost all = results@;
    let mut oks: Vec<T> = Vec::new();
    let mut errs: Vec<E> = Vec::new();
    for x in it: results.into_iter()
        invariant
            it.seq() == all,
            oks@ == ok_values(all.take(it.index() as int)),
            errs@ == err_values(all.take(it.index() as int)),
    {
        let ghost i = it.index() as int;
        assert(all.take(i + 1).drop_last() =~= all.take(i));
        assert(all.take(i + 1).last() == all[i]);
        match x {
            Ok(t) => oks.push(t),
            Err(e) => errs.push(e),
        }
    }
    assert(all.take(all.len() as int) =~= all);
    if errs.len() > 0 {
        Err(errs)
    } else {
        Ok(oks)
    }
}

/// The events of several calendars, one list after the other.
pub open spec fn joined_events(lists: Seq<Vec<Event>>) -> Seq<Event> {
    lists.map_values(|v: Vec<Event>| v@).flatten()
}

/// The outcome of reading every calendar: all their events, in calendar
/// order, where every calendar was read; otherwise every error met.
pub fn events_outcome(results: Vec<Result<Vec<Event>, AnyError>>) -> (r: Result<Vec<Event>, Error>)
    ensures
        err_values(results@).len() == 0 ==> (r matches Ok(v) && v@ == joined_events(
            ok_values(results@),
        )),
        err_values(results@).len() > 0 ==> (r matches Err(Error::Many(es)) && es@ == err_values(
            results@,
        )),
{
    match collect_results(results) {
        Ok(nested) => {
            let ghost lists = nested@;
            let mut out: Vec<Event> = Vec::new();
            for v in it: nested.into_iter()
                invariant
                    it.seq() == lists,
                    out@ == joined_events(lists.take(it.index() as int)),
            {
                let ghost i = it.index() as int;
                let mut v = v;
                proof {
                    assert(lists.take(i + 1).drop_last() =~= lists.take(i));
                    let m = lists.take(i + 1).map_values(|v: Vec<Event>| v@);
                    assert(m.drop_last() =~= lists.take(i).map_values(|v: Vec<Event>| v@));
                    assert(m.last() == lists[i]@);
                    assert(m =~= m.drop_last().push(m.last()));
                    m.drop_last().lemma_flatten_push(m.last());
                }
                out.append(&mut v);
            }
            assert(lists.take(lists.len() as int) =~= lists);
            Ok(out)
        },
        Err(errs) => Err(Error::Many(errs)),
    }
}

/// The outcome of sending a notice through every notifier: success where
/// every notifier succeeded, otherwise every error met.
pub fn notify_outcome(results: Vec<Result<(), AnyError>>) -> (r: Result<(), Error>)
    ensures
        err_values(results@).len() == 0 ==> r is Ok,
        err_values(results@).len() > 0 ==> (r matches Err(Error::Many(es)) && es@ == err_values(
            results@,
        )),
{
    match collect_results(results) {
        Ok(_) => Ok(()),
        Err(errs) => Err(Error::Many(errs)),
    }
}

/// Only a device code waiting to be entered calls for notices: before sign-in
/// and once signed in, the user is told nothing; while the code waits, the
/// user gets the service's message and then the code.
pub proof fn law_notices_only_while_waiting(auth: Auth)
    ensures
        !(auth is WaitForCodeAuth) ==> auth_notice_texts(auth).len() == 0,
        auth matches Auth::WaitForCodeAuth { message, user_code, .. } ==> auth_notice_texts(auth)
            =~= seq![("Auth needed"@, message@), ("Code"@, user_code@)],
{
}

} // verus!
