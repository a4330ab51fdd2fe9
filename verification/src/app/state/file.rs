//! The state kept in a JSON file, loaded once and written back after every
//! change. The reading and writing of the file happen outside the library;
//! this store holds the loaded state in between.
use vstd::prelude::*;

use crate::app::{AnyError, App, Error};

verus! {

/// The store backed by a file.
#[derive(Debug)]
pub struct State {
    cur: Option<App>,
}

impl State {
    /// The state held, if any.
    pub closed spec fn current(self) -> Option<App> {
        self.cur
    }

    /// A store that holds nothing yet.
    pub fn new() -> (s: State)
        ensures
            s.current() is None,
    {
        State { cur: None }
    }

    /// Whether a state is held.
    pub fn already_init(&self) -> (b: bool)
        ensures
            b == self.current() is Some,
    {
        self.cur.is_some()
    }

    /// Holds the state loaded from the file (or the empty state written to a
    /// new file), made ready for use.
    pub fn init_with(&mut self, loaded: App)
        ensures
            final(self).current() matches Some(a) && a.prepared_from(loaded),
    {
        let mut s = loaded;
        s.prepare();
        self.cur = Some(s);
    }

    /// `r` is what a read of the store gives: the state held, or the error
    /// that none is.
    pub open spec fn read_answers(self, r: Result<&App, Error>) -> bool {
        match self.current() {
            Some(a) => r == Ok::<&App, Error>(&a),
            None => r matches Err(Error::Other(m)) && m@ == "CUR should have been initialized"@,
        }
    }

    /// The state held.
    pub fn read(&self) -> (r: Result<&App, Error>)
        ensures
            self.read_answers(r),
    {
        match &self.cur {
            Some(a) => Ok(a),
            None => Err(Error::Other(String::from_str("CUR should have been initialized"))),
        }
    }

    /// Takes the state out to be replaced; the store holds nothing until the
    /// new state is written.
    pub fn take(&mut self) -> (r: Result<App, Error>)
        ensures
            final(self).current() is None,
            match old(self).current() {
                Some(a) => r == Ok::<App, Error>(a),
                None => r matches Err(Error::Other(m)) && m@ == "CUR not set"@,
            },
    {
        match self.cur.take() {
            Some(a) => Ok(a),
            None => Err(Error::Other(String::from_str("CUR not set"))),
        }
    }

    /// Holds the state just written to the file.
    pub fn write(&mut self, s: App)
        ensures
            final(self).current() == Some(s),
    {
        self.cur = Some(s);
    }

    /// Ends an update: where the new state was made (and written to the
    /// file), the store holds it; where making or writing it failed, the
    /// store is left as it was and the error is returned.
    pub fn finish_update(&mut self, updated: Result<App, AnyError>) -> (r: Result<(), Error>)
        ensures
            match updated {
                Ok(a) => r is Ok && final(self).current() == Some(a),
                Err(e) => r == Err::<(), Error>(Error::Any(e)) && final(self).current() == old(
                    self,
                ).current(),
            },
    {
        match updated {
            Ok(a) => {
                self.write(a);
                Ok(())
            },
            Err(e) => Err(Error::Any(e)),
        }
    }
}

/// What a read gives back of a write: after `write(s)` the store holds `s`,
/// and a read of it gives exactly `s`.
pub proof fn law_read_after_write(store: State, written: App)
    requires
        store.current() == Some(written),
    ensures
        forall|r: Result<&App, Error>| store.read_answers(r) ==> r == Ok::<&App, Error>(&written),
{
}

} // verus!
