//! The state kept in memory for as long as the process lives, set up from the
//! environment the first time it is needed.
use vstd::prelude::*;

use crate::app::{missing_names, texts, AnyError, App, EnvVars, Error};

verus! {

/// The store in memory.
#[derive(Debug)]
pub struct State {
    cur: Option<App>,
}

impl State {
    /// The state held, if any.
    pub closed spec fn current(self) -> Option<App> {
        self.cur
    }

    /// A state can be had: one is held, or the environment sets one up.
    pub open spec fn can_init(self, env: EnvVars) -> bool {
        self.current() is Some || missing_names(env).len() == 0
    }

    /// `app` is the state had with this environment: the one held, or else
    /// the one the environment sets up.
    pub open spec fn initializes(self, env: EnvVars, app: App) -> bool {
        match self.current() {
            Some(a) => app == a,
            None => app.built_from(env),
        }
    }

    /// The failure of setting up from an environment that misses variables.
    pub open spec fn missing_error(env: EnvVars, e: Error) -> bool {
        e matches Error::EnvVarsMissing(names) && texts(names@) == missing_names(env)
    }

    /// A store that holds nothing yet.
    pub fn new() -> (s: State)
        ensures
            s.current() is None,
    {
        State { cur: None }
    }

    /// Whether a state is held.
    pub fn already_init(&self) -> (b: bool)
        ensures
            b == self.current() is Some,
    {
        self.cur.is_some()
    }

    /// Sets the state up from the environment unless one is held already.
    pub fn init(&mut self, env: EnvVars) -> (r: Result<(), Error>)
        ensures
            r is Ok <==> old(self).can_init(env),
            r is Ok ==> (final(self).current() matches Some(a) && old(self).initializes(env, a)),
            r matches Err(e) ==> final(self).current() is None && State::missing_error(env, e),
    {
        if self.already_init() {
            return Ok(());
        }
        match App::from_env(env) {
            Ok(state) => {
                self.cur = Some(state);
                Ok(())
            },
            Err(e) => Err(e),
        }
    }

    /// Reads the state, setting it up first where none is held.
    pub fn read(&mut self, env: EnvVars) -> (r: Result<&App, Error>)
        ensures
            r is Ok <==> old(self).can_init(env),
            r matches Ok(a) ==> old(self).initializes(env, *a) && final(self).current() == Some(*a),
            r matches Err(e) ==> final(self).current() is None && State::missing_error(env, e),
    {
        self.init(env)?;
        match &self.cur {
            Some(a) => Ok(a),
            None => Err(Error::Other(String::from_str("`STATE` was not initialized in `App::init`."))),
        }
    }

    /// Replaces the state with what `f` makes of it, setting it up first where
    /// none is held. Where `f` fails, the state is dropped and its error
    /// returned.
    pub fn modify<F>(&mut self, env: EnvVars, f: F) -> (r: Result<(), Error>) where
        F: FnOnce(App) -> Result<App, AnyError>,
        requires
            forall|a: App| f.requires((a,)),
        ensures
            !old(self).can_init(env) ==> final(self).current() is None && (r matches Err(e)
                && State::missing_error(env, e)),
            old(self).can_init(env) ==> exists|a: App, out: Result<App, AnyError>|
                #![trigger f.ensures((a,), out)]
                {
                    &&& old(self).initializes(env, a)
                    &&& f.ensures((a,), out)
                    &&& match out {
                        Ok(n) => r is Ok && final(self).current() == Some(n),
                        Err(e) => r == Err::<(), Error>(Error::Any(e)) && final(self).current() is None,
                    }
                },
    {
        let a = self.take_for_update(env)?;
        let out = f(a);
        self.finish_update(out)
    }

    /// Takes the state out to be replaced, setting it up first where none is
    /// held; the store holds nothing until [`State::finish_update`].
    pub fn take_for_update(&mut self, env: EnvVars) -> (r: Result<App, Error>)
        ensures
            r is Ok <==> old(self).can_init(env),
            r matches Ok(a) ==> old(self).initializes(env, a),
            final(self).current() is None,
            r matches Err(e) ==> State::missing_error(env, e),
    {
        self.init(env)?;
        let cur = self.cur.take();
        match cur {
            Some(a) => Ok(a),
            None => Err(Error::Other(String::from_str("STATE should be initialized"))),
        }
    }

    /// Puts back the replaced state; where making it failed, the store keeps
    /// holding nothing and the error is returned.
    pub fn finish_update(&mut self, updated: Result<App, AnyError>) -> (r: Result<(), Error>)
        ensures
            match updated {
                Ok(a) => r is Ok && final(self).current() == Some(a),
                Err(e) => r == Err::<(), Error>(Error::Any(e)) && final(self).current() == old(
                    self,
                ).current(),
            },
    {
        match updated {
            Ok(a) => {
                self.cur = Some(a);
                Ok(())
            },
            Err(e) => Err(Error::Any(e)),
        }
    }
}

/// What a read gives back of a write: once the store holds a state (as it
/// does after a successful `modify` or `finish_update`), every read gives
/// exactly that state, whatever the environment.
pub proof fn law_read_after_write(store: State, env: EnvVars, written: App)
    requires
        store.current() == Some(written),
    ensures
        store.can_init(env),
        forall|a: App| store.initializes(env, a) <==> a == written,
{
}

} // verus!
