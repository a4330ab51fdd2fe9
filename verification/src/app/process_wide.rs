//! A single process-wide application state with fewer settings: a client id
//! read from `INTEGRATE_AD_CLIENT_ID` and a Pushbullet token read from
//! `PUSHBULLET_TOKEN`.
use vstd::prelude::*;

use super::{texts, AnyError};
use crate::integrate::ad::Auth;
use crate::notify::plain::Pushbullet;

verus! {

/// Why the state could not be had.
#[derive(Debug)]
pub enum Error {
    EnvVarsMissing(Vec<String>),
    Other(String),
    Any(AnyError),
    Many(Vec<AnyError>),
}

/// The state.
#[derive(Debug)]
pub struct App {
    pub notifiers: Vec<Pushbullet>,
    pub integrate_ad_client_id: String,
    pub pushbullet_token: String,
    pub integrate_ad_auth: Auth,
}

/// The sign-in service that the state signs in with.
pub open spec fn login_base_url() -> Seq<char> {
    "https://login.microsoftonline.com/organizations/oauth2/v2.0"@
}

/// The names of the variables whose lookups found nothing, in order:
/// `INTEGRATE_AD_CLIENT_ID` for the first lookup, `PUSHBULLET_TOKEN` for the
/// second.
pub open spec fn missing_names(first: Option<String>, second: Option<String>) -> Seq<Seq<char>> {
    (if first is None {
        seq!["INTEGRATE_AD_CLIENT_ID"@]
    } else {
        Seq::empty()
    }) + (if second is None {
        seq!["PUSHBULLET_TOKEN"@]
    } else {
        Seq::empty()
    })
}

impl App {
    /// The state set up from the two lookups: the client id from the first,
    /// the token from the second, no notifiers, and a sign-in that has not
    /// started, against the Microsoft login service.
    pub open spec fn built_from(self, first: Option<String>, second: Option<String>) -> bool {
        &&& first == Some(self.integrate_ad_client_id)
        &&& second == Some(self.pushbullet_token)
        &&& self.notifiers@.len() == 0
        &&& self.integrate_ad_auth matches Auth::NotAuthed {
            client_id,
            login_base_url: l,
            graph_base_url: g,
        } && client_id == self.integrate_ad_client_id && l@ == login_base_url() && g@
            == Seq::<char>::empty()
    }
}

/// The process-wide store.
pub struct StaticMutState {
    cur: Option<App>,
}

impl StaticMutState {
    /// The state held, if any.
    pub closed spec fn current(self) -> Option<App> {
        self.cur
    }

    /// A state can be had: one is held, or both lookups found a value.
    pub open spec fn can_init(self, first: Option<String>, second: Option<String>) -> bool {
        self.current() is Some || missing_names(first, second).len() == 0
    }

    /// `app` is the state had: the one held, or else the one set up from the
    /// lookups.
    pub open spec fn initializes(self, first: Option<String>, second: Option<String>, app: App) -> bool {
        match self.current() {
            Some(a) => app == a,
            None => app.built_from(first, second),
        }
    }

    /// The failure of setting up when a lookup found nothing.
    pub open spec fn missing_error(first: Option<String>, second: Option<String>, e: Error) -> bool {
        e matches Error::EnvVarsMissing(names) && texts(names@) == missing_names(first, second)
    }

    /// A store that holds nothing yet.
    pub fn new() -> (s: StaticMutState)
        ensures
            s.current() is None,
    {
        StaticMutState { cur: None }
    }

    /// Whether a state is held.
    pub fn already_init(&self) -> (b: bool)
        ensures
            b == self.current() is Some,
    {
        self.cur.is_some()
    }

    /// Sets the state up from the two lookups of the environment unless one is
    /// held already.
    pub fn init(&mut self, first: Option<String>, second: Option<String>) -> (r: Result<(), Error>)
        ensures
            r is Ok <==> old(self).can_init(first, second),
            r is Ok ==> (final(self).current() matches Some(a) && old(self).initializes(
                first,
                second,
                a,
            )),
            r matches Err(e) ==> final(self).current() is None && StaticMutState::missing_error(
                first,
                second,
                e,
            ),
    {
        if self.already_init() {
            return Ok(());
        }
        let ghost (f0, s0) = (first, second);
        let mut errs: Vec<String> = Vec::new();
        let client_id = match first {
            Some(v) => v,
            None => {
                errs.push(String::from_str("INTEGRATE_AD_CLIENT_ID"));
                String::new()
            },
        };
        let token = match second {
            Some(v) => v,
            None => {
                errs.push(String::from_str("PUSHBULLET_TOKEN"));
                String::new()
            },
        };
        let auth = Auth::NotAuthed {
            client_id: client_id.clone(),
            login_base_url: String::from_str(
                "https://login.microsoftonline.com/organizations/oauth2/v2.0",
            ),
            graph_base_url: String::new(),
        };
        let state = App {
            notifiers: Vec::new(),
            integrate_ad_client_id: client_id,
            pushbullet_token: token,
            integrate_ad_auth: auth,
        };
        assert(texts(errs@) =~= missing_names(f0, s0));
        if errs.len() > 0 {
            Err(Error::EnvVarsMissing(errs))
        } else {
            self.cur = Some(state);
            Ok(())
        }
    }

    /// Reads the state, setting it up first where none is held.
    pub fn read(&mut self, first: Option<String>, second: Option<String>) -> (r: Result<&App, Error>)
        ensures
            r is Ok <==> old(self).can_init(first, second),
            r matches Ok(a) ==> old(self).initializes(first, second, *a) && final(self).current()
                == Some(*a),
            r matches Err(e) ==> final(self).current() is None && StaticMutState::missing_error(
                first,
                second,
                e,
            ),
    {
        self.init(first, second)?;
        match &self.cur {
            Some(a) => Ok(a),
            None => Err(Error::Other(String::from_str("`APP_STATE` was not initialized in `App::init`."))),
        }
    }

    /// Replaces the state with what `f` makes of it, setting it up first where
    /// none is held. Where `f` fails, the state is dropped and its error
    /// returned.
    pub fn modify<F>(&mut self, first: Option<String>, second: Option<String>, f: F) -> (r: Result<(), Error>) where
        F: FnOnce(App) -> Result<App, AnyError>,
        requires
            forall|a: App| f.requires((a,)),
        ensures
            !old(self).can_init(first, second) ==> final(self).current() is None && (r matches Err(
                e,
            ) && StaticMutState::missing_error(first, second, e)),
            old(self).can_init(first, second) ==> exists|a: App, out: Result<App, AnyError>|
                #![trigger f.ensures((a,), out)]
                {
                    &&& old(self).initializes(first, second, a)
                    &&& f.ensures((a,), out)
                    &&& match out {
                        Ok(n) => r is Ok && final(self).current() == Some(n),
                        Err(e) => r == Err::<(), Error>(Error::Any(e)) && final(self).current() is None,
                    }
                },
    {
        self.init(first, second)?;
        match self.cur.take() {
            Some(a) => {
                let out = f(a);
                match out {
                    Ok(n) => {
                        self.cur = Some(n);
                        Ok(())
                    },
                    Err(e) => Err(Error::Any(e)),
                }
            },
            None => Err(Error::Other(String::from_str("APP_STATE should be initialized"))),
        }
    }

    /// Takes the state out to be replaced, setting it up first where none is
    /// held; the store holds nothing until [`StaticMutState::finish_update`].
    pub fn take_for_update(&mut self, first: Option<String>, second: Option<String>) -> (r: Result<
        App,
        Error,
    >)
        ensures
            r is Ok <==> old(self).can_init(first, second),
            r matches Ok(a) ==> old(self).initializes(first, second, a),
            final(self).current() is None,
            r matches Err(e) ==> StaticMutState::missing_error(first, second, e),
    {
        self.init(first, second)?;
        match self.cur.take() {
            Some(a) => Ok(a),
            None => Err(Error::Other(String::from_str("APP_STATE should be initialized"))),
        }
    }

    /// Puts back the replaced state; where making it failed, the store keeps
    /// holding nothing and the error is returned.
    pub fn finish_update(&mut self, updated: Result<App, AnyError>) -> (r: Result<(), Error>)
        ensures
            match updated {
                Ok(a) => r is Ok && final(self).current() == Some(a),
                Err(e) => r == Err::<(), Error>(Error::Any(e)) && final(self).current() == old(
                    self,
                ).current(),
            },
    {
        match updated {
            Ok(a) => {
                self.cur = Some(a);
                Ok(())
            },
            Err(e) => Err(Error::Any(e)),
        }
    }
}

/// How the outcomes of the notifiers combine: success where all succeeded,
/// otherwise every error in order. An error may only be followed by errors.
pub fn notify_all_outcome<E>(results: Vec<Result<(), E>>) -> (r: Result<(), Vec<E>>)
    requires
        forall|i: int, j: int|
            0 <= i < j < results@.len() && results@[i] is Err ==> results@[j] is Err,
    ensures
        crate::app::state::err_values(results@).len() == 0 ==> r is Ok,
        crate::app::state::err_values(results@).len() > 0 ==> (r matches Err(es) && es@
            == crate::app::state::err_values(results@)),
{
    match crate::app::state::collect_results(results) {
        Ok(_) => Ok(()),
        Err(es) => Err(es),
    }
}

/// Once the store holds a state, every read gives exactly that state.
pub proof fn law_read_after_write(
    store: StaticMutState,
    first: Option<String>,
    second: Option<String>,
    written: App,
)
    requires
        store.current() == Some(written),
    ensures
        store.can_init(first, second),
        forall|a: App| store.initializes(first, second, a) <==> a == written,
{
}

} // verus!
