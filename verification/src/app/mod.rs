//! The application state: the settings read from the environment, the
//! sign-in, the notifiers and the calendars.
use vstd::prelude::*;

pub mod process_wide;
pub mod state;

use crate::integrate::ad::Auth;
use crate::integrate::Outlook;
use crate::notify::Pushbullet;

verus! {

/// An error of any kind, kept as the two texts it is shown with.
#[derive(Debug)]
pub struct AnyError {
    pub display: String,
    pub debug: String,
}

/// Why the application state could not be had.
#[derive(Debug)]
pub enum Error {
    EnvVarsMissing(Vec<String>),
    Reqwest(reqwest::Error),
    Other(String),
    Any(AnyError),
    Many(Vec<AnyError>),
}

/// The values of the environment variables that the state is set up from;
/// `None` for a variable that is not set.
pub struct EnvVars {
    pub integrate_ad_client_id: Option<String>,
    pub pushbullet_token: Option<String>,
    pub pushbullet_base_url: Option<String>,
    pub integrate_ad_login_base_url: Option<String>,
}

/// The names of the variables that are not set, in the order the state reads
/// them.
pub open spec fn missing_names(env: EnvVars) -> Seq<Seq<char>> {
    (if env.integrate_ad_client_id is None {
        seq!["INTEGRATE_AD_CLIENT_ID"@]
    } else {
        Seq::empty()
    }) + (if env.pushbullet_token is None {
        seq!["PUSHBULLET_TOKEN"@]
    } else {
        Seq::empty()
    }) + (if env.pushbullet_base_url is None {
        seq!["PUSHBULLET_BASE_URL"@]
    } else {
        Seq::empty()
    }) + (if env.integrate_ad_login_base_url is None {
        seq!["INTEGRATE_AD_LOGIN_BASE_URL"@]
    } else {
        Seq::empty()
    })
}

/// The texts of a list of strings.
pub open spec fn texts(v: Seq<String>) -> Seq<Seq<char>> {
    v.map_values(|s: String| s@)
}

/// The application state.
#[derive(Debug)]
pub struct App {
    pub notifiers: Vec<Pushbullet>,
    pub calendars: Vec<Outlook>,
    pub pushbullet_token: String,
    pub pushbullet_base_url: String,
    pub integrate_ad_client_id: String,
    pub integrate_ad_auth: Auth,
    pub integrate_ad_login_base_url: String,
    pub ms_graph_base_url: String,
}

impl App {
    /// The settings (all but the notifiers and calendars) agree.
    pub open spec fn same_settings(self, other: App) -> bool {
        &&& self.pushbullet_token == other.pushbullet_token
        &&& self.pushbullet_base_url == other.pushbullet_base_url
        &&& self.integrate_ad_client_id == other.integrate_ad_client_id
        &&& self.integrate_ad_auth == other.integrate_ad_auth
        &&& self.integrate_ad_login_base_url == other.integrate_ad_login_base_url
        &&& self.ms_graph_base_url == other.ms_graph_base_url
    }

    /// The sign-in as `init_integrate_ad_auth` leaves it: a state that has not
    /// signed in is rebuilt from the settings, any other state stays.
    pub open spec fn initialized_auth(self) -> Auth {
        match self.integrate_ad_auth {
            Auth::NotAuthed { .. } => Auth::NotAuthed {
                client_id: self.integrate_ad_client_id,
                login_base_url: self.integrate_ad_login_base_url,
                graph_base_url: self.ms_graph_base_url,
            },
            other => other,
        }
    }

    /// The Pushbullet notifier that the settings describe.
    pub open spec fn settings_notifier(self) -> Pushbullet {
        Pushbullet { token: self.pushbullet_token, base_url: self.pushbullet_base_url }
    }

    /// `self` is `before` made ready for use: the sign-in initialized, then
    /// the Pushbullet notifier and the Outlook calendar of the settings added.
    pub open spec fn prepared_from(self, before: App) -> bool {
        &&& self.pushbullet_token == before.pushbullet_token
        &&& self.pushbullet_base_url == before.pushbullet_base_url
        &&& self.integrate_ad_client_id == before.integrate_ad_client_id
        &&& self.integrate_ad_login_base_url == before.integrate_ad_login_base_url
        &&& self.ms_graph_base_url == before.ms_graph_base_url
        &&& self.integrate_ad_auth == before.initialized_auth()
        &&& self.notifiers@ == before.notifiers@.push(before.settings_notifier())
        &&& self.calendars@ == before.calendars@.push(
            Outlook::spec_new(before.initialized_auth()),
        )
    }

    /// The state that the environment sets up: its four settings, no Graph
    /// base URL, a sign-in that has not started, one notifier and one calendar.
    pub open spec fn built_from(self, env: EnvVars) -> bool {
        &&& env.integrate_ad_client_id == Some(self.integrate_ad_client_id)
        &&& env.pushbullet_token == Some(self.pushbullet_token)
        &&& env.pushbullet_base_url == Some(self.pushbullet_base_url)
        &&& env.integrate_ad_login_base_url == Some(self.integrate_ad_login_base_url)
        &&& self.ms_graph_base_url@ == Seq::<char>::empty()
        &&& self.integrate_ad_auth == Auth::NotAuthed {
            client_id: self.integrate_ad_client_id,
            login_base_url: self.integrate_ad_login_base_url,
            graph_base_url: self.ms_graph_base_url,
        }
        &&& self.notifiers@ == seq![self.settings_notifier()]
        &&& self.calendars@ == seq![Outlook::spec_new(self.integrate_ad_auth)]
    }

    /// All settings empty, a sign-in that has not started, and no notifiers or
    /// calendars.
    pub open spec fn is_empty(self) -> bool {
        &&& self.notifiers@.len() == 0
        &&& self.calendars@.len() == 0
        &&& self.pushbullet_token@ == Seq::<char>::empty()
        &&& self.pushbullet_base_url@ == Seq::<char>::empty()
        &&& self.integrate_ad_client_id@ == Seq::<char>::empty()
        &&& self.integrate_ad_login_base_url@ == Seq::<char>::empty()
        &&& self.ms_graph_base_url@ == Seq::<char>::empty()
        &&& self.integrate_ad_auth matches Auth::NotAuthed {
            client_id,
            login_base_url,
            graph_base_url,
        } && client_id@ == Seq::<char>::empty() && login_base_url@ == Seq::<char>::empty()
            && graph_base_url@ == Seq::<char>::empty()
    }

    /// The empty state.
    pub fn empty() -> (app: App)
        ensures
            app.is_empty(),
    {
        App {
            notifiers: Vec::new(),
            calendars: Vec::new(),
            pushbullet_token: String::new(),
            pushbullet_base_url: String::new(),
            integrate_ad_client_id: String::new(),
            integrate_ad_auth: Auth::NotAuthed {
                client_id: String::new(),
                login_base_url: String::new(),
                graph_base_url: String::new(),
            },
            integrate_ad_login_base_url: String::new(),
            ms_graph_base_url: String::new(),
        }
    }

    /// Rebuilds a sign-in that has not started from the settings.
    pub fn init_integrate_ad_auth(&mut self)
        ensures
            final(self).integrate_ad_auth == old(self).initialized_auth(),
            !(old(self).integrate_ad_auth is NotAuthed) ==> final(self).integrate_ad_auth == old(
                self,
            ).integrate_ad_auth,
            old(self).integrate_ad_auth is NotAuthed ==> final(self).integrate_ad_auth
                == (Auth::NotAuthed {
                client_id: old(self).integrate_ad_client_id,
                login_base_url: old(self).integrate_ad_login_base_url,
                graph_base_url: old(self).ms_graph_base_url,
            }),
            final(self).pushbullet_token == old(self).pushbullet_token,
            final(self).pushbullet_base_url == old(self).pushbullet_base_url,
            final(self).integrate_ad_client_id == old(self).integrate_ad_client_id,
            final(self).integrate_ad_login_base_url == old(self).integrate_ad_login_base_url,
            final(self).ms_graph_base_url == old(self).ms_graph_base_url,
            final(self).notifiers == old(self).notifiers,
            final(self).calendars == old(self).calendars,
    {
        match self.integrate_ad_auth {
            Auth::NotAuthed { .. } => {
                let client_id = self.integrate_ad_client_id.clone();
                let login_base_url = self.integrate_ad_login_base_url.clone();
                let graph_base_url = self.ms_graph_base_url.clone();
                self.integrate_ad_auth = Auth::NotAuthed { client_id, login_base_url, graph_base_url };
            },
            _ => {},
        }
    }

    /// Adds the Outlook calendar that reads with the current sign-in.
    pub fn add_calendar_integrate(&mut self)
        ensures
            final(self).same_settings(*old(self)),
            final(self).notifiers == old(self).notifiers,
            final(self).calendars@ == old(self).calendars@.push(
                Outlook::spec_new(old(self).integrate_ad_auth),
            ),
    {
        let outlook = Outlook::new(self.integrate_ad_auth.clone());
        self.calendars.push(outlook);
    }

    /// Adds the Pushbullet notifier that the settings describe.
    pub fn add_notifier_pushbullet(&mut self)
        ensures
            final(self).same_settings(*old(self)),
            final(self).calendars == old(self).calendars,
            final(self).notifiers@ == old(self).notifiers@.push(old(self).settings_notifier()),
    {
        let pb_notifier = Pushbullet {
            token: self.pushbullet_token.clone(),
            base_url: self.pushbullet_base_url.clone(),
        };
        self.notifiers.push(pb_notifier);
    }

    /// Makes the state ready for use: initializes the sign-in, then adds the
    /// notifier and the calendar of the settings.
    pub fn prepare(&mut self)
        ensures
            final(self).prepared_from(*old(self)),
            !(old(self).integrate_ad_auth is NotAuthed) ==> final(self).integrate_ad_auth == old(
                self,
            ).integrate_ad_auth,
    {
        self.init_integrate_ad_auth();
        self.add_notifier_pushbullet();
        self.add_calendar_integrate();
    }

    /// Sets the state up from the environment: fails, naming every missing
    /// variable in order, where any is missing.
    pub fn from_env(env: EnvVars) -> (r: Result<App, Error>)
        ensures
            missing_names(env).len() == 0 <==> r is Ok,
            r matches Ok(app) ==> app.built_from(env),
            r matches Err(e) ==> (e matches Error::EnvVarsMissing(names) && texts(names@)
                == missing_names(env)),
    {
        let ghost env0 = env;
        let mut state = App::empty();
        let mut errs: Vec<String> = Vec::new();
        match env.integrate_ad_client_id {
            Some(v) => state.integrate_ad_client_id = v,
            None => errs.push(String::from_str("INTEGRATE_AD_CLIENT_ID")),
        }
        match env.pushbullet_token {
            Some(v) => state.pushbullet_token = v,
            None => errs.push(String::from_str("PUSHBULLET_TOKEN")),
        }
        match env.pushbullet_base_url {
            Some(v) => state.pushbullet_base_url = v,
            None => errs.push(String::from_str("PUSHBULLET_BASE_URL")),
        }
        match env.integrate_ad_login_base_url {
            Some(v) => state.integrate_ad_login_base_url = v,
            None => errs.push(String::from_str("INTEGRATE_AD_LOGIN_BASE_URL")),
        }
        assert(texts(errs@) =~= missing_names(env0));
        if errs.len() > 0 {
            Err(Error::EnvVarsMissing(errs))
        } else {
            let ghost before = state;
            state.prepare();
            assert(state.notifiers@ =~= seq![state.settings_notifier()]);
            assert(state.calendars@ =~= seq![Outlook::spec_new(state.integrate_ad_auth)]);
            Ok(state)
        }
    }
}

/// Making a state ready keeps a sign-in that has started: a device code
/// waiting to be entered, or a granted token, stays exactly as loaded; only a
/// sign-in that has not started is set up again from the settings. The state
/// is otherwise unchanged in its settings.
pub proof fn law_prepare_keeps_started_sign_in(before: App, after: App)
    requires
        after.prepared_from(before),
    ensures
        !(before.integrate_ad_auth is NotAuthed) ==> after.integrate_ad_auth
            == before.integrate_ad_auth,
        before.integrate_ad_auth is WaitForCodeAuth ==> (after.integrate_ad_auth is WaitForCodeAuth),
        before.integrate_ad_auth is Authed ==> (after.integrate_ad_auth is Authed),
        before.integrate_ad_auth is NotAuthed ==> after.integrate_ad_auth == (Auth::NotAuthed {
            client_id: before.integrate_ad_client_id,
            login_base_url: before.integrate_ad_login_base_url,
            graph_base_url: before.ms_graph_base_url,
        }),
        after.calendars@.last() == Outlook::spec_new(after.integrate_ad_auth),
{
}

} // verus!
