//! Sign-in to Azure AD with the OAuth device-code flow.
//!
//! The sign-in is a state machine over [`Auth`]: a client that has not signed
//! in asks for a device code; while the user enters that code the client asks
//! for a token; once it holds a token it refreshes it. [`Auth::request`] says
//! what each state sends. Each step ([`Auth::start_code_flow`],
//! [`Auth::check_authed`], [`Auth::refresh`], and [`Auth::authenticate`],
//! which picks the step of the state) hands that request to the caller's
//! `send` once, and says which state the reply leads to.
use vstd::prelude::*;

use crate::time::{Timestamp, MAX_SECS};

verus! {

/// The permissions the sign-in asks for.
pub open spec fn scopes() -> Seq<char> {
    "openid offline_access Calendars.Read"@
}

/// The grant type that polls for the outcome of a device code.
pub open spec fn device_code_grant() -> Seq<char> {
    "urn:ietf:params:oauth:grant-type:device_code"@
}

/// The settings that every sign-in state carries.
pub struct Shared<'a> {
    pub client_id: &'a str,
    pub login_base_url: &'a str,
    pub graph_base_url: &'a str,
}

/// Where the sign-in stands.
#[derive(Debug)]
pub enum Auth {
    NotAuthed { client_id: String, login_base_url: String, graph_base_url: String },
    WaitForCodeAuth {
        message: String,
        my_code: String,
        user_code: String,
        url: String,
        client_id: String,
        login_base_url: String,
        graph_base_url: String,
    },
    Authed {
        client_id: String,
        login_base_url: String,
        graph_base_url: String,
        expires: Timestamp,
        token: String,
        refresh: String,
        id_token: String,
    },
}

impl Clone for Auth {
    fn clone(&self) -> (r: Self)
        ensures
            r == *self,
    {
        match self {
            Auth::NotAuthed { client_id, login_base_url, graph_base_url } => Auth::NotAuthed {
                client_id: client_id.clone(),
                login_base_url: login_base_url.clone(),
                graph_base_url: graph_base_url.clone(),
            },
            Auth::WaitForCodeAuth {
                message,
                my_code,
                user_code,
                url,
                client_id,
                login_base_url,
                graph_base_url,
            } => Auth::WaitForCodeAuth {
                message: message.clone(),
                my_code: my_code.clone(),
                user_code: user_code.clone(),
                url: url.clone(),
                client_id: client_id.clone(),
                login_base_url: login_base_url.clone(),
                graph_base_url: graph_base_url.clone(),
            },
            Auth::Authed {
                client_id,
                login_base_url,
                graph_base_url,
                expires,
                token,
                refresh,
                id_token,
            } => Auth::Authed {
                client_id: client_id.clone(),
                login_base_url: login_base_url.clone(),
                graph_base_url: graph_base_url.clone(),
                expires: *expires,
                token: token.clone(),
                refresh: refresh.clone(),
                id_token: id_token.clone(),
            },
        }
    }
}

/// The error reply of the sign-in service.
pub struct ErrorResponse {
    pub error: String,
    pub error_description: String,
}

/// The reply to a token request with a device code.
pub struct AuthResponse {
    pub token_type: String,
    pub scope: String,
    pub expires_in: u32,
    pub access_token: String,
    pub refresh_token: String,
    pub id_token: String,
}

/// The reply to a refresh request.
pub struct RefreshResponse {
    pub token_type: String,
    pub scope: String,
    pub expires_in: u32,
    pub access_token: String,
    pub id_token: String,
}

/// The reply to a device-code request.
pub struct CodeResponse {
    pub message: String,
    pub device_code: String,
    pub user_code: String,
    pub verification_uri: String,
}

/// Why a sign-in step failed.
#[derive(Debug)]
pub enum Error {
    Other(String),
    Reqwest(reqwest::Error),
    Json(serde_json::Error),
    CodePending,
    CodeDeclined,
    CodeBad,
    CodeExpired,
}

/// The error that an error reply of the service stands for.
pub open spec fn error_of_response(resp: ErrorResponse) -> Error {
    if resp.error@ == "authorization_pending"@ {
        Error::CodePending
    } else if resp.error@ == "authorization_declined"@ {
        Error::CodeDeclined
    } else if resp.error@ == "bad_verification_code"@ {
        Error::CodeBad
    } else if resp.error@ == "expired_token"@ {
        Error::CodeExpired
    } else {
        Error::Other(resp.error_description)
    }
}

impl From<ErrorResponse> for Error {
    fn from(resp: ErrorResponse) -> (e: Self) {
        if resp.error == String::from_str("authorization_pending") {
            Error::CodePending
        } else if resp.error == String::from_str("authorization_declined") {
            Error::CodeDeclined
        } else if resp.error == String::from_str("bad_verification_code") {
            Error::CodeBad
        } else if resp.error == String::from_str("expired_token") {
            Error::CodeExpired
        } else {
            Error::Other(resp.error_description)
        }
    }
}

impl vstd::std_specs::convert::FromSpecImpl<ErrorResponse> for Error {
    open spec fn obeys_from_spec() -> bool {
        true
    }

    open spec fn from_spec(v: ErrorResponse) -> Error {
        error_of_response(v)
    }
}

/// One text field of a multipart form.
pub struct FormField {
    pub name: String,
    pub value: String,
}

/// A POST request with a multipart form.
pub struct AuthRequest {
    pub url: String,
    pub form: Vec<FormField>,
}

impl AuthRequest {
    /// The form's fields, by name and value, in order.
    pub open spec fn fields(self) -> Seq<(Seq<char>, Seq<char>)> {
        self.form@.map_values(|f: FormField| (f.name@, f.value@))
    }
}

fn form_field(name: &str, value: &str) -> (f: FormField)
    ensures
        f.name@ == name@,
        f.value@ == value@,
{
    FormField { name: String::from_str(name), value: String::from_str(value) }
}

fn join(base: &str, tail: &str) -> (s: String)
    ensures
        s@ == base@ + tail@,
{
    let mut s = String::from_str(base);
    s.append(tail);
    s
}

/// What the service replied to a request, read two ways: as an error reply,
/// where it is one, and as the kind of reply that the request asks for.
pub struct Replied<T> {
    pub error_reply: Option<ErrorResponse>,
    pub parsed: Result<T, serde_json::Error>,
}

/// What the service replied to a request of any state, read as an error reply
/// and as each kind of reply.
pub struct Replies {
    pub error_reply: Option<ErrorResponse>,
    pub code: Result<CodeResponse, serde_json::Error>,
    pub token: Result<AuthResponse, serde_json::Error>,
    pub refreshed: Result<RefreshResponse, serde_json::Error>,
}

/// What an exchange with the service comes to: a failure to send the request
/// or to read the reply is a transport error; otherwise an error reply wins
/// over everything else, then the reply read as the expected kind, or the
/// error of that reading.
pub open spec fn read_exchange<T>(exchange: Result<Replied<T>, reqwest::Error>) -> Result<T, Error> {
    match exchange {
        Err(e) => Err(Error::Reqwest(e)),
        Ok(rep) => match rep.error_reply {
            Some(er) => Err(error_of_response(er)),
            None => match rep.parsed {
                Ok(t) => Ok(t),
                Err(j) => Err(Error::Json(j)),
            },
        },
    }
}

/// The replies read as a device-code reply.
pub open spec fn code_part(x: Result<Replies, reqwest::Error>) -> Result<Replied<CodeResponse>, reqwest::Error> {
    match x {
        Err(e) => Err(e),
        Ok(r) => Ok(Replied { error_reply: r.error_reply, parsed: r.code }),
    }
}

/// The replies read as a granted token.
pub open spec fn token_part(x: Result<Replies, reqwest::Error>) -> Result<Replied<AuthResponse>, reqwest::Error> {
    match x {
        Err(e) => Err(e),
        Ok(r) => Ok(Replied { error_reply: r.error_reply, parsed: r.token }),
    }
}

/// The replies read as a refreshed token.
pub open spec fn refreshed_part(x: Result<Replies, reqwest::Error>) -> Result<Replied<RefreshResponse>, reqwest::Error> {
    match x {
        Err(e) => Err(e),
        Ok(r) => Ok(Replied { error_reply: r.error_reply, parsed: r.refreshed }),
    }
}

fn take_code(x: Result<Replies, reqwest::Error>) -> (r: Result<Replied<CodeResponse>, reqwest::Error>)
    ensures
        r == code_part(x),
{
    match x {
        Err(e) => Err(e),
        Ok(r) => Ok(Replied { error_reply: r.error_reply, parsed: r.code }),
    }
}

fn take_token(x: Result<Replies, reqwest::Error>) -> (r: Result<Replied<AuthResponse>, reqwest::Error>)
    ensures
        r == token_part(x),
{
    match x {
        Err(e) => Err(e),
        Ok(r) => Ok(Replied { error_reply: r.error_reply, parsed: r.token }),
    }
}

fn take_refreshed(x: Result<Replies, reqwest::Error>) -> (r: Result<
    Replied<RefreshResponse>,
    reqwest::Error,
>)
    ensures
        r == refreshed_part(x),
{
    match x {
        Err(e) => Err(e),
        Ok(r) => Ok(Replied { error_reply: r.error_reply, parsed: r.refreshed }),
    }
}

/// A granted lifetime counted from `now` stays within the instants that can
/// be held (adding it would overflow otherwise).
pub open spec fn lifetime_fits(now: Timestamp, expires_in: u32) -> bool {
    now.secs + expires_in <= MAX_SECS
}

impl Auth {
    pub open spec fn client_id(self) -> String {
        match self {
            Auth::NotAuthed { client_id, .. } => client_id,
            Auth::WaitForCodeAuth { client_id, .. } => client_id,
            Auth::Authed { client_id, .. } => client_id,
        }
    }

    pub open spec fn login_base_url(self) -> String {
        match self {
            Auth::NotAuthed { login_base_url, .. } => login_base_url,
            Auth::WaitForCodeAuth { login_base_url, .. } => login_base_url,
            Auth::Authed { login_base_url, .. } => login_base_url,
        }
    }

    pub open spec fn graph_base_url(self) -> String {
        match self {
            Auth::NotAuthed { graph_base_url, .. } => graph_base_url,
            Auth::WaitForCodeAuth { graph_base_url, .. } => graph_base_url,
            Auth::Authed { graph_base_url, .. } => graph_base_url,
        }
    }

    /// The name of the state.
    pub open spec fn label(self) -> Seq<char> {
        match self {
            Auth::NotAuthed { .. } => "NotAuthed"@,
            Auth::WaitForCodeAuth { .. } => "WaitForCodeAuth"@,
            Auth::Authed { .. } => "Authed"@,
        }
    }

    /// Names the state.
    pub fn dbg_label(&self) -> (s: String)
        ensures
            s@ == self.label(),
    {
        match self {
            Auth::NotAuthed { .. } => String::from_str("NotAuthed"),
            Auth::WaitForCodeAuth { .. } => String::from_str("WaitForCodeAuth"),
            Auth::Authed { .. } => String::from_str("Authed"),
        }
    }

    /// The access token, held only once signed in.
    pub fn token(&self) -> (r: Option<&str>)
        ensures
            match *self {
                Auth::Authed { token, .. } => r matches Some(t) && t@ == token@,
                _ => r is None,
            },
    {
        match self {
            Auth::Authed { token, .. } => Some(token.as_str()),
            _ => None,
        }
    }

    /// The message to show the user, held only while a code waits to be entered.
    pub fn wait_msg(&self) -> (r: Option<&str>)
        ensures
            match *self {
                Auth::WaitForCodeAuth { message, .. } => r matches Some(t) && t@ == message@,
                _ => r is None,
            },
    {
        match self {
            Auth::WaitForCodeAuth { message, .. } => Some(message.as_str()),
            _ => None,
        }
    }

    /// The code the user is to enter, held only while it waits to be entered.
    pub fn user_code(&self) -> (r: Option<&str>)
        ensures
            match *self {
                Auth::WaitForCodeAuth { user_code, .. } => r matches Some(t) && t@ == user_code@,
                _ => r is None,
            },
    {
        match self {
            Auth::WaitForCodeAuth { user_code, .. } => Some(user_code.as_str()),
            _ => None,
        }
    }

    /// The settings that the state carries.
    pub fn shared(&self) -> (s: Shared<'_>)
        ensures
            s.client_id@ == self.client_id()@,
            s.login_base_url@ == self.login_base_url()@,
            s.graph_base_url@ == self.graph_base_url()@,
    {
        match self {
            Auth::NotAuthed { client_id, login_base_url, graph_base_url }
            | Auth::WaitForCodeAuth { client_id, login_base_url, graph_base_url, .. }
            | Auth::Authed { client_id, login_base_url, graph_base_url, .. } => Shared {
                client_id: client_id.as_str(),
                login_base_url: login_base_url.as_str(),
                graph_base_url: graph_base_url.as_str(),
            },
        }
    }

    /// Where the device-code request goes.
    pub open spec fn code_request_url(self) -> Seq<char> {
        self.login_base_url()@ + "/devicecode"@
    }

    /// The form of the device-code request.
    pub open spec fn code_request_fields(self) -> Seq<(Seq<char>, Seq<char>)> {
        seq![("client_id"@, self.client_id()@), ("scope"@, scopes())]
    }

    /// Where the polls for the token and the refreshes go.
    pub open spec fn token_request_url(self) -> Seq<char> {
        self.login_base_url()@ + "/token"@
    }

    /// The form of the poll for the token of a waiting device code.
    pub open spec fn token_request_fields(self) -> Seq<(Seq<char>, Seq<char>)> {
        seq![
            ("client_id"@, self.client_id()@),
            ("grant_type"@, device_code_grant()),
            ("device_code"@, self->my_code@),
        ]
    }

    /// The form of the refresh of a granted token.
    pub open spec fn refresh_request_fields(self) -> Seq<(Seq<char>, Seq<char>)> {
        seq![
            ("client_id"@, self.client_id()@),
            ("grant_type"@, "refresh_token"@),
            ("refresh_token"@, self->refresh@),
            ("scope"@, scopes()),
        ]
    }

    /// Where the request of this state goes.
    pub open spec fn request_url(self) -> Seq<char> {
        match self {
            Auth::NotAuthed { .. } => self.code_request_url(),
            _ => self.token_request_url(),
        }
    }

    /// The form that the request of this state sends.
    pub open spec fn request_fields(self) -> Seq<(Seq<char>, Seq<char>)> {
        match self {
            Auth::NotAuthed { .. } => self.code_request_fields(),
            Auth::WaitForCodeAuth { .. } => self.token_request_fields(),
            Auth::Authed { .. } => self.refresh_request_fields(),
        }
    }

    /// The device-code request, made with the settings of the state.
    fn code_request(&self) -> (r: AuthRequest)
        ensures
            r.url@ == self.code_request_url(),
            r.fields() == self.code_request_fields(),
    {
        let scope = "openid offline_access Calendars.Read";
        proof {
            reveal_strlit("openid offline_access Calendars.Read");
        }
        let sh = self.shared();
        let form = vec![form_field("client_id", sh.client_id), form_field("scope", scope)];
        let r = AuthRequest { url: join(sh.login_base_url, "/devicecode"), form };
        assert(r.fields() =~= self.code_request_fields());
        r
    }

    /// The poll for the token of the waiting device code.
    fn token_request(&self) -> (r: AuthRequest)
        requires
            self is WaitForCodeAuth,
        ensures
            r.url@ == self.token_request_url(),
            r.fields() == self.token_request_fields(),
    {
        let grant = "urn:ietf:params:oauth:grant-type:device_code";
        proof {
            reveal_strlit("urn:ietf:params:oauth:grant-type:device_code");
        }
        match self {
            Auth::WaitForCodeAuth { client_id, login_base_url, my_code, .. } => {
                let form = vec![
                    form_field("client_id", client_id.as_str()),
                    form_field("grant_type", grant),
                    form_field("device_code", my_code.as_str()),
                ];
                let r = AuthRequest { url: join(login_base_url.as_str(), "/token"), form };
                assert(r.fields() =~= self.token_request_fields());
                r
            },
            _ => {
                proof {
                    assert(false);
                }
                self.code_request()
            },
        }
    }

    /// The refresh of the granted token.
    fn refresh_request(&self) -> (r: AuthRequest)
        requires
            self is Authed,
        ensures
            r.url@ == self.token_request_url(),
            r.fields() == self.refresh_request_fields(),
    {
        let scope = "openid offline_access Calendars.Read";
        proof {
            reveal_strlit("openid offline_access Calendars.Read");
        }
        match self {
            Auth::Authed { client_id, login_base_url, refresh, .. } => {
                let form = vec![
                    form_field("client_id", client_id.as_str()),
                    form_field("grant_type", "refresh_token"),
                    form_field("refresh_token", refresh.as_str()),
                    form_field("scope", scope),
                ];
                let r = AuthRequest { url: join(login_base_url.as_str(), "/token"), form };
                assert(r.fields() =~= self.refresh_request_fields());
                r
            },
            _ => {
                proof {
                    assert(false);
                }
                self.code_request()
            },
        }
    }

    /// The request that moves the sign-in on from this state: a device-code
    /// request before sign-in, a poll for the token while the code waits, and
    /// a refresh once signed in.
    pub fn request(&self) -> (r: AuthRequest)
        ensures
            r.url@ == self.request_url(),
            r.fields() == self.request_fields(),
    {
        match self {
            Auth::NotAuthed { .. } => self.code_request(),
            Auth::WaitForCodeAuth { .. } => self.token_request(),
            Auth::Authed { .. } => self.refresh_request(),
        }
    }

    /// Reads a reply of the service: an error reply wins over everything else;
    /// otherwise the reply parsed as the expected kind, or the error of that
    /// parse.
    pub fn try_parse<T>(error_reply: Option<ErrorResponse>, parsed: Result<T, serde_json::Error>) -> (r:
        Result<T, Error>)
        ensures
            match error_reply {
                Some(e) => r == Err::<T, Error>(error_of_response(e)),
                None => match parsed {
                    Ok(t) => r == Ok::<T, Error>(t),
                    Err(j) => r == Err::<T, Error>(Error::Json(j)),
                },
            },
    {
        match error_reply {
            Some(e) => Err(Error::from(e)),
            None => match parsed {
                Ok(t) => Ok(t),
                Err(j) => Err(Error::Json(j)),
            },
        }
    }

    /// Reads the outcome of an exchange with the service.
    pub fn read_exchange<T>(exchange: Result<Replied<T>, reqwest::Error>) -> (r: Result<T, Error>)
        ensures
            r == read_exchange(exchange),
    {
        match exchange {
            Err(e) => Err(Error::Reqwest(e)),
            Ok(rep) => Auth::try_parse(rep.error_reply, rep.parsed),
        }
    }

    /// The state that a device-code reply leads to.
    pub open spec fn after_code(self, code: CodeResponse) -> Auth {
        Auth::WaitForCodeAuth {
            message: code.message,
            my_code: code.device_code,
            user_code: code.user_code,
            url: code.verification_uri,
            client_id: self.client_id(),
            login_base_url: self.login_base_url(),
            graph_base_url: self.graph_base_url(),
        }
    }

    /// The state that a granted token leads to; it expires `expires_in`
    /// seconds after `now`.
    pub open spec fn after_token(self, auth: AuthResponse, now: Timestamp) -> Auth {
        Auth::Authed {
            client_id: self.client_id(),
            login_base_url: self.login_base_url(),
            graph_base_url: self.graph_base_url(),
            expires: now.spec_plus_seconds(auth.expires_in as int),
            token: auth.access_token,
            refresh: auth.refresh_token,
            id_token: auth.id_token,
        }
    }

    /// The state that a refreshed token leads to; the refresh token stays.
    pub open spec fn after_refresh(self, refreshed: RefreshResponse, now: Timestamp) -> Auth {
        Auth::Authed {
            client_id: self.client_id(),
            login_base_url: self.login_base_url(),
            graph_base_url: self.graph_base_url(),
            expires: now.spec_plus_seconds(refreshed.expires_in as int),
            token: refreshed.access_token,
            refresh: self->refresh,
            id_token: refreshed.id_token,
        }
    }

    /// What the exchange of the device-code request leads to.
    pub open spec fn code_outcome(self, exchange: Result<Replied<CodeResponse>, reqwest::Error>) -> Result<
        Auth,
        Error,
    > {
        match read_exchange(exchange) {
            Ok(c) => Ok(self.after_code(c)),
            Err(e) => Err(e),
        }
    }

    /// What the exchange of the poll for the token leads to, at the instant `now`.
    pub open spec fn token_outcome(
        self,
        exchange: Result<Replied<AuthResponse>, reqwest::Error>,
        now: Timestamp,
    ) -> Result<Auth, Error> {
        match read_exchange(exchange) {
            Ok(a) => Ok(self.after_token(a, now)),
            Err(e) => Err(e),
        }
    }

    /// What the exchange of the refresh leads to, at the instant `now`.
    pub open spec fn refresh_outcome(
        self,
        exchange: Result<Replied<RefreshResponse>, reqwest::Error>,
        now: Timestamp,
    ) -> Result<Auth, Error> {
        match read_exchange(exchange) {
            Ok(x) => Ok(self.after_refresh(x, now)),
            Err(e) => Err(e),
        }
    }

    /// Takes the settings out of the state.
    fn into_shared(self) -> (r: (String, String, String))
        ensures
            r == (self.client_id(), self.login_base_url(), self.graph_base_url()),
    {
        match self {
            Auth::NotAuthed { client_id, login_base_url, graph_base_url } => (
                client_id,
                login_base_url,
                graph_base_url,
            ),
            Auth::WaitForCodeAuth { client_id, login_base_url, graph_base_url, .. } => (
                client_id,
                login_base_url,
                graph_base_url,
            ),
            Auth::Authed { client_id, login_base_url, graph_base_url, .. } => (
                client_id,
                login_base_url,
                graph_base_url,
            ),
        }
    }

    /// Moves on with the exchange of the device-code request: its reply leads
    /// to waiting for the user to enter the code.
    pub fn finish_code_flow(self, exchange: Result<Replied<CodeResponse>, reqwest::Error>) -> (r: Result<
        Auth,
        Error,
    >)
        ensures
            r == self.code_outcome(exchange),
    {
        let code = Auth::read_exchange(exchange)?;
        let (client_id, login_base_url, graph_base_url) = self.into_shared();
        Ok(
            Auth::WaitForCodeAuth {
                message: code.message,
                my_code: code.device_code,
                user_code: code.user_code,
                url: code.verification_uri,
                client_id,
                login_base_url,
                graph_base_url,
            },
        )
    }

    /// Moves on with the exchange of the poll for the token: a granted token
    /// signs the client in until it expires.
    pub fn finish_check_authed(
        self,
        exchange: Result<Replied<AuthResponse>, reqwest::Error>,
        now: Timestamp,
    ) -> (r: Result<Auth, Error>)
        requires
            self is WaitForCodeAuth,
            now.is_plain(),
            read_exchange(exchange) matches Ok(a) ==> lifetime_fits(now, a.expires_in),
        ensures
            r == self.token_outcome(exchange, now),
    {
        let auth = Auth::read_exchange(exchange)?;
        let expires = now.plus_seconds(auth.expires_in as i64);
        let (client_id, login_base_url, graph_base_url) = self.into_shared();
        Ok(
            Auth::Authed {
                client_id,
                login_base_url,
                graph_base_url,
                expires,
                token: auth.access_token,
                refresh: auth.refresh_token,
                id_token: auth.id_token,
            },
        )
    }

    /// Moves on with the exchange of the refresh: the new token replaces the
    /// old one, and the refresh token stays.
    pub fn finish_refresh(
        self,
        exchange: Result<Replied<RefreshResponse>, reqwest::Error>,
        now: Timestamp,
    ) -> (r: Result<Auth, Error>)
        requires
            self is Authed,
            now.is_plain(),
            read_exchange(exchange) matches Ok(x) ==> lifetime_fits(now, x.expires_in),
        ensures
            r == self.refresh_outcome(exchange, now),
    {
        let refreshed = Auth::read_exchange(exchange)?;
        let expires = now.plus_seconds(refreshed.expires_in as i64);
        match self {
            Auth::Authed { client_id, login_base_url, graph_base_url, refresh, .. } => {
                Ok(
                    Auth::Authed {
                        client_id,
                        login_base_url,
                        graph_base_url,
                        expires,
                        token: refreshed.access_token,
                        refresh,
                        id_token: refreshed.id_token,
                    },
                )
            },
            _ => {
                proof {
                    assert(false);
                }
                Err(Error::CodeBad)
            },
        }
    }

    /// Starts the device-code flow: sends the device-code request through
    /// `send`, once, and moves on with what came back.
    pub fn start_code_flow<F>(self, send: F) -> (r: Result<Auth, Error>) where
        F: FnOnce(AuthRequest) -> Result<Replied<CodeResponse>, reqwest::Error>,
        requires
            forall|q: AuthRequest| send.requires((q,)),
        ensures
            exists|q: AuthRequest, out: Result<Replied<CodeResponse>, reqwest::Error>|
                #![trigger send.ensures((q,), out)]
                {
                    &&& q.url@ == self.code_request_url()
                    &&& q.fields() == self.code_request_fields()
                    &&& send.ensures((q,), out)
                    &&& r == self.code_outcome(out)
                },
    {
        let q = self.code_request();
        let ghost sent = q;
        let out = send(q);
        proof {
            assert(send.ensures((sent,), out));
        }
        self.finish_code_flow(out)
    }

    /// Polls for the token of the waiting device code: sends the poll through
    /// `send`, once, and moves on with what came back at the instant `now`.
    pub fn check_authed<F>(self, send: F, now: Timestamp) -> (r: Result<Auth, Error>) where
        F: FnOnce(AuthRequest) -> Result<Replied<AuthResponse>, reqwest::Error>,
        requires
            self is WaitForCodeAuth,
            now.is_plain(),
            forall|q: AuthRequest| send.requires((q,)),
            forall|q: AuthRequest, out: Result<Replied<AuthResponse>, reqwest::Error>|
                #![trigger send.ensures((q,), out)]
                send.ensures((q,), out) ==> (read_exchange(out) matches Ok(a) ==> lifetime_fits(
                    now,
                    a.expires_in,
                )),
        ensures
            exists|q: AuthRequest, out: Result<Replied<AuthResponse>, reqwest::Error>|
                #![trigger send.ensures((q,), out)]
                {
                    &&& q.url@ == self.token_request_url()
                    &&& q.fields() == self.token_request_fields()
                    &&& send.ensures((q,), out)
                    &&& r == self.token_outcome(out, now)
                },
    {
        let q = self.token_request();
        let ghost sent = q;
        let out = send(q);
        proof {
            assert(send.ensures((sent,), out));
        }
        self.finish_check_authed(out, now)
    }

    /// Renews the granted token: sends the refresh through `send`, once, and
    /// moves on with what came back at the instant `now`.
    pub fn refresh<F>(self, send: F, now: Timestamp) -> (r: Result<Auth, Error>) where
        F: FnOnce(AuthRequest) -> Result<Replied<RefreshResponse>, reqwest::Error>,
        requires
            self is Authed,
            now.is_plain(),
            forall|q: AuthRequest| send.requires((q,)),
            forall|q: AuthRequest, out: Result<Replied<RefreshResponse>, reqwest::Error>|
                #![trigger send.ensures((q,), out)]
                send.ensures((q,), out) ==> (read_exchange(out) matches Ok(x) ==> lifetime_fits(
                    now,
                    x.expires_in,
                )),
        ensures
            exists|q: AuthRequest, out: Result<Replied<RefreshResponse>, reqwest::Error>|
                #![trigger send.ensures((q,), out)]
                {
                    &&& q.url@ == self.token_request_url()
                    &&& q.fields() == self.refresh_request_fields()
                    &&& send.ensures((q,), out)
                    &&& r == self.refresh_outcome(out, now)
                },
    {
        let q = self.refresh_request();
        let ghost sent = q;
        let out = send(q);
        proof {
            assert(send.ensures((sent,), out));
        }
        self.finish_refresh(out, now)
    }

    /// What one sign-in step leads to from this state, given the replies to
    /// its request and the instant `now`.
    pub open spec fn step(self, out: Result<Replies, reqwest::Error>, now: Timestamp) -> Result<
        Auth,
        Error,
    > {
        match self {
            Auth::NotAuthed { .. } => self.code_outcome(code_part(out)),
            Auth::WaitForCodeAuth { .. } => self.token_outcome(token_part(out), now),
            Auth::Authed { .. } => self.refresh_outcome(refreshed_part(out), now),
        }
    }

    /// The token that the replies grant from this state, if any, can be
    /// counted from `now`.
    pub open spec fn step_fits(self, out: Result<Replies, reqwest::Error>, now: Timestamp) -> bool {
        match self {
            Auth::NotAuthed { .. } => true,
            Auth::WaitForCodeAuth { .. } => read_exchange(token_part(out)) matches Ok(a)
                ==> lifetime_fits(now, a.expires_in),
            Auth::Authed { .. } => read_exchange(refreshed_part(out)) matches Ok(x) ==> lifetime_fits(
                now,
                x.expires_in,
            ),
        }
    }

    /// Takes one step of the sign-in: sends the request of this state through
    /// `send`, once, and reads what came back as the reply that state expects.
    /// Every step keeps the settings; a device-code reply leads to waiting
    /// for the code, a granted token to being signed in, and a refresh keeps
    /// the client signed in.
    pub fn authenticate<F>(self, send: F, now: Timestamp) -> (r: Result<Auth, Error>) where
        F: FnOnce(AuthRequest) -> Result<Replies, reqwest::Error>,
        requires
            !(self is NotAuthed) ==> now.is_plain(),
            forall|q: AuthRequest| send.requires((q,)),
            forall|q: AuthRequest, out: Result<Replies, reqwest::Error>|
                #![trigger send.ensures((q,), out)]
                send.ensures((q,), out) ==> self.step_fits(out, now),
        ensures
            exists|q: AuthRequest, out: Result<Replies, reqwest::Error>|
                #![trigger send.ensures((q,), out)]
                {
                    &&& q.url@ == self.request_url()
                    &&& q.fields() == self.request_fields()
                    &&& send.ensures((q,), out)
                    &&& r == self.step(out, now)
                },
            r matches Ok(next) ==> {
                &&& next.client_id() == self.client_id()
                &&& next.login_base_url() == self.login_base_url()
                &&& next.graph_base_url() == self.graph_base_url()
                &&& (self is NotAuthed ==> next is WaitForCodeAuth)
                &&& (self is WaitForCodeAuth ==> next is Authed)
                &&& (self is Authed ==> next is Authed)
            },
    {
        let q = self.request();
        let ghost sent = q;
        let out = send(q);
        proof {
            assert(send.ensures((sent,), out));
            assert(self.step_fits(out, now));
        }
        match &self {
            Auth::NotAuthed { .. } => self.finish_code_flow(take_code(out)),
            Auth::WaitForCodeAuth { .. } => self.finish_check_authed(take_token(out), now),
            Auth::Authed { .. } => self.finish_refresh(take_refreshed(out), now),
        }
    }
}

/// Every sign-in step keeps the settings of the state, and moves it on: from
/// before sign-in to waiting for the code, from waiting to signed in, and from
/// signed in to signed in.
pub proof fn law_step_moves_on(auth: Auth, out: Result<Replies, reqwest::Error>, now: Timestamp)
    ensures
        auth.step(out, now) matches Ok(next) ==> {
            &&& next.client_id() == auth.client_id()
            &&& next.login_base_url() == auth.login_base_url()
            &&& next.graph_base_url() == auth.graph_base_url()
            &&& (auth is NotAuthed ==> next is WaitForCodeAuth)
            &&& (auth is WaitForCodeAuth ==> next is Authed)
            &&& (auth is Authed ==> next is Authed)
        },
{
}

} // verus!
