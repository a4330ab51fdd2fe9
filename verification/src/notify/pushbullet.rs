//! Notifications sent as Pushbullet notes.
use vstd::prelude::*;

verus! {

/// The error reply of the Pushbullet API.
#[derive(Debug)]
pub struct Error {
    pub error: ErrorObject,
}

/// What the Pushbullet API says went wrong.
#[derive(Debug)]
pub struct ErrorObject {
    pub kind: String,
    pub message: String,
    pub param: Option<String>,
    pub cat: String,
}

/// A Pushbullet account and the API it is reached through.
#[derive(Debug)]
pub struct Pushbullet {
    pub base_url: String,
    pub token: String,
}

/// What is pushed.
pub enum Push {
    Note { title: String, body: String },
}

/// A device of the Pushbullet account.
#[derive(Debug)]
pub struct Device {
    pub iden: String,
}

/// The reply that lists the account's devices.
#[derive(Debug)]
pub struct DeviceResponse {
    pub devices: Vec<Device>,
}

/// The HTTP method of a request to the Pushbullet API.
#[derive(Debug, PartialEq, Eq, Structural, Clone, Copy)]
pub enum Method {
    Get,
    Post,
}

/// A request to the Pushbullet API: its method and URL, the account's token,
/// which is sent as the `Access-Token` header, and the push, if any, which is
/// sent as the JSON body.
pub struct Request {
    pub method: Method,
    pub url: String,
    pub access_token: String,
    pub push: Option<Push>,
}

/// What came back for a request: the status, and the body read as the
/// service's error reply where the status is a failure, or as the expected
/// reply where it is a success; reading the body may itself fail.
pub struct Reply<T> {
    pub status: u16,
    pub error_body: Option<Result<Error, super::Error>>,
    pub body: Option<Result<T, super::Error>>,
}

impl<T> Reply<T> {
    /// The body that the status calls for was read.
    pub open spec fn complete(self) -> bool {
        &&& is_success_status(self.status) ==> self.body is Some
        &&& !is_success_status(self.status) ==> self.error_body is Some
    }
}

/// What listing the devices comes to: the transport error, the error that a
/// failing status stands for, or the devices of a successful reply in the
/// order listed (or the error met in reading them).
pub open spec fn devices_result(reply: Result<Reply<DeviceResponse>, reqwest::Error>) -> Result<
    Vec<Device>,
    super::Error,
> {
    match reply {
        Err(e) => Err(super::Error::Reqwest(e)),
        Ok(a) => if is_success_status(a.status) {
            match a.body->0 {
                Ok(d) => Ok(d.devices),
                Err(other) => Err(other),
            }
        } else {
            match a.error_body->0 {
                Ok(pe) => Err(super::Error::Pushbullet(pe)),
                Err(other) => Err(other),
            }
        },
    }
}

/// What a push comes to: the transport error, the error that a failing
/// status stands for, or success.
pub open spec fn push_result(reply: Result<Reply<()>, reqwest::Error>) -> Result<(), super::Error> {
    match reply {
        Err(e) => Err(super::Error::Reqwest(e)),
        Ok(a) => if is_success_status(a.status) {
            Ok(())
        } else {
            match a.error_body->0 {
                Ok(pe) => Err(super::Error::Pushbullet(pe)),
                Err(other) => Err(other),
            }
        },
    }
}

/// An HTTP status of the 2xx class, the ones that report success.
pub open spec fn is_success_status(status: u16) -> bool {
    200 <= status < 300
}

/// Whether an HTTP status reports success (`StatusCode::is_success`).
pub fn is_success(status: u16) -> (ok: bool)
    ensures
        ok == is_success_status(status),
{
    200 <= status && status < 300
}

impl Pushbullet {
    /// Where pushes are sent.
    pub fn pushes_url(&self) -> (u: String)
        ensures
            u@ == self.base_url@ + "/pushes"@,
    {
        let mut u = self.base_url.clone();
        u.append("/pushes");
        u
    }

    /// Where the account's devices are listed.
    pub fn devices_url(&self) -> (u: String)
        ensures
            u@ == self.base_url@ + "/devices"@,
    {
        let mut u = self.base_url.clone();
        u.append("/devices");
        u
    }

    /// The request that lists the account's devices: a GET of `/devices`
    /// with the account's token and no body.
    pub fn devices_request(&self) -> (r: Request)
        ensures
            r.method == Method::Get,
            r.url@ == self.base_url@ + "/devices"@,
            r.access_token@ == self.token@,
            r.push is None,
    {
        Request {
            method: Method::Get,
            url: self.devices_url(),
            access_token: self.token.clone(),
            push: None,
        }
    }

    /// The request that sends a push: a POST of it to `/pushes` with the
    /// account's token.
    pub fn push_request(&self, push: Push) -> (r: Request)
        ensures
            r.method == Method::Post,
            r.url@ == self.base_url@ + "/pushes"@,
            r.access_token@ == self.token@,
            r.push == Some(push),
    {
        Request {
            method: Method::Post,
            url: self.pushes_url(),
            access_token: self.token.clone(),
            push: Some(push),
        }
    }

    /// The request that sends a notification: the push of a note with its
    /// title and body.
    pub fn notify_request(&self, title: &str, body: &str) -> (r: Request)
        ensures
            r.method == Method::Post,
            r.url@ == self.base_url@ + "/pushes"@,
            r.access_token@ == self.token@,
            r.push matches Some(Push::Note { title: t, body: b }) && t@ == title@ && b@ == body@,
    {
        self.push_request(Self::note(title, body))
    }

    /// The outcome of listing the devices: the transport error, the error
    /// that a failing status stands for, or the devices of a successful
    /// reply in the order listed (or the error met in reading them).
    pub fn devices_outcome(reply: Result<Reply<DeviceResponse>, reqwest::Error>) -> (r: Result<
        Vec<Device>,
        super::Error,
    >)
        requires
            reply matches Ok(a) ==> a.complete(),
        ensures
            r == devices_result(reply),
            match reply {
                Err(e) => r == Err::<Vec<Device>, super::Error>(super::Error::Reqwest(e)),
                Ok(a) => if is_success_status(a.status) {
                    match a.body->0 {
                        Ok(d) => r matches Ok(v) && v@ == d.devices@,
                        Err(other) => r == Err::<Vec<Device>, super::Error>(other),
                    }
                } else {
                    match a.error_body->0 {
                        Ok(pe) => r == Err::<Vec<Device>, super::Error>(super::Error::Pushbullet(pe)),
                        Err(other) => r == Err::<Vec<Device>, super::Error>(other),
                    }
                },
            },
    {
        match reply {
            Err(e) => Err(super::Error::from(e)),
            Ok(a) => {
                if is_success(a.status) {
                    match a.body {
                        Some(Ok(d)) => Ok(d.devices),
                        Some(Err(other)) => Err(other),
                        None => {
                            proof {
                                assert(false);
                            }
                            Ok(Vec::new())
                        },
                    }
                } else {
                    match a.error_body {
                        Some(b) => Err(Self::failure(b)),
                        None => {
                            proof {
                                assert(false);
                            }
                            Ok(Vec::new())
                        },
                    }
                }
            },
        }
    }

    /// The outcome of a push: the transport error, the error that a failing
    /// status stands for, or success.
    pub fn push_outcome(reply: Result<Reply<()>, reqwest::Error>) -> (r: Result<(), super::Error>)
        requires
            reply matches Ok(a) ==> a.complete(),
        ensures
            r == push_result(reply),
            match reply {
                Err(e) => r == Err::<(), super::Error>(super::Error::Reqwest(e)),
                Ok(a) => if is_success_status(a.status) {
                    r is Ok
                } else {
                    match a.error_body->0 {
                        Ok(pe) => r == Err::<(), super::Error>(super::Error::Pushbullet(pe)),
                        Err(other) => r == Err::<(), super::Error>(other),
                    }
                },
            },
    {
        match reply {
            Err(e) => Err(super::Error::from(e)),
            Ok(a) => {
                if is_success(a.status) {
                    Ok(())
                } else {
                    Self::fail_if_error(a.status, a.error_body)
                }
            },
        }
    }

    /// Lists the account's devices: sends the devices request through
    /// `send`, once, and reads what came back.
    pub fn get_devices<F>(&self, send: F) -> (r: Result<Vec<Device>, super::Error>) where
        F: FnOnce(Request) -> Result<Reply<DeviceResponse>, reqwest::Error>,
        requires
            forall|q: Request| send.requires((q,)),
            forall|q: Request, out: Result<Reply<DeviceResponse>, reqwest::Error>|
                #![trigger send.ensures((q,), out)]
                send.ensures((q,), out) ==> (out matches Ok(a) ==> a.complete()),
        ensures
            exists|q: Request, out: Result<Reply<DeviceResponse>, reqwest::Error>|
                #![trigger send.ensures((q,), out)]
                {
                    &&& q.method == Method::Get
                    &&& q.url@ == self.base_url@ + "/devices"@
                    &&& q.access_token@ == self.token@
                    &&& q.push is None
                    &&& send.ensures((q,), out)
                    &&& r == devices_result(out)
                },
    {
        let q = self.devices_request();
        let ghost sent = q;
        let out = send(q);
        proof {
            assert(send.ensures((sent,), out));
        }
        Self::devices_outcome(out)
    }

    /// Sends a push: hands its request to `send`, once, and reads what came
    /// back.
    pub fn push<F>(&self, send: F, push: Push) -> (r: Result<(), super::Error>) where
        F: FnOnce(Request) -> Result<Reply<()>, reqwest::Error>,
        requires
            forall|q: Request| send.requires((q,)),
            forall|q: Request, out: Result<Reply<()>, reqwest::Error>|
                #![trigger send.ensures((q,), out)]
                send.ensures((q,), out) ==> (out matches Ok(a) ==> a.complete()),
        ensures
            exists|q: Request, out: Result<Reply<()>, reqwest::Error>|
                #![trigger send.ensures((q,), out)]
                {
                    &&& q.method == Method::Post
                    &&& q.url@ == self.base_url@ + "/pushes"@
                    &&& q.access_token@ == self.token@
                    &&& q.push == Some(push)
                    &&& send.ensures((q,), out)
                    &&& r == push_result(out)
                },
    {
        let q = self.push_request(push);
        let ghost sent = q;
        let out = send(q);
        proof {
            assert(send.ensures((sent,), out));
        }
        Self::push_outcome(out)
    }

    /// Sends a notification as a note with this title and body: hands its
    /// request to `send`, once, and reads what came back.
    pub fn notify<F>(&self, send: F, title: &str, body: &str) -> (r: Result<(), super::Error>) where
        F: FnOnce(Request) -> Result<Reply<()>, reqwest::Error>,
        requires
            forall|q: Request| send.requires((q,)),
            forall|q: Request, out: Result<Reply<()>, reqwest::Error>|
                #![trigger send.ensures((q,), out)]
                send.ensures((q,), out) ==> (out matches Ok(a) ==> a.complete()),
        ensures
            exists|q: Request, out: Result<Reply<()>, reqwest::Error>|
                #![trigger send.ensures((q,), out)]
                {
                    &&& q.method == Method::Post
                    &&& q.url@ == self.base_url@ + "/pushes"@
                    &&& q.access_token@ == self.token@
                    &&& q.push matches Some(Push::Note { title: t, body: b }) && t@ == title@ && b@
                        == body@
                    &&& send.ensures((q,), out)
                    &&& r == push_result(out)
                },
    {
        self.push(send, Self::note(title, body))
    }

    /// The note that a notification with this title and body is sent as.
    pub fn note(title: &str, body: &str) -> (p: Push)
        ensures
            p matches Push::Note { title: t, body: b } && t@ == title@ && b@ == body@,
    {
        Push::Note { title: String::from_str(title), body: String::from_str(body) }
    }

    /// The error that a reply with a failing status stands for: the error that
    /// the reply's body holds, or the error met in reading that body.
    pub fn failure(body: Result<Error, super::Error>) -> (e: super::Error)
        ensures
            match body {
                Ok(pe) => e == super::Error::Pushbullet(pe),
                Err(other) => e == other,
            },
    {
        match body {
            Ok(pe) => super::Error::from(pe),
            Err(other) => other,
        }
    }

    /// The outcome of a push, from the status of the reply and, where that
    /// status is a failure, what its body held.
    pub fn fail_if_error(status: u16, body: Option<Result<Error, super::Error>>) -> (r: Result<(), super::Error>)
        requires
            !is_success_status(status) ==> body is Some,
        ensures
            is_success_status(status) ==> r is Ok,
            !is_success_status(status) ==> match body->0 {
                Ok(pe) => r == Err::<(), super::Error>(super::Error::Pushbullet(pe)),
                Err(other) => r == Err::<(), super::Error>(other),
            },
    {
        if is_success(status) {
            Ok(())
        } else {
            match body {
                Some(b) => Err(Self::failure(b)),
                None => {
                    proof {
                        assert(false);
                    }
                    Ok(())
                },
            }
        }
    }
}

} // verus!
