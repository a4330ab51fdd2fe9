//! A calendar read from Outlook with a token of its own.
use vstd::prelude::*;

verus! {

/// An Outlook calendar and the token that reads it.
pub struct Outlook {
    token: String,
}

/// How an Outlook calendar is set up.
#[allow(non_snake_case)]
pub struct Config {
    pub deviceCode: Option<String>,
}

/// Where an Outlook calendar stands in signing in.
pub enum AuthState {
    Unauthed {  },
    WaitForDeviceCode {  },
    Authed {  },
}

impl Outlook {
    /// The token the calendar holds.
    pub closed spec fn spec_token(&self) -> Seq<char> {
        self.token@
    }

    /// Makes a calendar that holds no token yet, whatever the setup says.
    pub fn new(cfg: Config) -> (o: Self)
        ensures
            o.spec_token() == Seq::<char>::empty(),
    {
        Outlook { token: String::new() }
    }

    /// The token the calendar holds.
    pub fn token(&self) -> (t: &str)
        ensures
            t@ == self.spec_token(),
    {
        self.token.as_str()
    }
}

} // verus!
