//! Sending notifications.
use vstd::prelude::*;

pub mod plain;
pub mod pushbullet;

pub use pushbullet::Pushbullet;

verus! {

/// A Slack channel (no sending is defined for it).
#[derive(Debug)]
pub struct Slack;

/// Why sending a notification failed.
#[derive(Debug)]
pub enum Error {
    Many(Vec<Error>),
    Pushbullet(pushbullet::Error),
    Reqwest(reqwest::Error),
    Json(serde_json::Error),
}

impl From<reqwest::Error> for Error {
    fn from(e: reqwest::Error) -> (r: Self) {
        Error::Reqwest(e)
    }
}

impl vstd::std_specs::convert::FromSpecImpl<reqwest::Error> for Error {
    open spec fn obeys_from_spec() -> bool {
        true
    }

    open spec fn from_spec(v: reqwest::Error) -> Error {
        Error::Reqwest(v)
    }
}

impl From<serde_json::Error> for Error {
    fn from(e: serde_json::Error) -> (r: Self) {
        Error::Json(e)
    }
}

impl vstd::std_specs::convert::FromSpecImpl<serde_json::Error> for Error {
    open spec fn obeys_from_spec() -> bool {
        true
    }

    open spec fn from_spec(v: serde_json::Error) -> Error {
        Error::Json(v)
    }
}

impl From<pushbullet::Error> for Error {
    fn from(e: pushbullet::Error) -> (r: Self) {
        Error::Pushbullet(e)
    }
}

impl vstd::std_specs::convert::FromSpecImpl<pushbullet::Error> for Error {
    open spec fn obeys_from_spec() -> bool {
        true
    }

    open spec fn from_spec(v: pushbullet::Error) -> Error {
        Error::Pushbullet(v)
    }
}

} // verus!
