//! Notification channels that only name where a message would go.
use vstd::prelude::*;

verus! {

/// A Pushbullet account, known by its access token.
#[derive(Debug)]
pub struct Pushbullet {
    pub token: String,
}

/// An e-mail channel.
#[derive(Debug)]
pub struct Email;

/// A Slack channel.
#[derive(Debug)]
pub struct Slack;

} // verus!
