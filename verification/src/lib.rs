//! The verified core of a service that gathers the day's calendar events,
//! signs in to Azure AD with the device-code flow, and sends summaries
//! through Pushbullet.
pub mod app;
pub mod calendar;
pub mod handle;
pub mod integrate;
pub mod lamb;
pub mod notify;
pub mod outer;
pub mod prelude;
pub mod time;
pub mod utils;
