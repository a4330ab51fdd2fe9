//! Calendar events, and the calendars that supply them.
pub mod event;
pub mod outlook;

pub use event::{Cat, Event, Personal};
