//! One calendar event and its category.
use vstd::prelude::*;

use crate::time::Timestamp;

verus! {

/// An event on a calendar.
#[derive(Debug)]
pub struct Event {
    pub cat: Cat,
    pub title: String,
    pub time_start: Timestamp,
    pub time_end: Timestamp,
    pub location: Option<String>,
}

/// What an event is for.
#[derive(Debug, PartialEq, Eq, Structural, Clone, Copy)]
pub enum Cat {
    Work,
    Personal(Personal),
}

/// The kinds of personal event.
#[derive(Debug, PartialEq, Eq, Structural, Clone, Copy)]
pub enum Personal {
    Chore,
    Habit,
    Plan,
    Med,
}

impl Personal {
    /// How a kind of personal event is shown.
    pub open spec fn text(self) -> Seq<char> {
        match self {
            Personal::Chore => "Chore"@,
            Personal::Habit => "Habit"@,
            Personal::Plan => "Plan"@,
            Personal::Med => "Medical"@,
        }
    }

    /// Shows the kind of personal event.
    pub fn to_string(&self) -> (s: String)
        ensures
            s@ == self.text(),
    {
        match self {
            Personal::Chore => String::from_str("Chore"),
            Personal::Habit => String::from_str("Habit"),
            Personal::Plan => String::from_str("Plan"),
            Personal::Med => String::from_str("Medical"),
        }
    }
}

impl Cat {
    /// How a category is shown: `Work`, or `Personal: ` and the kind.
    pub open spec fn text(self) -> Seq<char> {
        match self {
            Cat::Work => "Work"@,
            Cat::Personal(p) => "Personal: "@ + p.text(),
        }
    }

    /// Shows the category.
    pub fn to_string(&self) -> (s: String)
        ensures
            s@ == self.text(),
    {
        match self {
            Cat::Work => String::from_str("Work"),
            Cat::Personal(p) => {
                let mut s = String::from_str("Personal: ");
                let k = p.to_string();
                s.append(k.as_str());
                s
            },
        }
    }
}

} // verus!
