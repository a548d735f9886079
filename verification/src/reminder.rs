//! Reminders: a note the user writes against a date.

use vstd::prelude::*;

verus! {

/// A single reminder.
///
/// A reminder is its description and nothing else; the text is taken as it
/// comes, empty or not. The mathematical view of a reminder is the sequence
/// of characters of that text.
#[derive(Debug, PartialEq, Eq)]
pub struct Reminder {
    description: String,
}

impl View for Reminder {
    type V = Seq<char>;

    closed spec fn view(&self) -> Seq<char> {
        self.description@
    }
}

impl Clone for Reminder {
    fn clone(&self) -> (copy: Reminder)
        ensures
            copy@ == self@,
    {
        Reminder { description: self.description.clone() }
    }
}

impl Reminder {
    /// Builds the reminder that carries `description`.
    pub fn new(description: String) -> (reminder: Reminder)
        ensures
            reminder@ == description@,
    {
        Reminder { description }
    }

    /// The text of the reminder.
    pub fn description(&self) -> (text: &str)
        ensures
            text@ == self@,
    {
        self.description.as_str()
    }
}

} // verus!
