//! The inbound commands of the interaction core.

use crate::catalog::BIN_COUNT;
use chrono::NaiveDate;
use vstd::prelude::*;

verus! {

/// Mathematical model of a command.
pub enum CommandModel {
    StartEdit,
    StopEdit,
    SubmitReminder(Seq<char>),
    SelectDate(NaiveDate),
    SelectBin(nat),
}

impl CommandModel {
    /// The guard of a command: a bin is selected by an index inside the
    /// catalog. Every other command is admissible as it is.
    pub open spec fn admissible(self) -> bool {
        self matches CommandModel::SelectBin(index) ==> index < BIN_COUNT
    }
}

/// A discrete input event handed to the controller.
#[derive(Debug, PartialEq, Eq)]
pub enum Command {
    /// Enter the editing posture.
    StartEdit,
    /// Leave the editing posture.
    StopEdit,
    /// Submit a reminder with the given description; any text, also none.
    SubmitReminder(String),
    /// Choose a calendar date.
    SelectDate(NaiveDate),
    /// Choose the bin category at the given catalog index.
    SelectBin(usize),
}

impl View for Command {
    type V = CommandModel;

    open spec fn view(&self) -> CommandModel {
        match *self {
            Command::StartEdit => CommandModel::StartEdit,
            Command::StopEdit => CommandModel::StopEdit,
            Command::SubmitReminder(description) => CommandModel::SubmitReminder(description@),
            Command::SelectDate(date) => CommandModel::SelectDate(date),
            Command::SelectBin(index) => CommandModel::SelectBin(index as nat),
        }
    }
}

impl Clone for Command {
    fn clone(&self) -> (copy: Command)
        ensures
            copy@ == self@,
    {
        match self {
            Command::StartEdit => Command::StartEdit,
            Command::StopEdit => Command::StopEdit,
            Command::SubmitReminder(description) => Command::SubmitReminder(description.clone()),
            Command::SelectDate(date) => Command::SelectDate(*date),
            Command::SelectBin(index) => Command::SelectBin(*index),
        }
    }
}

impl Command {
    /// Whether the command meets its guard.
    ///
    /// The controller does not test the guard itself. A host that takes
    /// indices from a source it does not control tests them here and drops
    /// what fails.
    pub fn is_admissible(&self) -> (ok: bool)
        ensures
            ok == self@.admissible(),
    {
        match self {
            Command::SelectBin(index) => *index < BIN_COUNT,
            _ => true,
        }
    }
}

} // verus!
