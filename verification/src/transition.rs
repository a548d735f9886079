//! The interaction state machine, as mathematics.
//!
//! [`ControllerModel::step`] is the transition function. The executable
//! controller is proved to follow it, and the laws at the end of this file
//! are proved of it.

use crate::catalog::{spec_lookup, BIN_COUNT};
use crate::command::CommandModel;
use crate::mode::Mode;
use crate::selection::SelectionModel;
use crate::snapshot::Snapshot;
use chrono::NaiveDate;
use vstd::prelude::*;

verus! {

/// Mathematical model of the controller: a mode and a selection, which vary
/// independently of each other.
pub struct ControllerModel {
    pub mode: Mode,
    pub selection: SelectionModel,
}

impl ControllerModel {
    /// The state of a controller started on `date`: browsing, with the first
    /// bin category chosen.
    pub open spec fn initial(date: NaiveDate) -> ControllerModel {
        ControllerModel {
            mode: Mode::initial(),
            selection: SelectionModel { date, bin_index: Some(0nat) },
        }
    }

    /// The invariant of the controller, which is that of its selection.
    pub open spec fn well_formed(self) -> bool {
        self.selection.well_formed()
    }

    /// The state that follows `self` when `command` arrives.
    ///
    /// `StartEdit` and `StopEdit` set the mode and leave the selection alone.
    /// `SelectDate` and `SelectBin` set one part of the selection and leave
    /// the mode and the other part alone. `SubmitReminder` changes nothing.
    /// No command is refused in any mode.
    pub open spec fn step(self, command: CommandModel) -> ControllerModel {
        match command {
            CommandModel::StartEdit => ControllerModel { mode: Mode::Editing, ..self },
            CommandModel::StopEdit => ControllerModel { mode: Mode::Browsing, ..self },
            CommandModel::SubmitReminder(_) => self,
            CommandModel::SelectDate(date) => ControllerModel {
                selection: SelectionModel { date, ..self.selection },
                ..self
            },
            CommandModel::SelectBin(index) => ControllerModel {
                selection: SelectionModel { bin_index: Some(index), ..self.selection },
                ..self
            },
        }
    }

    /// What the renderer is shown of the state.
    pub open spec fn snapshot(self) -> Snapshot {
        Snapshot {
            mode: self.mode,
            date: self.selection.date,
            bin_category: self.selection.resolved_bin_category(),
        }
    }
}

/// The state reached from `state` when `commands` arrive one after the
/// other, each processed to completion before the next.
pub open spec fn run(state: ControllerModel, commands: Seq<CommandModel>) -> ControllerModel
    decreases commands.len(),
{
    if commands.len() == 0 {
        state
    } else {
        run(state, commands.drop_last()).step(commands.last())
    }
}

/// The initial state is well-formed, whatever the date.
pub proof fn lemma_initial_well_formed(date: NaiveDate)
    ensures
        ControllerModel::initial(date).well_formed(),
{
}

/// An admissible command takes a well-formed state to a well-formed state.
pub proof fn lemma_step_preserves_well_formed(state: ControllerModel, command: CommandModel)
    requires
        state.well_formed(),
        command.admissible(),
    ensures
        state.step(command).well_formed(),
{
}

/// Every state reached from a well-formed one by admissible commands is
/// well-formed: a chosen bin index always points into the catalog.
pub proof fn lemma_run_preserves_well_formed(state: ControllerModel, commands: Seq<CommandModel>)
    requires
        state.well_formed(),
        forall|i: int| 0 <= i < commands.len() ==> (#[trigger] commands[i]).admissible(),
    ensures
        run(state, commands).well_formed(),
    decreases commands.len(),
{
    if commands.len() > 0 {
        lemma_run_preserves_well_formed(state, commands.drop_last());
        lemma_step_preserves_well_formed(run(state, commands.drop_last()), commands.last());
    }
}

/// Entering edit mode twice is the same as entering it once: either way the
/// controller is editing.
pub proof fn lemma_start_edit_idempotent(state: ControllerModel)
    ensures
        state.step(CommandModel::StartEdit).mode == Mode::Editing,
        state.step(CommandModel::StartEdit).step(CommandModel::StartEdit).mode
            == state.step(CommandModel::StartEdit).mode,
        state.step(CommandModel::StartEdit).step(CommandModel::StartEdit)
            == state.step(CommandModel::StartEdit),
{
}

/// Leaving edit mode twice is the same as leaving it once: either way the
/// controller is browsing.
pub proof fn lemma_stop_edit_idempotent(state: ControllerModel)
    ensures
        state.step(CommandModel::StopEdit).mode == Mode::Browsing,
        state.step(CommandModel::StopEdit).step(CommandModel::StopEdit)
            == state.step(CommandModel::StopEdit),
{
}

/// From a browsing state, entering and then leaving edit mode gives the
/// state back unchanged.
pub proof fn lemma_edit_round_trip(state: ControllerModel)
    requires
        state.mode == Mode::Browsing,
    ensures
        state.step(CommandModel::StartEdit).step(CommandModel::StopEdit) == state,
{
}

/// The commands that change the mode leave the selection untouched.
pub proof fn lemma_mode_commands_keep_selection(state: ControllerModel)
    ensures
        state.step(CommandModel::StartEdit).selection == state.selection,
        state.step(CommandModel::StopEdit).selection == state.selection,
{
}

/// Selecting a date works alike in every mode: the chosen date becomes the
/// selected one, and the mode and the chosen bin stay as they were.
pub proof fn lemma_select_date_in_any_mode(state: ControllerModel, date: NaiveDate)
    ensures
        state.step(CommandModel::SelectDate(date)).selection.date == date,
        state.step(CommandModel::SelectDate(date)).mode == state.mode,
        state.step(CommandModel::SelectDate(date)).selection.bin_index == state.selection.bin_index,
{
}

/// Selecting a date and changing the mode can be done in either order: the
/// state reached is the same.
pub proof fn lemma_select_date_commutes_with_mode(state: ControllerModel, date: NaiveDate)
    ensures
        state.step(CommandModel::StartEdit).step(CommandModel::SelectDate(date))
            == state.step(CommandModel::SelectDate(date)).step(CommandModel::StartEdit),
        state.step(CommandModel::StopEdit).step(CommandModel::SelectDate(date))
            == state.step(CommandModel::SelectDate(date)).step(CommandModel::StopEdit),
{
}

/// Selecting a bin works alike in every mode: the chosen index becomes the
/// selected one, and the mode and the chosen date stay as they were. An index
/// inside the catalog then resolves to the entry found at it.
pub proof fn lemma_select_bin_in_any_mode(state: ControllerModel, index: nat)
    ensures
        state.step(CommandModel::SelectBin(index)).selection.bin_index == Some(index),
        state.step(CommandModel::SelectBin(index)).mode == state.mode,
        state.step(CommandModel::SelectBin(index)).selection.date == state.selection.date,
        index < BIN_COUNT ==> state.step(
            CommandModel::SelectBin(index),
        ).selection.resolved_bin_category() == spec_lookup(index as int),
{
}

/// Submitting a reminder leaves the whole state as it was, whatever the text
/// and whatever the mode.
pub proof fn lemma_submit_reminder_changes_nothing(state: ControllerModel, description: Seq<char>)
    ensures
        state.step(CommandModel::SubmitReminder(description)) == state,
{
}

} // verus!
