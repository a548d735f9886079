//! The interaction controller: the executable state machine.

use crate::command::Command;
use crate::date::local_today;
use crate::mode::Mode;
use crate::reminder::Reminder;
use crate::selection::SelectionState;
use crate::snapshot::Snapshot;
use crate::transition::ControllerModel;
use chrono::NaiveDate;
use vstd::prelude::*;

verus! {

/// Owner of the mode and of the selection.
///
/// The controller is the only consumer of commands. Its state is changed by
/// [`apply`](InteractionController::apply) and by nothing else; everything
/// else reads it, or takes a [`Snapshot`] of it.
#[derive(Clone, Copy, Debug, PartialEq, Eq)]
pub struct InteractionController {
    mode: Mode,
    selection: SelectionState,
}

impl View for InteractionController {
    type V = ControllerModel;

    closed spec fn view(&self) -> ControllerModel {
        ControllerModel { mode: self.mode, selection: self.selection@ }
    }
}

impl InteractionController {
    /// Starts a controller on `date`: browsing, with the first bin category
    /// chosen.
    pub fn new(date: NaiveDate) -> (controller: InteractionController)
        ensures
            controller@ == ControllerModel::initial(date),
            controller@.well_formed(),
    {
        InteractionController { mode: Mode::Browsing, selection: SelectionState::new(date, Some(0)) }
    }

    /// Starts a controller on the current local date.
    ///
    /// Which date that is depends on the clock, so the contract leaves it
    /// open and fixes the rest: the controller is in the initial state for
    /// the date it holds.
    pub fn init() -> (controller: InteractionController)
        ensures
            controller@ == ControllerModel::initial(controller@.selection.date),
            controller@.well_formed(),
    {
        InteractionController::new(local_today())
    }

    /// Builds the controller that is in `mode` and holds `selection`.
    pub fn from_parts(mode: Mode, selection: SelectionState) -> (controller: InteractionController)
        ensures
            controller@ == (ControllerModel { mode, selection: selection@ }),
    {
        InteractionController { mode, selection }
    }

    /// The mode the controller is in.
    pub fn mode(&self) -> (mode: Mode)
        ensures
            mode == self@.mode,
    {
        self.mode
    }

    /// A copy of the selection the controller holds.
    pub fn selection(&self) -> (selection: SelectionState)
        ensures
            selection@ == self@.selection,
    {
        self.selection
    }

    /// Whether the controller keeps its invariant.
    pub fn is_well_formed(&self) -> (ok: bool)
        ensures
            ok == self@.well_formed(),
    {
        self.selection.is_well_formed()
    }

    /// Applies `command` and returns the state that follows.
    ///
    /// Total: every command is accepted in every mode, and none is tested
    /// against its guard. The result is the one
    /// [`ControllerModel::step`] gives. A command that meets its guard keeps
    /// a well-formed state well-formed.
    pub fn apply(self, command: Command) -> (next: InteractionController)
        ensures
            next@ == self@.step(command@),
            self@.well_formed() && command@.admissible() ==> next@.well_formed(),
    {
        match command {
            Command::StartEdit => InteractionController { mode: Mode::Editing, selection: self.selection },
            Command::StopEdit => InteractionController { mode: Mode::Browsing, selection: self.selection },
            Command::SubmitReminder(description) => {
                // The reminder lives for the length of this arm; there is no
                // store to put it in.
                let _reminder = Reminder::new(description);
                self
            },
            Command::SelectDate(date) => InteractionController {
                mode: self.mode,
                selection: self.selection.with_date(date),
            },
            Command::SelectBin(index) => InteractionController {
                mode: self.mode,
                selection: self.selection.with_bin_index(index),
            },
        }
    }

    /// Takes the picture of the state that a renderer works from.
    pub fn snapshot(&self) -> (snapshot: Snapshot)
        ensures
            snapshot == self@.snapshot(),
    {
        Snapshot {
            mode: self.mode,
            date: self.selection.current_date(),
            bin_category: self.selection.resolved_bin_category(),
        }
    }
}

} // verus!
