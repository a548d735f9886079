//! The selection model: the chosen calendar date and the chosen bin.

use crate::catalog::{lookup, spec_lookup, BinCategory, BIN_COUNT};
use chrono::NaiveDate;
use vstd::prelude::*;

verus! {

/// Mathematical model of a selection.
pub struct SelectionModel {
    /// The chosen calendar date.
    pub date: NaiveDate,
    /// The chosen position in the bin catalog, if one is chosen.
    pub bin_index: Option<nat>,
}

impl SelectionModel {
    /// The invariant of a selection: a chosen bin index points into the
    /// catalog.
    pub open spec fn well_formed(self) -> bool {
        self.bin_index matches Some(index) ==> index < BIN_COUNT
    }

    /// The bin category the selection stands for.
    ///
    /// A chosen index inside the catalog stands for the entry found there.
    /// No choice, or an index outside the catalog, stands for the first
    /// entry.
    pub open spec fn resolved_bin_category(self) -> BinCategory {
        match self.bin_index {
            Some(index) => if index < BIN_COUNT {
                spec_lookup(index as int)
            } else {
                spec_lookup(0)
            },
            None => spec_lookup(0),
        }
    }
}

/// The model of an optional machine index.
pub open spec fn index_model(bin_index: Option<usize>) -> Option<nat> {
    match bin_index {
        Some(index) => Some(index as nat),
        None => None,
    }
}

/// The currently chosen calendar date and bin-category index.
#[derive(Clone, Copy, Debug, PartialEq, Eq)]
pub struct SelectionState {
    selected_date: NaiveDate,
    selected_bin_index: Option<usize>,
}

impl View for SelectionState {
    type V = SelectionModel;

    closed spec fn view(&self) -> SelectionModel {
        SelectionModel {
            date: self.selected_date,
            bin_index: index_model(self.selected_bin_index),
        }
    }
}

impl SelectionState {
    /// Builds the selection of `date` and `bin_index`.
    pub fn new(date: NaiveDate, bin_index: Option<usize>) -> (selection: SelectionState)
        ensures
            selection@ == (SelectionModel { date, bin_index: index_model(bin_index) }),
    {
        SelectionState { selected_date: date, selected_bin_index: bin_index }
    }

    /// The chosen calendar date.
    pub fn current_date(&self) -> (date: NaiveDate)
        ensures
            date == self@.date,
    {
        self.selected_date
    }

    /// The chosen bin-category index, if one is chosen.
    pub fn current_bin_index(&self) -> (bin_index: Option<usize>)
        ensures
            index_model(bin_index) == self@.bin_index,
    {
        self.selected_bin_index
    }

    /// Whether the selection keeps its invariant.
    pub fn is_well_formed(&self) -> (ok: bool)
        ensures
            ok == self@.well_formed(),
    {
        match self.selected_bin_index {
            Some(index) => index < BIN_COUNT,
            None => true,
        }
    }

    /// Resolves the chosen index against the catalog.
    ///
    /// Never fails: with no index chosen, or with one that lies outside the
    /// catalog, the answer is the first catalog entry.
    pub fn resolved_bin_category(&self) -> (category: BinCategory)
        ensures
            category == self@.resolved_bin_category(),
            self@.bin_index is None ==> category == spec_lookup(0),
    {
        match self.selected_bin_index {
            Some(index) => if index < BIN_COUNT {
                lookup(index)
            } else {
                lookup(0)
            },
            None => lookup(0),
        }
    }

    /// The same selection with `date` chosen.
    pub(crate) fn with_date(self, date: NaiveDate) -> (selection: SelectionState)
        ensures
            selection@ == (SelectionModel { date, ..self@ }),
    {
        SelectionState { selected_date: date, selected_bin_index: self.selected_bin_index }
    }

    /// The same selection with the bin at `index` chosen.
    pub(crate) fn with_bin_index(self, index: usize) -> (selection: SelectionState)
        ensures
            selection@ == (SelectionModel { bin_index: Some(index as nat), ..self@ }),
    {
        SelectionState { selected_date: self.selected_date, selected_bin_index: Some(index) }
    }
}

/// With no bin chosen, a selection resolves to the first catalog entry.
pub proof fn lemma_unset_bin_resolves_to_first_entry(selection: SelectionModel)
    requires
        selection.bin_index is None,
    ensures
        selection.resolved_bin_category() == spec_lookup(0),
{
}

/// A well-formed selection with a bin chosen resolves to the catalog entry at
/// the chosen index.
pub proof fn lemma_chosen_bin_resolves_to_its_entry(selection: SelectionModel, index: nat)
    requires
        selection.well_formed(),
        selection.bin_index == Some(index),
    ensures
        selection.resolved_bin_category() == spec_lookup(index as int),
        selection.resolved_bin_category().spec_index() == index,
{
}

} // verus!
