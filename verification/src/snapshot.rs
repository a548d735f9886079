//! The read-only picture of the state that is handed to the renderer.

use crate::catalog::BinCategory;
use crate::mode::Mode;
use chrono::NaiveDate;
use vstd::prelude::*;

verus! {

/// An immutable copy of what a renderer needs for one frame: the mode, the
/// chosen date, and the bin category the chosen index resolves to.
#[derive(Clone, Copy, Debug, PartialEq, Eq)]
pub struct Snapshot {
    pub mode: Mode,
    pub date: NaiveDate,
    pub bin_category: BinCategory,
}

} // verus!
