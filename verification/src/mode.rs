//! The two postures of the interface.

use vstd::prelude::*;

verus! {

/// Which surface of the widget is active.
///
/// `Browsing` is the read-only posture the widget starts in; `Editing` is the
/// posture in which the bin picker and the calendar are offered.
#[derive(Clone, Copy, Debug, PartialEq, Eq, Structural, Hash)]
pub enum Mode {
    Browsing,
    Editing,
}

impl Mode {
    /// The mode a freshly started widget is in.
    pub open spec fn initial() -> Mode {
        Mode::Browsing
    }
}

impl Default for Mode {
    fn default() -> (mode: Mode)
        ensures
            mode == Mode::initial(),
    {
        Mode::Browsing
    }
}

} // verus!
