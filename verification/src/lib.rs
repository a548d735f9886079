//! Interaction core of a household waste-collection reminder widget.
//!
//! The crate holds the part of the widget that decides things: which of the
//! two modes the interface is in, which calendar date and which bin category
//! are selected, and how each inbound command changes that state. Drawing,
//! windowing and asset loading are left to the host.

pub mod catalog;
pub mod command;
pub mod controller;
pub mod date;
pub mod mode;
pub mod reminder;
pub mod selection;
pub mod snapshot;
pub mod transition;
