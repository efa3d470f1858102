//! Decisions of an interactive two-pose path editor, verified.
pub mod editor;
