//! An editor core for JSON documents: the value and document model, path-based
//! navigation and mutation, and the control state machine of an editing session.

pub mod actions;
pub mod app;
pub mod control;
pub mod document;
pub mod navigator;
pub mod number;
pub mod text;
pub mod value;
