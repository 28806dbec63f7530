//! A desktop host shell: a registry of named commands with their dispatch, a
//! builder that assembles capabilities under a build mode, and the debug-only
//! hotkey toggle for the developer panel.

pub mod builder;
pub mod commands;
pub mod toggle;
