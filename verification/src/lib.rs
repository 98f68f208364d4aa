//! Verified core of an agent-session multiplexer: the sidebar model, session
//! ordering and filtering, key bindings and key handling, session chains,
//! token budgets, file-conflict warnings, activity statistics, the directory
//! browser, styled terminal output, the text the interface draws and the
//! text utilities it is built from.

pub mod text;
pub mod types;
pub mod nav;
pub mod keybinds;
pub mod ordering;
pub mod search;
pub mod sidebar;
pub mod chain;
pub mod budget;
pub mod display;
pub mod git;
pub mod url;
pub mod ansi;
pub mod conflicts;
pub mod stats;
pub mod browse;
pub mod input;
pub mod commands;
pub mod state;
pub mod screen;
pub mod find;
