//! Core of a minimal interactive file-system browser: sorted directory
//! listings, whole-file text loads, and the navigation state machine that
//! schedules those reads and applies their results.

pub mod entry;
pub mod lister;
pub mod order;
pub mod state;
