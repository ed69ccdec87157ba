//! Interactive staging helper: turns a repository's change records into a
//! selectable list and works out which paths to stage or unstage so that the
//! index matches the user's choice.

pub mod reconcile;
pub mod resolve;
pub mod status;

pub use reconcile::{mark_selected, prompt_defaults, prompt_labels, reconcile, Action, LogLabel, Reconciliation};
pub use resolve::{resolve_paths, DiffPaths, PathItems, StatusRecord};
pub use status::StatusFlags;
