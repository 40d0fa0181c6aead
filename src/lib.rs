use vstd::prelude::*;

pub mod error;
pub mod options;
pub mod pattern;
pub mod scheduler;
pub mod status;

pub use error::{app_error, invalid_directory, AppError};
pub use options::CmdOption;
pub use pattern::{PatternMatcher, MAX_ALTERNATES, MAX_PATTERN_LEN};
pub use scheduler::{Action, Scheduler, DEFAULT_DEBOUNCE_MS, POLL_INTERVAL_MS};
pub use status::ChangeStatus;

verus! {

} // verus!
