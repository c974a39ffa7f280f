//! Watches a source tree and reruns a command when a relevant file changes.
//!
//! The crate holds the decisions of the two cooperating parts: the watch
//! engine, which turns raw filesystem notifications into change events, and
//! the run supervisor, which turns change events into command launches. Both
//! are written as transition functions from a state and an observation to the
//! next state and the action to perform; the caller performs the action and
//! reports what came of it.

pub mod git;
pub mod run;
pub mod run_laws;
pub mod set;
pub mod target;
pub mod watch;
pub mod watch_laws;

pub use git::{discover_watches, untracked_entry, watch_file, DiscoverError, Probe};
pub use run::{
    flush, process_change_cycle, run_on_change, RunAction, RunError, RunEvent, RunPhase, Supervisor,
};
pub use set::WatchSet;
pub use target::{EventKind, Target, Watch, WatcherEvent};
pub use watch::{watch, wrapped_watch, EngineAction, EngineEvent, EnginePhase, WatchEngine};
