//! Locating the working tree of a git repository that holds a given path.
//!
//! Paths are carried as UTF-8 text. The upward walk is a state machine whose
//! every decision is verified here; whoever drives it performs the filesystem
//! probes it asks for and hands back what each probe found.

mod locate;
mod paths;
mod repo;
mod walk;

pub use locate::{
    ancestor, ascend, marker_name, next, probe_target, probed, Phase, Search, SearchView, Step,
    StepView,
};
pub use paths::{joined, parent_of};
pub use repo::{at_keeps_path, GitError, Repo, RepoView};
pub use walk::{
    fails_without_marker, finds_nearest_marker, has_marker, marker_at_start, marker_file_skipped,
    missing_start_fails, probe_in, run,
};
