use vstd::prelude::*;

use crate::paths::{join, joined, parent, parent_of};
use crate::repo::{not_found, GitError, Repo};

verus! {

/// The name of the directory that marks the root of a working tree.
pub open spec fn marker_name() -> Seq<char> {
    seq!['.', 'g', 'i', 't']
}

/// One step up from `p`: its parent, or `p` itself where it has none.
pub open spec fn ascend(p: Seq<char>) -> Seq<char> {
    match parent_of(p) {
        Some(q) => q,
        None => p,
    }
}

/// The `n`-th ancestor of `p`, counting `p` itself as the 0-th.
pub open spec fn ancestor(p: Seq<char>, n: nat) -> Seq<char>
    decreases n,
{
    if n == 0 {
        p
    } else {
        ascend(ancestor(p, (n - 1) as nat))
    }
}

/// Which probe the search waits for at its cursor.
#[derive(Clone, Copy, Debug, PartialEq, Eq, Structural)]
pub enum Phase {
    /// Whether the cursor itself exists.
    Cursor,
    /// Whether the marker under the cursor is a directory.
    Marker,
}

/// A search for the nearest ancestor of a path that holds the marker
/// directory, paused on a filesystem probe.
pub struct Search {
    cursor: String,
    phase: Phase,
}

/// What a search holds: its cursor, and which probe it waits for.
pub struct SearchView {
    pub cursor: Seq<char>,
    pub phase: Phase,
}

impl View for Search {
    type V = SearchView;

    closed spec fn view(&self) -> SearchView {
        SearchView { cursor: self.cursor@, phase: self.phase }
    }
}

/// Where one step of a search leads: to a further probe, or to its end.
pub enum Step {
    Probe(Search),
    Done(Result<Repo, GitError>),
}

/// A step as the model sees it.
pub enum StepView {
    Probe(SearchView),
    Found(Seq<char>),
    Failed,
}

impl View for Step {
    type V = StepView;

    open spec fn view(&self) -> StepView {
        match self {
            Step::Probe(s) => StepView::Probe(s@),
            Step::Done(Ok(repo)) => StepView::Found(repo@.workdir),
            Step::Done(Err(_)) => StepView::Failed,
        }
    }
}

/// The path that a search probes next.
pub open spec fn probe_target(s: SearchView) -> Seq<char> {
    match s.phase {
        Phase::Cursor => s.cursor,
        Phase::Marker => joined(s.cursor, marker_name()),
    }
}

/// What a probe found: `None` where it failed, else whether the path is a
/// directory.
pub open spec fn probed(probe: Result<bool, std::io::Error>) -> Option<bool> {
    match probe {
        Ok(is_dir) => Some(is_dir),
        Err(_) => None,
    }
}

/// The step that a search takes on what its probe found.
///
/// A cursor that cannot be probed ends the search. A marker that is a
/// directory ends it with the cursor. Otherwise the cursor moves to its
/// parent, and the search ends once that has no parent itself.
pub open spec fn next(s: SearchView, found: Option<bool>) -> StepView {
    match s.phase {
        Phase::Cursor => match found {
            Some(_) => StepView::Probe(SearchView { cursor: s.cursor, phase: Phase::Marker }),
            None => StepView::Failed,
        },
        Phase::Marker => if found == Some(true) {
            StepView::Found(s.cursor)
        } else if parent_of(ascend(s.cursor)) is Some {
            StepView::Probe(SearchView { cursor: ascend(s.cursor), phase: Phase::Cursor })
        } else {
            StepView::Failed
        },
    }
}

impl Search {
    /// The search that starts at `p`.
    pub open spec fn spec_start(p: Seq<char>) -> SearchView {
        SearchView { cursor: p, phase: Phase::Cursor }
    }

    /// Starts a search at `path`, by probing `path` itself.
    pub fn start(path: &str) -> (r: Search)
        ensures
            r@ == Search::spec_start(path@),
    {
        Search { cursor: path.to_string(), phase: Phase::Cursor }
    }

    /// The path whose metadata the search needs next.
    pub fn probe_path(&self) -> (r: String)
        ensures
            r@ == probe_target(self@),
    {
        match self.phase {
            Phase::Cursor => self.cursor.clone(),
            Phase::Marker => {
                let name = ".git";
                proof {
                    reveal_strlit(".git");
                    assert(name@ =~= marker_name());
                }
                join(self.cursor.as_str(), name)
            },
        }
    }

    /// Takes one step on the outcome of probing `probe_path()`: `Ok` with
    /// whether the path is a directory, or the error met.
    ///
    /// A failure to probe the cursor is handed on as the search's error.
    pub fn advance(self, probe: Result<bool, std::io::Error>) -> (r: Step)
        ensures
            r@ == next(self@, probed(probe)),
            self@.phase == Phase::Cursor && probe is Err ==> r == Step::Done(
                Err(GitError::IoError(probe->Err_0)),
            ),
    {
        match self.phase {
            Phase::Cursor => match probe {
                Ok(_) => Step::Probe(Search { cursor: self.cursor, phase: Phase::Marker }),
                Err(e) => Step::Done(Err(GitError::from(e))),
            },
            Phase::Marker => {
                let is_dir = match probe {
                    Ok(d) => d,
                    Err(_) => false,
                };
                if is_dir {
                    return Step::Done(Ok(Repo::from_string(self.cursor)));
                }
                let up = match parent(self.cursor.as_str()) {
                    Some(q) => q,
                    None => self.cursor,
                };
                match parent(up.as_str()) {
                    Some(_) => Step::Probe(Search { cursor: up, phase: Phase::Cursor }),
                    None => Step::Done(
                        Err(GitError::IoError(not_found("no .git directory was found in any parent"))),
                    ),
                }
            },
        }
    }
}

} // verus!
