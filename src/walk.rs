use vstd::prelude::*;

use crate::locate::{ancestor, ascend, marker_name, next, probe_target, Phase, Search, SearchView, StepView};
use crate::paths::{joined, parent_of};

verus! {

/// What probing `p` finds on a filesystem that holds still: `fs` maps each
/// path that exists to whether it is a directory; a probe of any other path
/// fails.
pub open spec fn probe_in(fs: Map<Seq<char>, bool>, p: Seq<char>) -> Option<bool> {
    if fs.contains_key(p) {
        Some(fs[p])
    } else {
        None
    }
}

/// Whether `p` holds the marker, as a directory, on `fs`.
pub open spec fn has_marker(fs: Map<Seq<char>, bool>, p: Seq<char>) -> bool {
    probe_in(fs, joined(p, marker_name())) == Some(true)
}

/// Where a search stands after at most `fuel` probes on `fs`.
pub open spec fn run(fs: Map<Seq<char>, bool>, s: SearchView, fuel: nat) -> StepView
    decreases fuel,
{
    if fuel == 0 {
        StepView::Probe(s)
    } else {
        match next(s, probe_in(fs, probe_target(s))) {
            StepView::Probe(t) => run(fs, t, (fuel - 1) as nat),
            end => end,
        }
    }
}

/// The search paused on probing the `k`-th ancestor of `p` itself.
pub open spec fn at_level(p: Seq<char>, k: nat) -> SearchView {
    SearchView { cursor: ancestor(p, k), phase: Phase::Cursor }
}

proof fn found_from(fs: Map<Seq<char>, bool>, p: Seq<char>, n: nat, k: nat)
    requires
        k <= n,
        forall|j: nat| k <= j <= n ==> fs.contains_key(#[trigger] ancestor(p, j)),
        has_marker(fs, ancestor(p, n)),
        forall|j: nat| k <= j < n ==> !has_marker(fs, #[trigger] ancestor(p, j)),
        forall|j: nat| k < j <= n ==> parent_of(#[trigger] ancestor(p, j)) is Some,
    ensures
        run(fs, at_level(p, k), (2 * (n - k) + 2) as nat) == StepView::Found(ancestor(p, n)),
    decreases n - k,
{
    let s = at_level(p, k);
    let m = SearchView { cursor: ancestor(p, k), phase: Phase::Marker };
    let fuel = (2 * (n - k) + 2) as nat;
    assert(fs.contains_key(ancestor(p, k)));
    assert(next(s, probe_in(fs, probe_target(s))) == StepView::Probe(m));
    assert(run(fs, s, fuel) == run(fs, m, (fuel - 1) as nat));
    if k < n {
        assert(!has_marker(fs, ancestor(p, k)));
        assert(ancestor(p, k + 1) == ascend(ancestor(p, k)));
        assert(parent_of(ancestor(p, k + 1)) is Some);
        assert(next(m, probe_in(fs, probe_target(m))) == StepView::Probe(at_level(p, k + 1)));
        assert(run(fs, m, (fuel - 1) as nat) == run(fs, at_level(p, k + 1), (fuel - 2) as nat));
        found_from(fs, p, n, k + 1);
    } else {
        assert(next(m, probe_in(fs, probe_target(m))) == StepView::Found(ancestor(p, n)));
    }
}

/// A search from `p` ends at the nearest ancestor `ancestor(p, n)` that holds
/// the marker directory, where every ancestor up to it exists, and each one
/// the climb passes through on the way up has a parent in turn.
pub proof fn finds_nearest_marker(fs: Map<Seq<char>, bool>, p: Seq<char>, n: nat)
    requires
        forall|k: nat| k <= n ==> fs.contains_key(#[trigger] ancestor(p, k)),
        has_marker(fs, ancestor(p, n)),
        forall|k: nat| k < n ==> !has_marker(fs, #[trigger] ancestor(p, k)),
        forall|k: nat| 0 < k <= n ==> parent_of(#[trigger] ancestor(p, k)) is Some,
    ensures
        run(fs, Search::spec_start(p), (2 * n + 2) as nat) == StepView::Found(ancestor(p, n)),
{
    found_from(fs, p, n, 0);
}

/// A search from a path that exists and holds the marker directory ends at
/// that path, after its two probes there and no step up.
pub proof fn marker_at_start(fs: Map<Seq<char>, bool>, p: Seq<char>)
    requires
        fs.contains_key(p),
        has_marker(fs, p),
    ensures
        run(fs, Search::spec_start(p), 2) == StepView::Found(p),
{
    assert(ancestor(p, 0) == p);
    found_from(fs, p, 0, 0);
}

/// A search from a path that does not exist fails, on its first probe.
pub proof fn missing_start_fails(fs: Map<Seq<char>, bool>, p: Seq<char>, fuel: nat)
    requires
        !fs.contains_key(p),
        fuel > 0,
    ensures
        run(fs, Search::spec_start(p), fuel) == StepView::Failed,
{
}

proof fn fails_from(fs: Map<Seq<char>, bool>, p: Seq<char>, n: nat, k: nat)
    requires
        k <= n,
        forall|j: nat| k <= j <= n ==> !has_marker(fs, #[trigger] ancestor(p, j)),
        forall|j: nat| k <= j < n ==> parent_of(#[trigger] ancestor(p, j)) is Some,
        parent_of(ancestor(p, n)) is None,
    ensures
        run(fs, at_level(p, k), (2 * (n - k) + 2) as nat) == StepView::Failed,
    decreases n - k,
{
    let s = at_level(p, k);
    let m = SearchView { cursor: ancestor(p, k), phase: Phase::Marker };
    let fuel = (2 * (n - k) + 2) as nat;
    if fs.contains_key(ancestor(p, k)) {
        assert(run(fs, s, fuel) == run(fs, m, (fuel - 1) as nat));
        assert(!has_marker(fs, ancestor(p, k)));
        assert(ancestor(p, k + 1) == ascend(ancestor(p, k)));
        if k < n {
            assert(parent_of(ancestor(p, k)) is Some);
            if k + 1 < n {
                assert(parent_of(ancestor(p, k + 1)) is Some);
                assert(run(fs, m, (fuel - 1) as nat) == run(fs, at_level(p, k + 1), (fuel - 2) as nat));
                fails_from(fs, p, n, k + 1);
            } else {
                assert(next(m, probe_in(fs, probe_target(m))) == StepView::Failed);
            }
        } else {
            assert(ascend(ancestor(p, k)) == ancestor(p, k));
            assert(next(m, probe_in(fs, probe_target(m))) == StepView::Failed);
        }
    }
}

/// A search from `p` fails where no ancestor of `p`, up to and including the
/// first one that has no parent (the root, `ancestor(p, n)`), holds the
/// marker directory.
pub proof fn fails_without_marker(fs: Map<Seq<char>, bool>, p: Seq<char>, n: nat)
    requires
        forall|k: nat| k <= n ==> !has_marker(fs, #[trigger] ancestor(p, k)),
        forall|k: nat| k < n ==> parent_of(#[trigger] ancestor(p, k)) is Some,
        parent_of(ancestor(p, n)) is None,
    ensures
        run(fs, Search::spec_start(p), (2 * n + 2) as nat) == StepView::Failed,
{
    fails_from(fs, p, n, 0);
}

/// A marker under an existing path `p` that is not a directory does not end
/// the search there: it goes on to the parent `q`, and ends there where `q`
/// holds the marker directory.
pub proof fn marker_file_skipped(fs: Map<Seq<char>, bool>, p: Seq<char>, q: Seq<char>)
    requires
        fs.contains_key(p),
        probe_in(fs, joined(p, marker_name())) == Some(false),
        parent_of(p) == Some(q),
        parent_of(q) is Some,
        fs.contains_key(q),
        has_marker(fs, q),
    ensures
        run(fs, Search::spec_start(p), 2) == StepView::Probe(
            SearchView { cursor: q, phase: Phase::Cursor },
        ),
        run(fs, Search::spec_start(p), 4) == StepView::Found(q),
{
    assert(ancestor(p, 0) == p);
    assert(ancestor(p, 1) == q);
    found_from(fs, p, 1, 0);
    let m = SearchView { cursor: p, phase: Phase::Marker };
    assert(run(fs, Search::spec_start(p), 2) == run(fs, m, 1));
    assert(run(fs, m, 1) == run(fs, at_level(p, 1), 0));
}

} // verus!
