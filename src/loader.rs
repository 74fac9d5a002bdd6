use vstd::prelude::*;

verus! {

/// What the module loader does next while it walks the search paths.
#[derive(Debug, Clone, Copy, PartialEq, Eq, Structural)]
pub enum SearchStep {
    /// Check whether the module file exists under the search path at this index.
    Probe(usize),
    /// Load the module file found under the search path at this index, and
    /// report its outcome whatever it is.
    Load(usize),
    /// No search path holds the module.
    NotFound,
}

/// The first step of a search over `n` paths.
pub open spec fn start_spec(n: nat) -> SearchStep {
    if n == 0 {
        SearchStep::NotFound
    } else {
        SearchStep::Probe(0)
    }
}

/// The step after probing the path at `idx`, of `n`, and finding the file
/// there (`found`) or not.
pub open spec fn step_spec(n: nat, idx: nat, found: bool) -> SearchStep {
    if found {
        SearchStep::Load(idx as usize)
    } else if idx + 1 < n {
        SearchStep::Probe((idx + 1) as usize)
    } else {
        SearchStep::NotFound
    }
}

/// Where a search ends that probes from `idx` on, when `found[i]` tells
/// whether the file exists under the path at `i`.
pub open spec fn run_from(found: Seq<bool>, idx: nat) -> SearchStep
    decreases found.len() - idx,
{
    if idx >= found.len() || idx >= usize::MAX {
        SearchStep::NotFound
    } else if found[idx as int] {
        step_spec(found.len(), idx, true)
    } else if idx + 1 < found.len() {
        run_from(found, idx + 1)
    } else {
        step_spec(found.len(), idx, false)
    }
}

/// Where a whole search ends.
pub open spec fn search_outcome(found: Seq<bool>) -> SearchStep {
    match start_spec(found.len()) {
        SearchStep::Probe(i) => run_from(found, i as nat),
        other => other,
    }
}

/// Starts a search over `n_paths` search paths.
pub fn search_start(n_paths: usize) -> (r: SearchStep)
    ensures
        r == start_spec(n_paths as nat),
{
    if n_paths == 0 {
        SearchStep::NotFound
    } else {
        SearchStep::Probe(0)
    }
}

/// Decides what follows a probe of the path at `idx`: a path that holds the
/// file is loaded at once, and later paths are never looked at.
pub fn search_step(n_paths: usize, idx: usize, found: bool) -> (r: SearchStep)
    requires
        idx < n_paths,
    ensures
        r == step_spec(n_paths as nat, idx as nat, found),
{
    if found {
        SearchStep::Load(idx)
    } else if idx + 1 < n_paths {
        SearchStep::Probe(idx + 1)
    } else {
        SearchStep::NotFound
    }
}

proof fn lemma_run_from(found: Seq<bool>, idx: nat, i: int)
    requires
        idx <= i < found.len() <= usize::MAX,
        found[i],
        forall|j: int| idx <= j < i ==> !found[j],
    ensures
        run_from(found, idx) == SearchStep::Load(i as usize),
    decreases i - idx,
{
    if idx < i {
        lemma_run_from(found, idx + 1, i);
    }
}

proof fn lemma_run_from_none(found: Seq<bool>, idx: nat)
    requires
        found.len() <= usize::MAX,
        forall|j: int| idx <= j < found.len() ==> !found[j],
    ensures
        run_from(found, idx) == SearchStep::NotFound,
    decreases found.len() - idx,
{
    if idx + 1 < found.len() {
        lemma_run_from_none(found, idx + 1);
    }
}

/// The first search path that holds the module is the one loaded, and the
/// paths after it play no part: any list of paths that agrees up to it
/// leads to the same load.
pub proof fn law_first_existing_path_wins(found: Seq<bool>, i: int)
    requires
        0 <= i < found.len() <= usize::MAX,
        found[i],
        forall|j: int| 0 <= j < i ==> !found[j],
    ensures
        search_outcome(found) == SearchStep::Load(i as usize),
        forall|other: Seq<bool>|
            other.len() == found.len() && #[trigger] other.subrange(0, i + 1) == found.subrange(0, i + 1)
            ==> search_outcome(other) == SearchStep::Load(i as usize),
{
    lemma_run_from(found, 0, i);
    assert forall|other: Seq<bool>|
        other.len() == found.len() && #[trigger] other.subrange(0, i + 1) == found.subrange(0, i + 1)
        implies search_outcome(other) == SearchStep::Load(i as usize) by {
        assert forall|j: int| 0 <= j <= i implies other[j] == found[j] by {
            assert(other[j] == other.subrange(0, i + 1)[j]);
        }
        lemma_run_from(other, 0, i);
    }
}

/// Where no search path holds the module, the search ends in `NotFound`;
/// with no search paths at all it ends there at once.
pub proof fn law_missing_module_not_found(found: Seq<bool>)
    requires
        found.len() <= usize::MAX,
        forall|j: int| 0 <= j < found.len() ==> !found[j],
    ensures
        search_outcome(found) == SearchStep::NotFound,
        found.len() == 0 ==> start_spec(0) == SearchStep::NotFound,
{
    if found.len() > 0 {
        lemma_run_from_none(found, 0);
    }
}

} // verus!
