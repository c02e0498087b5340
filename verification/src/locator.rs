//! Finding the backend executable among the places where a build may have
//! put it.
//!
//! Each build mode has its own ordered list of candidate locations below a
//! base directory: the working directory in development, the application's
//! resource directory once packaged. The embedding program reports, for each
//! candidate in order, whether it exists on disk; the first one that does is
//! the backend.

use vstd::prelude::*;
use crate::paths::BackendPath;
use crate::paths::PathView;

verus! {

/// How the shell was built, which decides where the backend is looked for.
#[derive(Clone, Copy, Debug, PartialEq, Eq, Structural)]
pub enum BuildMode {
    /// Run from the source tree; the base directory is the working directory.
    Development,
    /// Installed; the base directory is the application's resource directory.
    Packaged,
}

/// The layouts tried in development, as segments below the working
/// directory, in the order in which they are tried.
pub open spec fn development_layouts() -> Seq<Seq<Seq<char>>> {
    seq![
        seq!["backend"@, "dist"@, "api-server"@, "api-server.exe"@],
        seq!["backend"@, "dist"@, "api-server.exe"@],
        seq!["src-tauri"@, "binaries"@, "api-server"@, "api-server.exe"@],
        seq!["src-tauri"@, "binaries"@, "api-server.exe"@],
    ]
}

/// The layouts tried in a packaged build, as segments below the resource
/// directory, in the order in which they are tried.
pub open spec fn packaged_layouts() -> Seq<Seq<Seq<char>>> {
    seq![
        seq!["binaries"@, "api-server"@, "api-server.exe"@],
        seq!["binaries"@, "api-server.exe"@],
        seq!["api-server"@, "api-server.exe"@],
        seq!["api-server.exe"@],
    ]
}

/// The layouts of a build mode.
pub open spec fn layouts(mode: BuildMode) -> Seq<Seq<Seq<char>>> {
    match mode {
        BuildMode::Development => development_layouts(),
        BuildMode::Packaged => packaged_layouts(),
    }
}

/// The candidate locations of a build mode below `base_dir`, in order.
pub open spec fn candidate_views(mode: BuildMode, base_dir: Seq<char>) -> Seq<PathView> {
    Seq::new(
        layouts(mode).len(),
        |i: int| PathView { base_dir: base_dir, segments: layouts(mode)[i] },
    )
}

/// Whether candidate `index` was reported to exist. A candidate for which
/// there is no report counts as absent.
pub open spec fn reported_present(exists: Seq<bool>, index: int) -> bool {
    0 <= index < exists.len() && exists[index]
}

/// Whether `index` is the first candidate that was reported to exist.
pub open spec fn is_first_present(exists: Seq<bool>, index: int) -> bool {
    &&& reported_present(exists, index)
    &&& forall|earlier: int| 0 <= earlier < index ==> !reported_present(exists, earlier)
}

/// The first candidate at or after `from` and before `limit` that was
/// reported to exist.
pub open spec fn first_present_from(exists: Seq<bool>, from: int, limit: int) -> Option<int>
    decreases limit - from,
{
    if from >= limit {
        None
    } else if reported_present(exists, from) {
        Some(from)
    } else {
        first_present_from(exists, from + 1, limit)
    }
}

/// What a search finds: the first of `candidates` that was reported to
/// exist, or else the whole list.
pub open spec fn search(candidates: Seq<PathView>, exists: Seq<bool>) -> Result<
    PathView,
    Seq<PathView>,
> {
    match first_present_from(exists, 0, candidates.len() as int) {
        Some(index) => Ok(candidates[index]),
        None => Err(candidates),
    }
}

/// No candidate exists. Carries every location that was tried, in the order
/// in which it was tried.
#[derive(Debug, PartialEq, Eq)]
pub struct NotFound {
    pub candidates: Vec<BackendPath>,
}

impl View for NotFound {
    type V = Seq<PathView>;

    open spec fn view(&self) -> Seq<PathView> {
        self.candidates.deep_view()
    }
}

impl DeepView for NotFound {
    type V = Seq<PathView>;

    open spec fn deep_view(&self) -> Seq<PathView> {
        self.view()
    }
}

/// `first_present_from` finds the first reported candidate in its range,
/// and finds none exactly if none in the range was reported.
pub proof fn lemma_first_present_from(exists: Seq<bool>, from: int, limit: int)
    requires
        0 <= from,
    ensures
        match first_present_from(exists, from, limit) {
            Some(index) => {
                &&& from <= index < limit
                &&& reported_present(exists, index)
                &&& forall|earlier: int|
                    from <= earlier < index ==> !reported_present(exists, earlier)
            },
            None => forall|any: int| from <= any < limit ==> !reported_present(exists, any),
        },
    decreases limit - from,
{
    if from < limit && !reported_present(exists, from) {
        lemma_first_present_from(exists, from + 1, limit);
    }
}

/// Whatever the order of the candidates and whatever was reported, the
/// search returns the first candidate in list order that was reported to
/// exist, and fails exactly if none was.
pub proof fn lemma_search_returns_first_existing(candidates: Seq<PathView>, exists: Seq<bool>)
    ensures
        search(candidates, exists) is Ok <==> exists|index: int|
            0 <= index < candidates.len() && reported_present(exists, index),
        search(candidates, exists) is Ok ==> exists|index: int|
            0 <= index < candidates.len() && is_first_present(exists, index) && search(
                candidates,
                exists,
            ) == Ok::<PathView, Seq<PathView>>(candidates[index]),
        search(candidates, exists) is Err ==> search(candidates, exists) == Err::<
            PathView,
            Seq<PathView>,
        >(candidates),
        forall|index: int|
            0 <= index < candidates.len() && is_first_present(exists, index) ==> search(
                candidates,
                exists,
            ) == Ok::<PathView, Seq<PathView>>(candidates[index]),
{
    lemma_first_present_from(exists, 0, candidates.len() as int);
    match first_present_from(exists, 0, candidates.len() as int) {
        Some(found) => {
            assert(is_first_present(exists, found));
            assert forall|index: int|
                0 <= index < candidates.len() && is_first_present(exists, index) implies index
                == found by {
                if index < found {
                    assert(!reported_present(exists, index));
                } else if found < index {
                    assert(!reported_present(exists, found));
                }
            }
        },
        None => {},
    }
}

/// The candidate locations of `mode` below `base_dir`, in the order in
/// which they are tried.
pub fn candidate_paths(mode: BuildMode, base_dir: &str) -> (candidates: Vec<BackendPath>)
    ensures
        candidates.deep_view() == candidate_views(mode, base_dir@),
{
    let mut candidates: Vec<BackendPath> = Vec::new();
    match mode {
        BuildMode::Development => {
            candidates.push(
                BackendPath::new(base_dir).join("backend").join("dist").join("api-server").join(
                    "api-server.exe",
                ),
            );
            candidates.push(
                BackendPath::new(base_dir).join("backend").join("dist").join("api-server.exe"),
            );
            candidates.push(
                BackendPath::new(base_dir).join("src-tauri").join("binaries").join(
                    "api-server",
                ).join("api-server.exe"),
            );
            candidates.push(
                BackendPath::new(base_dir).join("src-tauri").join("binaries").join(
                    "api-server.exe",
                ),
            );
        },
        BuildMode::Packaged => {
            candidates.push(
                BackendPath::new(base_dir).join("binaries").join("api-server").join(
                    "api-server.exe",
                ),
            );
            candidates.push(BackendPath::new(base_dir).join("binaries").join("api-server.exe"));
            candidates.push(BackendPath::new(base_dir).join("api-server").join("api-server.exe"));
            candidates.push(BackendPath::new(base_dir).join("api-server.exe"));
        },
    }
    proof {
        let expected = candidate_views(mode, base_dir@);
        assert(candidates.deep_view().len() == expected.len());
        assert forall|i: int| 0 <= i < expected.len() implies candidates.deep_view()[i]
            == expected[i] by {
            assert(candidates.deep_view()[i].segments =~= expected[i].segments);
        }
        assert(candidates.deep_view() =~= expected);
    }
    candidates
}

/// Picks the backend among `candidates`: the first one, in list order, that
/// was reported to exist. `exists[i]` is the report for `candidates[i]`; a
/// candidate without a report counts as absent. If none exists the whole list
/// comes back in `NotFound`.
pub fn first_existing(candidates: Vec<BackendPath>, exists: &Vec<bool>) -> (found: Result<
    BackendPath,
    NotFound,
>)
    ensures
        found is Ok <==> exists|index: int|
            0 <= index < candidates.len() && reported_present(exists@, index),
        found is Ok ==> exists|index: int|
            0 <= index < candidates.len() && is_first_present(exists@, index) && found->Ok_0@
                == candidates[index]@,
        found is Err ==> found->Err_0@ == candidates.deep_view(),
        match found {
            Ok(path) => search(candidates.deep_view(), exists@) == Ok::<PathView, Seq<PathView>>(
                path@,
            ),
            Err(not_found) => search(candidates.deep_view(), exists@) == Err::<
                PathView,
                Seq<PathView>,
            >(not_found@),
        },
{
    let mut candidates = candidates;
    let ghost all = candidates;
    let mut index: usize = 0;
    while index < candidates.len() && !(index < exists.len() && exists[index])
        invariant
            index <= candidates.len(),
            candidates == all,
            first_present_from(exists@, 0, all.len() as int) == first_present_from(
                exists@,
                index as int,
                all.len() as int,
            ),
        decreases candidates.len() - index,
    {
        index += 1;
    }
    proof {
        lemma_first_present_from(exists@, 0, all.len() as int);
        lemma_search_returns_first_existing(all.deep_view(), exists@);
    }
    if index < candidates.len() {
        assert(reported_present(exists@, index as int));
        assert(is_first_present(exists@, index as int));
        Ok(candidates.swap_remove(index))
    } else {
        Err(NotFound { candidates })
    }
}

/// Locates the backend for `mode` below `base_dir`: the first candidate
/// location of that mode, in order, that was reported to exist. `exists[i]`
/// is the report for the `i`-th of [`candidate_paths`].
pub fn locate(mode: BuildMode, base_dir: &str, exists: &Vec<bool>) -> (found: Result<
    BackendPath,
    NotFound,
>)
    ensures
        found is Ok <==> exists|index: int|
            0 <= index < layouts(mode).len() && reported_present(exists@, index),
        found is Ok ==> exists|index: int|
            0 <= index < layouts(mode).len() && is_first_present(exists@, index) && found->Ok_0@
                == candidate_views(mode, base_dir@)[index],
        found is Err ==> found->Err_0@ == candidate_views(mode, base_dir@),
        match found {
            Ok(path) => search(candidate_views(mode, base_dir@), exists@) == Ok::<
                PathView,
                Seq<PathView>,
            >(path@),
            Err(not_found) => search(candidate_views(mode, base_dir@), exists@) == Err::<
                PathView,
                Seq<PathView>,
            >(not_found@),
        },
{
    let candidates = candidate_paths(mode, base_dir);
    first_existing(candidates, exists)
}

} // verus!
