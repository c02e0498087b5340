//! Locations of the backend executable.
//!
//! A location is kept as a base directory and the named segments below it,
//! so that nothing here depends on how a platform writes its paths. The
//! embedding program joins the segments onto the base directory when it
//! touches the file system.

use vstd::prelude::*;

verus! {

/// A location as a mathematical value: the text of the base directory and
/// the texts of the segments below it, outermost first.
pub ghost struct PathView {
    pub base_dir: Seq<char>,
    pub segments: Seq<Seq<char>>,
}

impl PathView {
    /// The location one segment further down.
    pub open spec fn join(self, segment: Seq<char>) -> PathView {
        PathView { base_dir: self.base_dir, segments: self.segments.push(segment) }
    }

    /// The directory that contains this location, or `None` for the base
    /// directory itself.
    pub open spec fn parent(self) -> Option<PathView> {
        if self.segments.len() == 0 {
            None
        } else {
            Some(PathView { base_dir: self.base_dir, segments: self.segments.drop_last() })
        }
    }
}

/// A location below a base directory.
#[derive(Debug, PartialEq, Eq)]
pub struct BackendPath {
    /// The directory that the segments are relative to.
    pub base_dir: String,
    /// The names to descend through, outermost first; the last one names the
    /// file or directory itself.
    pub segments: Vec<String>,
}

impl View for BackendPath {
    type V = PathView;

    open spec fn view(&self) -> PathView {
        PathView { base_dir: self.base_dir@, segments: self.segments.deep_view() }
    }
}

impl DeepView for BackendPath {
    type V = PathView;

    open spec fn deep_view(&self) -> PathView {
        self.view()
    }
}

/// Copies the first `count` texts of `texts`.
fn copy_prefix(texts: &Vec<String>, count: usize) -> (copy: Vec<String>)
    requires
        count <= texts.len(),
    ensures
        copy.deep_view() == texts.deep_view().take(count as int),
{
    let mut copy: Vec<String> = Vec::new();
    let mut i: usize = 0;
    while i < count
        invariant
            i <= count <= texts.len(),
            copy.len() == i,
            forall|j: int| 0 <= j < i ==> copy[j]@ == texts[j]@,
        decreases count - i,
    {
        copy.push(texts[i].clone());
        i += 1;
    }
    assert(copy.deep_view() =~= texts.deep_view().take(count as int));
    copy
}

impl Clone for BackendPath {
    fn clone(&self) -> (copy: Self)
        ensures
            copy@ == self@,
    {
        let segments = copy_prefix(&self.segments, self.segments.len());
        assert(self.segments.deep_view().take(self.segments.len() as int)
            =~= self.segments.deep_view());
        BackendPath { base_dir: self.base_dir.clone(), segments }
    }
}

impl BackendPath {
    /// The base directory itself.
    pub fn new(base_dir: &str) -> (path: Self)
        ensures
            path@ == (PathView { base_dir: base_dir@, segments: Seq::empty() }),
    {
        let path = BackendPath { base_dir: base_dir.to_owned(), segments: Vec::new() };
        assert(path.segments.deep_view() =~= Seq::<Seq<char>>::empty());
        path
    }

    /// The location one segment further down.
    pub fn join(self, segment: &str) -> (path: Self)
        ensures
            path@ == self@.join(segment@),
    {
        let mut path = self;
        path.segments.push(segment.to_owned());
        assert(path.segments.deep_view() =~= self.segments.deep_view().push(segment@));
        path
    }

    /// The directory that contains this location: the working directory for
    /// an executable found here. `None` for the base directory itself.
    pub fn parent(&self) -> (dir: Option<BackendPath>)
        ensures
            dir.deep_view() == self@.parent(),
    {
        if self.segments.len() == 0 {
            return None;
        }
        let segments = copy_prefix(&self.segments, self.segments.len() - 1);
        assert(self.segments.deep_view().take(self.segments.len() - 1)
            =~= self.segments.deep_view().drop_last());
        Some(BackendPath { base_dir: self.base_dir.clone(), segments })
    }
}

} // verus!
