//! Paths as a base directory followed by the components joined onto it.
//!
//! The library decides which components are joined, and in which order;
//! the host's `Path::join` turns a `LoomPath` into a real path.
use vstd::prelude::*;

verus! {

/// A path built as `base` joined, in order, with each of `parts`.
#[derive(Debug, Clone, PartialEq, Eq)]
pub struct LoomPath {
    pub base: String,
    pub parts: Vec<String>,
}

/// The mathematical value of a `LoomPath`.
pub struct PathView {
    pub base: Seq<char>,
    pub parts: Seq<Seq<char>>,
}

impl PathView {
    /// The path with one more component joined at its end.
    pub open spec fn join(self, part: Seq<char>) -> PathView {
        PathView { base: self.base, parts: self.parts.push(part) }
    }

    /// The path `base` with no components joined to it.
    pub open spec fn at(base: Seq<char>) -> PathView {
        PathView { base, parts: Seq::empty() }
    }
}

impl View for LoomPath {
    type V = PathView;

    open spec fn view(&self) -> PathView {
        PathView { base: self.base@, parts: self.parts.deep_view() }
    }
}

impl LoomPath {
    /// The path `base` itself.
    pub fn at(base: &str) -> (r: LoomPath)
        ensures
            r@ == PathView::at(base@),
    {
        let r = LoomPath { base: String::from_str(base), parts: Vec::new() };
        assert(r@.parts =~= Seq::<Seq<char>>::empty());
        r
    }

    /// A copy of this path.
    pub fn copy(&self) -> (r: LoomPath)
        ensures
            r@ == self@,
    {
        let mut parts: Vec<String> = Vec::new();
        let mut i: usize = 0;
        while i < self.parts.len()
            invariant
                i <= self.parts@.len(),
                parts@.len() == i,
                forall|j: int| 0 <= j < i ==> #[trigger] parts@[j]@ == self.parts@[j]@,
            decreases self.parts@.len() - i,
        {
            parts.push(self.parts[i].clone());
            i = i + 1;
        }
        let r = LoomPath { base: self.base.clone(), parts };
        assert(r@.parts =~= self@.parts);
        r
    }

    /// This path with `part` joined at its end.
    pub fn join(&self, part: &str) -> (r: LoomPath)
        ensures
            r@ == self@.join(part@),
    {
        let mut parts: Vec<String> = Vec::new();
        let mut i: usize = 0;
        while i < self.parts.len()
            invariant
                i <= self.parts@.len(),
                parts@.len() == i,
                forall|j: int| 0 <= j < i ==> #[trigger] parts@[j]@ == self.parts@[j]@,
            decreases self.parts@.len() - i,
        {
            parts.push(self.parts[i].clone());
            i = i + 1;
        }
        parts.push(String::from_str(part));
        let r = LoomPath { base: self.base.clone(), parts };
        assert(r@.parts =~= self@.parts.push(part@)) by {
            assert forall|j: int| 0 <= j < r@.parts.len() implies r@.parts[j] == self@.parts.push(
                part@,
            )[j] by {
                if j < self.parts@.len() {
                    assert(r.parts@[j]@ == self.parts@[j]@);
                }
            }
        }
        r
    }
}

} // verus!
