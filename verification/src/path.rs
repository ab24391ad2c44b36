//! Filesystem paths as plain values: a base directory and the names joined
//! onto it, in order. A path is turned into a native path by joining each
//! name onto the base, which is what `Path::join` does for relative names.

use vstd::prelude::*;

verus! {

/// The mathematical value of a path: its base text and the joined names.
pub struct PathView {
    pub base: Seq<char>,
    pub parts: Seq<Seq<char>>,
}

impl PathView {
    /// This path with `name` joined onto it.
    pub open spec fn join(self, name: Seq<char>) -> PathView {
        PathView { base: self.base, parts: self.parts.push(name) }
    }

    /// The path `base` with no name joined yet.
    pub open spec fn root(base: Seq<char>) -> PathView {
        PathView { base, parts: seq![] }
    }
}

/// The operating system whose conventions a decision follows.
#[derive(Clone, Copy, Debug, PartialEq, Eq, Structural)]
pub enum TargetOs {
    Windows,
    MacOs,
    Linux,
}

/// A filesystem path: a base directory and the names joined onto it.
pub struct AppPath {
    pub base: String,
    pub parts: Vec<String>,
}

/// The texts of a sequence of strings.
pub open spec fn texts(v: Seq<String>) -> Seq<Seq<char>> {
    v.map_values(|s: String| s@)
}

impl View for AppPath {
    type V = PathView;

    open spec fn view(&self) -> PathView {
        PathView { base: self.base@, parts: texts(self.parts@) }
    }
}

impl AppPath {
    /// The path made of `base` alone.
    pub fn new(base: &str) -> (r: AppPath)
        ensures
            r@ == PathView::root(base@),
    {
        let p = AppPath { base: base.to_string(), parts: Vec::new() };
        assert(texts(p.parts@) =~= Seq::<Seq<char>>::empty());
        p
    }

    /// A copy of this path.
    pub fn duplicate(&self) -> (r: AppPath)
        ensures
            r@ == self@,
    {
        let mut parts: Vec<String> = Vec::new();
        let mut i: usize = 0;
        while i < self.parts.len()
            invariant
                i <= self.parts.len(),
                texts(parts@) == texts(self.parts@).take(i as int),
            decreases self.parts.len() - i,
        {
            let c = self.parts[i].clone();
            let ghost before = parts@;
            parts.push(c);
            assert(parts@ == before.push(c));
            assert(texts(parts@) =~= texts(before).push(c@));
            assert(texts(parts@) =~= texts(self.parts@).take(i + 1));
            i = i + 1;
        }
        assert(texts(self.parts@).take(self.parts.len() as int) =~= texts(self.parts@));
        AppPath { base: self.base.clone(), parts }
    }

    /// This path with `name` joined onto it (`Path::join`).
    pub fn join(&self, name: &str) -> (r: AppPath)
        ensures
            r@ == self@.join(name@),
    {
        let mut p = self.duplicate();
        p.parts.push(name.to_string());
        assert(texts(p.parts@) =~= texts(self.parts@).push(name@));
        p
    }
}

/// The index of the first of `candidates` that `present` accepts, trying them in
/// order and stopping at the first hit; `None` when it refuses each of them.
pub fn first_existing<F: Fn(&AppPath) -> bool>(candidates: &Vec<AppPath>, present: &F) -> (r:
    Option<usize>)
    requires
        forall|p: &AppPath| present.requires((p,)),
    ensures
        match r {
            Some(i) => {
                &&& i < candidates.len()
                &&& present.ensures((&candidates@[i as int],), true)
                &&& forall|j: int| 0 <= j < i ==> present.ensures((&candidates@[j],), false)
            },
            None => forall|j: int|
                0 <= j < candidates.len() ==> present.ensures((&candidates@[j],), false),
        },
{
    let mut i: usize = 0;
    while i < candidates.len()
        invariant
            i <= candidates.len(),
            forall|p: &AppPath| present.requires((p,)),
            forall|j: int| 0 <= j < i ==> present.ensures((&candidates@[j],), false),
        decreases candidates.len() - i,
    {
        if present(&candidates[i]) {
            return Some(i);
        }
        i = i + 1;
    }
    None
}

/// The probe `f` refused (returned `false` for) a path whose value is `p`.
pub open spec fn refused<F: Fn(&AppPath) -> bool>(f: &F, p: PathView) -> bool {
    exists|q: AppPath| q@ == p && #[trigger] f.ensures((&q,), false)
}

/// The probe `f` accepted (returned `true` for) a path whose value is `p`.
pub open spec fn accepted<F: Fn(&AppPath) -> bool>(f: &F, p: PathView) -> bool {
    exists|q: AppPath| q@ == p && #[trigger] f.ensures((&q,), true)
}

} // verus!
