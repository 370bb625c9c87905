use vstd::prelude::*;

verus! {

/// A filesystem path as the library sees it: a root (a drive prefix and/or
/// a root separator, empty for a relative path) followed by the names of
/// the directories and file below it.
#[derive(Debug)]
pub struct FsPath {
    pub root: String,
    pub parts: Vec<String>,
}

/// The mathematical value of an [`FsPath`].
pub ghost struct PathModel {
    pub root: Seq<char>,
    pub parts: Seq<Seq<char>>,
}

impl PathModel {
    /// The path with one more name below it.
    pub open spec fn join(self, name: Seq<char>) -> PathModel {
        PathModel { root: self.root, parts: self.parts.push(name) }
    }

    /// The path without its last name; none for a bare root or an empty path.
    pub open spec fn parent(self) -> Option<PathModel> {
        if self.parts.len() == 0 {
            None
        } else {
            Some(PathModel { root: self.root, parts: self.parts.drop_last() })
        }
    }
}

pub open spec fn views_of(v: Seq<String>) -> Seq<Seq<char>> {
    v.map_values(|s: String| s@)
}

pub open spec fn path_views(v: Seq<FsPath>) -> Seq<PathModel> {
    v.map_values(|p: FsPath| p@)
}

impl View for FsPath {
    type V = PathModel;

    open spec fn view(&self) -> PathModel {
        PathModel { root: self.root@, parts: views_of(self.parts@) }
    }
}

fn copy_strings(v: &Vec<String>) -> (r: Vec<String>)
    ensures
        views_of(r@) == views_of(v@),
{
    let mut r: Vec<String> = Vec::new();
    let mut i: usize = 0;
    while i < v.len()
        invariant
            i <= v.len(),
            r.len() == i,
            forall|j: int| 0 <= j < i ==> (#[trigger] r@[j])@ == v@[j]@,
        decreases v.len() - i,
    {
        r.push(v[i].clone());
        i = i + 1;
    }
    assert(views_of(r@) =~= views_of(v@));
    r
}

impl FsPath {
    /// A path made of a root alone.
    pub fn from_root(root: &str) -> (r: FsPath)
        ensures
            r@ == (PathModel { root: root@, parts: Seq::empty() }),
    {
        let r = FsPath { root: String::from_str(root), parts: Vec::new() };
        assert(r@.parts =~= Seq::<Seq<char>>::empty());
        r
    }

    /// A copy of this path.
    pub fn duplicate(&self) -> (r: FsPath)
        ensures
            r@ == self@,
    {
        FsPath { root: self.root.clone(), parts: copy_strings(&self.parts) }
    }

    /// This path with `name` below it.
    pub fn join(&self, name: &str) -> (r: FsPath)
        ensures
            r@ == self@.join(name@),
    {
        let mut parts = copy_strings(&self.parts);
        let ghost before = parts@;
        parts.push(String::from_str(name));
        assert(views_of(parts@) =~= views_of(before).push(name@));
        FsPath { root: self.root.clone(), parts }
    }

    /// The directory holding this path, if it has one.
    pub fn parent(&self) -> (r: Option<FsPath>)
        ensures
            match r {
                Some(p) => self@.parent() == Some(p@),
                None => self@.parent() is None,
            },
    {
        if self.parts.len() == 0 {
            None
        } else {
            let mut parts = copy_strings(&self.parts);
            let ghost before = parts@;
            parts.pop();
            assert(views_of(parts@) =~= views_of(before).drop_last());
            Some(FsPath { root: self.root.clone(), parts })
        }
    }
}

} // verus!
