//! Filesystem paths as the sequence of their components, the way
//! `std::path::Path::components` reads them, and the few path operations
//! the reports rely on.

use vstd::prelude::*;

verus! {

/// One component of a path.
#[derive(Debug, PartialEq)]
pub enum PathPart {
    /// A Windows prefix such as `C:`.
    Prefix(String),
    /// The root directory.
    Root,
    /// `.` at the start of a relative path.
    Current,
    /// `..`.
    Parent,
    /// A named file or directory.
    Normal(String),
}

/// A path component as plain values.
pub enum PartV {
    Prefix(Seq<char>),
    Root,
    Current,
    Parent,
    Normal(Seq<char>),
}

impl View for PathPart {
    type V = PartV;

    open spec fn view(&self) -> PartV {
        match self {
            PathPart::Prefix(s) => PartV::Prefix(s@),
            PathPart::Root => PartV::Root,
            PathPart::Current => PartV::Current,
            PathPart::Parent => PartV::Parent,
            PathPart::Normal(s) => PartV::Normal(s@),
        }
    }
}

/// The components of a path as plain values.
pub open spec fn parts_view(p: Seq<PathPart>) -> Seq<PartV> {
    p.map_values(|c: PathPart| c@)
}

pub fn copy_part(p: &PathPart) -> (q: PathPart)
    ensures
        q == *p,
{
    match p {
        PathPart::Prefix(s) => PathPart::Prefix(s.clone()),
        PathPart::Root => PathPart::Root,
        PathPart::Current => PathPart::Current,
        PathPart::Parent => PathPart::Parent,
        PathPart::Normal(s) => PathPart::Normal(s.clone()),
    }
}

pub fn copy_parts(p: &Vec<PathPart>) -> (q: Vec<PathPart>)
    ensures
        q@ == p@,
{
    let mut q: Vec<PathPart> = Vec::new();
    let mut i: usize = 0;
    while i < p.len()
        invariant
            i <= p.len(),
            q@ == p@.take(i as int),
        decreases p.len() - i,
    {
        q.push(copy_part(&p[i]));
        i = i + 1;
        assert(q@ =~= p@.take(i as int));
    }
    assert(p@.take(p.len() as int) =~= p@);
    q
}

/// `Path::parent`: the path without its final component, where that
/// component is a name, `.` or `..`; `None` for the empty path and for a
/// path that ends in a root or prefix.
pub open spec fn parent_of(p: Seq<PartV>) -> Option<Seq<PartV>> {
    if p.len() == 0 {
        None
    } else {
        match p.last() {
            PartV::Normal(_) | PartV::Current | PartV::Parent => Some(p.drop_last()),
            _ => None,
        }
    }
}

/// `Path::file_name`: the final component, where it is a name.
pub open spec fn file_name_of(p: Seq<PartV>) -> Option<Seq<char>> {
    if p.len() == 0 {
        None
    } else {
        match p.last() {
            PartV::Normal(s) => Some(s),
            _ => None,
        }
    }
}

pub fn parent(p: &Vec<PathPart>) -> (r: Option<Vec<PathPart>>)
    ensures
        match (r, parent_of(parts_view(p@))) {
            (Some(q), Some(s)) => parts_view(q@) == s,
            (None, None) => true,
            _ => false,
        },
{
    if p.len() == 0 {
        return None;
    }
    match &p[p.len() - 1] {
        PathPart::Normal(_) | PathPart::Current | PathPart::Parent => {
            let mut q = copy_parts(p);
            q.pop();
            assert(parts_view(q@) =~= parts_view(p@).drop_last());
            Some(q)
        },
        _ => None,
    }
}

pub fn file_name(p: &Vec<PathPart>) -> (r: Option<String>)
    ensures
        match (r, file_name_of(parts_view(p@))) {
            (Some(n), Some(s)) => n@ == s,
            (None, None) => true,
            _ => false,
        },
{
    if p.len() == 0 {
        return None;
    }
    match &p[p.len() - 1] {
        PathPart::Normal(s) => Some(s.clone()),
        _ => None,
    }
}

/// `Path::join` with a single name: the name appended as a last component.
pub fn join_name(p: &Vec<PathPart>, name: String) -> (q: Vec<PathPart>)
    ensures
        parts_view(q@) == parts_view(p@).push(PartV::Normal(name@)),
{
    let mut q = copy_parts(p);
    q.push(PathPart::Normal(name));
    assert(parts_view(q@) =~= parts_view(p@).push(PartV::Normal(name@)));
    q
}

} // verus!
