//! The paths of session logs.

use vstd::prelude::*;

verus! {

/// One component of a path.
#[derive(Clone, Debug)]
pub enum PathPart {
    /// What stands before the root on some systems, such as a drive.
    Prefix(Vec<u8>),
    /// The root.
    Root,
    /// The current directory, where a path starts with it.
    Current,
    /// The directory above.
    Parent,
    /// A name.
    Name(Vec<u8>),
}

/// What a [`PathPart`] holds.
#[verifier::ext_equal]
pub enum PathPartView {
    Prefix(Seq<u8>),
    Root,
    Current,
    Parent,
    Name(Seq<u8>),
}

impl View for PathPart {
    type V = PathPartView;

    open spec fn view(&self) -> PathPartView {
        match self {
            PathPart::Prefix(bytes) => PathPartView::Prefix(bytes@),
            PathPart::Root => PathPartView::Root,
            PathPart::Current => PathPartView::Current,
            PathPart::Parent => PathPartView::Parent,
            PathPart::Name(bytes) => PathPartView::Name(bytes@),
        }
    }
}

/// What a list of components holds.
pub open spec fn parts_view(parts: Seq<PathPart>) -> Seq<PathPartView> {
    parts.map_values(|part: PathPart| part@)
}

/// The path of a log: how it is spelled, and the components that it is made
/// of. Paths with the same components lead to the same log, however they are
/// spelled.
#[derive(Clone, Debug)]
pub struct LogPath {
    pub spelling: Vec<u8>,
    pub parts: Vec<PathPart>,
}

/// What a [`LogPath`] holds.
#[verifier::ext_equal]
pub struct LogPathView {
    pub spelling: Seq<u8>,
    pub parts: Seq<PathPartView>,
}

impl View for LogPath {
    type V = LogPathView;

    open spec fn view(&self) -> LogPathView {
        LogPathView { spelling: self.spelling@, parts: parts_view(self.parts@) }
    }
}

/// A copy of a byte string.
fn copy_bytes(bytes: &Vec<u8>) -> (copy: Vec<u8>)
    ensures
        copy@ == bytes@,
{
    let mut copy: Vec<u8> = Vec::new();
    let mut i: usize = 0;
    while i < bytes.len()
        invariant
            i <= bytes.len(),
            copy@ == bytes@.take(i as int),
        decreases bytes.len() - i,
    {
        copy.push(bytes[i]);
        i = i + 1;
        assert(bytes@.take(i as int) == bytes@.take(i - 1).push(bytes@[i - 1]));
    }
    assert(bytes@.take(bytes@.len() as int) == bytes@);
    copy
}

/// Whether the two byte strings are the same.
fn same_bytes(a: &Vec<u8>, b: &Vec<u8>) -> (same: bool)
    ensures
        same == (a@ == b@),
{
    if a.len() != b.len() {
        return false;
    }
    let mut i: usize = 0;
    while i < a.len()
        invariant
            i <= a.len(),
            a.len() == b.len(),
            forall|j: int| 0 <= j < i ==> a@[j] == b@[j],
        decreases a.len() - i,
    {
        if a[i] != b[i] {
            return false;
        }
        i = i + 1;
    }
    assert(a@ =~= b@);
    true
}

/// A copy of a component.
fn copy_part(part: &PathPart) -> (copy: PathPart)
    ensures
        copy@ == part@,
{
    match part {
        PathPart::Prefix(bytes) => PathPart::Prefix(copy_bytes(bytes)),
        PathPart::Root => PathPart::Root,
        PathPart::Current => PathPart::Current,
        PathPart::Parent => PathPart::Parent,
        PathPart::Name(bytes) => PathPart::Name(copy_bytes(bytes)),
    }
}

/// Whether the two components are the same.
fn same_part(a: &PathPart, b: &PathPart) -> (same: bool)
    ensures
        same == (a@ == b@),
{
    match (a, b) {
        (PathPart::Prefix(x), PathPart::Prefix(y)) => same_bytes(x, y),
        (PathPart::Root, PathPart::Root) => true,
        (PathPart::Current, PathPart::Current) => true,
        (PathPart::Parent, PathPart::Parent) => true,
        (PathPart::Name(x), PathPart::Name(y)) => same_bytes(x, y),
        _ => false,
    }
}

/// A copy of a path.
pub fn copy_path(path: &LogPath) -> (copy: LogPath)
    ensures
        copy@ == path@,
{
    let mut parts: Vec<PathPart> = Vec::new();
    let mut i: usize = 0;
    while i < path.parts.len()
        invariant
            i <= path.parts@.len(),
            parts_view(parts@) == parts_view(path.parts@).take(i as int),
        decreases path.parts.len() - i,
    {
        let ghost before = parts@;
        let part: PathPart = copy_part(&path.parts[i]);
        parts.push(part);
        i = i + 1;
        assert(parts_view(parts@) =~= parts_view(before).push(part@));
        assert(parts_view(path.parts@).take(i as int) =~= parts_view(path.parts@).take(i - 1).push(
            path.parts@[i - 1]@,
        ));
    }
    assert(parts_view(path.parts@).take(path.parts@.len() as int) =~= parts_view(path.parts@));
    LogPath { spelling: copy_bytes(&path.spelling), parts }
}

/// Whether the two paths lead to the same log: whether their components are
/// the same.
pub fn same_path(a: &LogPath, b: &LogPath) -> (same: bool)
    ensures
        same == (a@.parts == b@.parts),
{
    if a.parts.len() != b.parts.len() {
        assert(a@.parts.len() != b@.parts.len());
        return false;
    }
    let mut i: usize = 0;
    while i < a.parts.len()
        invariant
            i <= a.parts.len(),
            a.parts.len() == b.parts.len(),
            forall|j: int| 0 <= j < i ==> a@.parts[j] == b@.parts[j],
        decreases a.parts.len() - i,
    {
        if !same_part(&a.parts[i], &b.parts[i]) {
            assert(a@.parts[i as int] != b@.parts[i as int]);
            return false;
        }
        assert(a@.parts[i as int] == b@.parts[i as int]);
        i = i + 1;
    }
    assert(a@.parts =~= b@.parts);
    true
}

} // verus!
