//! Structured filesystem paths.
//!
//! The locator and the source reason about paths as sequences of name
//! components below the filesystem root, so every statement about parents,
//! ancestors and joined file names is a statement about plain sequences.

use vstd::prelude::*;

use crate::manifest_name_view;

verus! {

/// An absolute filesystem path, stored as its name components in order from
/// the filesystem root. The root directory itself has no components.
#[derive(Debug)]
pub struct FsPath {
    parts: Vec<String>,
}

impl View for FsPath {
    type V = Seq<Seq<char>>;

    closed spec fn view(&self) -> Seq<Seq<char>> {
        self.parts@.map_values(|s: String| s@)
    }
}

impl Clone for FsPath {
    fn clone(&self) -> (r: Self)
        ensures
            r@ == self@,
    {
        let mut parts: Vec<String> = Vec::new();
        let mut i: usize = 0;
        while i < self.parts.len()
            invariant
                i <= self.parts.len(),
                parts@.len() == i as int,
                forall|j: int| 0 <= j < i ==> parts@[j]@ == self.parts@[j]@,
            decreases self.parts.len() - i,
        {
            parts.push(self.parts[i].clone());
            i = i + 1;
        }
        let r = FsPath { parts };
        proof {
            assert(r@ =~= self@);
        }
        r
    }
}

impl FsPath {
    /// The filesystem root directory.
    pub fn root() -> (r: FsPath)
        ensures
            r@ == Seq::<Seq<char>>::empty(),
    {
        let r = FsPath { parts: Vec::new() };
        proof {
            assert(r@ =~= Seq::<Seq<char>>::empty());
        }
        r
    }

    /// A path made of the given components, in order from the root.
    pub fn from_parts(parts: Vec<String>) -> (r: FsPath)
        ensures
            r@ == parts@.map_values(|s: String| s@),
    {
        FsPath { parts }
    }

    /// The path's components, in order from the root.
    pub fn parts(&self) -> (r: &Vec<String>)
        ensures
            r@.map_values(|s: String| s@) == self@,
    {
        &self.parts
    }

    /// How many components lie between this path and the root.
    pub fn depth(&self) -> (r: usize)
        ensures
            r == self@.len(),
    {
        self.parts.len()
    }

    /// Whether this path is the filesystem root itself.
    pub fn is_root(&self) -> (r: bool)
        ensures
            r == (self@.len() == 0),
    {
        self.parts.len() == 0
    }

    /// Appends one more component below the current path.
    pub fn push(&mut self, part: String)
        ensures
            final(self)@ == old(self)@.push(part@),
    {
        self.parts.push(part);
        proof {
            assert(self@ =~= old(self)@.push(part@));
        }
    }

    /// Removes the last component; at the root this is a no-op.
    pub fn pop(&mut self)
        ensures
            final(self)@ == parent_view(old(self)@),
    {
        if self.parts.len() > 0 {
            self.parts.pop();
        }
        proof {
            assert(self@ =~= parent_view(old(self)@));
        }
    }

    /// The parent directory; the root is its own parent.
    pub fn parent(&self) -> (r: FsPath)
        ensures
            r@ == parent_view(self@),
    {
        let mut r = self.clone();
        r.pop();
        r
    }

    /// Whether the path's last component is the reserved manifest file name.
    pub fn ends_with_manifest(&self) -> (r: bool)
        ensures
            r == (self@.len() > 0 && self@.last() == manifest_name_view()),
    {
        if self.parts.len() == 0 {
            false
        } else {
            let name = crate::manifest_file_name();
            self.parts[self.parts.len() - 1] == name
        }
    }

    /// Whether the two paths have the same components.
    pub fn same_path(&self, other: &FsPath) -> (r: bool)
        ensures
            r == (self@ == other@),
    {
        if self.parts.len() != other.parts.len() {
            proof {
                assert(self@.len() != other@.len());
            }
            return false;
        }
        let mut i: usize = 0;
        while i < self.parts.len()
            invariant
                i <= self.parts.len(),
                self.parts.len() == other.parts.len(),
                forall|j: int| 0 <= j < i ==> self@[j] == other@[j],
            decreases self.parts.len() - i,
        {
            if !(self.parts[i] == other.parts[i]) {
                proof {
                    assert(self@[i as int] != other@[i as int]);
                }
                return false;
            }
            i = i + 1;
        }
        proof {
            assert(self@ =~= other@);
        }
        true
    }

    /// Renders the path with `/` before each component; the root alone is `/`.
    pub fn display(&self) -> (r: String)
        ensures
            r@ == display_view(self@),
    {
        if self.parts.len() == 0 {
            return "/".to_owned();
        }
        let mut out = String::new();
        let mut i: usize = 0;
        while i < self.parts.len()
            invariant
                i <= self.parts.len(),
                self.parts.len() > 0,
                i > 0 ==> out@ == display_view(self@.take(i as int)),
                i == 0 ==> out@ == Seq::<char>::empty(),
            decreases self.parts.len() - i,
        {
            proof {
                reveal_strlit("/");
                assert(("/")@ =~= seq!['/']);
                assert(self@.take(i + 1).drop_last() =~= self@.take(i as int));
                assert(self@.take(i + 1).last() == self@[i as int]);
            }
            out.append("/");
            out.append(self.parts[i].as_str());
            i = i + 1;
            proof {
                if i == 1 {
                    assert(out@ =~= display_view(self@.take(1)));
                } else {
                    assert(out@ =~= display_view(self@.take(i as int)));
                }
            }
        }
        proof {
            assert(self@.take(self@.len() as int) =~= self@);
        }
        out
    }
}

/// An absolute path known to name a manifest file: its last component is the
/// reserved file name, and its parent directory is the package root.
#[derive(Debug)]
pub struct ManifestPath {
    path: FsPath,
}

impl View for ManifestPath {
    type V = Seq<Seq<char>>;

    closed spec fn view(&self) -> Seq<Seq<char>> {
        self.path@
    }
}

impl ManifestPath {
    /// The shape every manifest path has: it names the reserved file.
    pub open spec fn wf(&self) -> bool {
        self@.len() > 0 && self@.last() == manifest_name_view()
    }

    /// Wraps a path that ends in the reserved manifest file name.
    pub fn new(path: FsPath) -> (r: ManifestPath)
        requires
            path@.len() > 0,
            path@.last() == manifest_name_view(),
        ensures
            r@ == path@,
            r.wf(),
    {
        ManifestPath { path }
    }

    /// The manifest file path itself.
    pub fn as_path(&self) -> (r: &FsPath)
        ensures
            r@ == self@,
    {
        &self.path
    }

    /// The directory holding the manifest: the package root.
    pub fn package_root(&self) -> (r: FsPath)
        requires
            self.wf(),
        ensures
            r@ == self@.drop_last(),
    {
        self.path.parent()
    }
}

/// The parent of a path view: one component fewer, except at the root.
pub open spec fn parent_view(p: Seq<Seq<char>>) -> Seq<Seq<char>> {
    if p.len() == 0 {
        p
    } else {
        p.drop_last()
    }
}

/// The rendering of a path view: `/` before each component, `/` alone for the
/// root.
pub open spec fn display_view(p: Seq<Seq<char>>) -> Seq<char>
    decreases p.len(),
{
    if p.len() == 0 {
        "/"@
    } else if p.len() == 1 {
        seq!['/'] + p.last()
    } else {
        display_view(p.drop_last()) + seq!['/'] + p.last()
    }
}

} // verus!
