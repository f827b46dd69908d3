//! The manifest locator.
//!
//! Given an optional path hint and the working directory, the locator
//! resolves the single manifest file to operate on. A hint is normalized by
//! pure path construction, without checking that the file exists; without a
//! hint, an upward walk from the working directory picks the nearest ancestor
//! that holds the reserved manifest file.

use vstd::prelude::*;

use crate::errors::NotFoundError;
use crate::manifest_file_name;
use crate::manifest_name_view;
use crate::paths::{parent_view, FsPath, ManifestPath};

verus! {

/// The manifest file a hint resolves to: a hint that already names the
/// manifest file is kept as it is; any other hint is taken for a directory
/// and the reserved file name is appended to it once.
pub open spec fn hint_manifest_view(h: Seq<Seq<char>>) -> Seq<Seq<char>> {
    if h.len() > 0 && h.last() == manifest_name_view() {
        h
    } else {
        h.push(manifest_name_view())
    }
}

/// Where the upward walk from `cwd` first meets a manifest. `has_manifest[i]`
/// says whether the i-th ancestor of `cwd` (the 0th being `cwd` itself) holds
/// the reserved file; the result is the manifest path in the nearest such
/// ancestor, or `None` when the chain up to the filesystem root has none.
pub open spec fn walk_view(cwd: Seq<Seq<char>>, has_manifest: Seq<bool>) -> Option<Seq<Seq<char>>>
    decreases has_manifest.len(),
{
    if has_manifest.len() == 0 {
        None
    } else if has_manifest[0] {
        Some(cwd.push(manifest_name_view()))
    } else {
        walk_view(parent_view(cwd), has_manifest.drop_first())
    }
}

/// Resolves the manifest file to operate on.
///
/// With a hint, the result is pure path construction: the candidate is not
/// required to exist yet, existence is the concern of whoever opens the file.
/// Without a hint, `has_manifest` reports for each ancestor of `cwd` (from
/// `cwd` itself up to and including the filesystem root) whether the reserved
/// manifest file exists there, and the nearest ancestor that has one wins.
pub fn locate(hint: Option<FsPath>, cwd: &FsPath, has_manifest: &Vec<bool>) -> (r: Result<
    ManifestPath,
    NotFoundError,
>)
    requires
        hint is None ==> has_manifest@.len() == cwd@.len() + 1,
    ensures
        match r {
            Ok(m) => m.wf() && match hint {
                Some(h) => m@ == hint_manifest_view(h@),
                None => walk_view(cwd@, has_manifest@) == Some(m@),
            },
            Err(e) => hint is None && walk_view(cwd@, has_manifest@) is None && e.start@ == cwd@,
        },
{
    match hint {
        Some(h) => {
            let mut path = h;
            if !path.ends_with_manifest() {
                path.push(manifest_file_name());
            }
            Ok(ManifestPath::new(path))
        },
        None => {
            let mut dir = cwd.clone();
            let mut i: usize = 0;
            proof {
                assert(has_manifest@.skip(0) =~= has_manifest@);
                assert(cwd@.take(cwd@.len() as int) =~= cwd@);
            }
            while i < has_manifest.len()
                invariant
                    hint is None,
                    i <= has_manifest@.len(),
                    has_manifest@.len() == cwd@.len() + 1,
                    i <= cwd@.len() ==> dir@ == cwd@.take(cwd@.len() - i as int),
                    walk_view(cwd@, has_manifest@) == walk_view(
                        dir@,
                        has_manifest@.skip(i as int),
                    ),
                decreases has_manifest@.len() - i,
            {
                proof {
                    assert(has_manifest@.skip(i as int).len() > 0);
                    assert(has_manifest@.skip(i as int)[0] == has_manifest@[i as int]);
                }
                if has_manifest[i] {
                    proof {
                        assert(walk_view(dir@, has_manifest@.skip(i as int)) == Some(
                            dir@.push(manifest_name_view()),
                        ));
                    }
                    dir.push(manifest_file_name());
                    return Ok(ManifestPath::new(dir));
                }
                proof {
                    assert(has_manifest@.skip(i as int).drop_first() =~= has_manifest@.skip(
                        i + 1,
                    ));
                    if i < cwd@.len() {
                        assert(cwd@.take(cwd@.len() - i as int).drop_last() =~= cwd@.take(
                            cwd@.len() - (i + 1),
                        ));
                    }
                }
                dir.pop();
                i = i + 1;
            }
            Err(NotFoundError { start: cwd.clone() })
        },
    }
}

/// A manifest in the working directory itself is the one the walk finds.
pub proof fn lemma_walk_finds_cwd(cwd: Seq<Seq<char>>, has_manifest: Seq<bool>)
    requires
        has_manifest.len() > 0,
        has_manifest[0],
    ensures
        walk_view(cwd, has_manifest) == Some(cwd.push(manifest_name_view())),
{
}

/// When the nearest manifest sits `k` levels above the working directory,
/// the walk returns that ancestor's manifest path, however many manifest-free
/// levels lie in between.
pub proof fn lemma_walk_finds_nearest_ancestor(
    cwd: Seq<Seq<char>>,
    has_manifest: Seq<bool>,
    k: int,
)
    requires
        has_manifest.len() == cwd.len() + 1,
        0 <= k < has_manifest.len(),
        has_manifest[k],
        forall|j: int| 0 <= j < k ==> !has_manifest[j],
    ensures
        walk_view(cwd, has_manifest) == Some(
            cwd.take(cwd.len() - k).push(manifest_name_view()),
        ),
    decreases k,
{
    if k == 0 {
        assert(cwd.take(cwd.len() - 0) =~= cwd);
    } else {
        assert(forall|j: int|
            0 <= j < k - 1 ==> !#[trigger] has_manifest.drop_first()[j]);
        lemma_walk_finds_nearest_ancestor(parent_view(cwd), has_manifest.drop_first(), k - 1);
        assert(parent_view(cwd).take(parent_view(cwd).len() - (k - 1)) =~= cwd.take(
            cwd.len() - k,
        ));
    }
}

/// With no manifest anywhere on the chain from the working directory up to
/// the filesystem root, the walk finds nothing.
pub proof fn lemma_walk_exhausts_chain(cwd: Seq<Seq<char>>, has_manifest: Seq<bool>)
    requires
        forall|j: int| 0 <= j < has_manifest.len() ==> !has_manifest[j],
    ensures
        walk_view(cwd, has_manifest) is None,
    decreases has_manifest.len(),
{
    if has_manifest.len() > 0 {
        assert(forall|j: int|
            0 <= j < has_manifest.len() - 1 ==> !#[trigger] has_manifest.drop_first()[j]);
        lemma_walk_exhausts_chain(parent_view(cwd), has_manifest.drop_first());
    }
}

/// A hint that already names the manifest file is kept unchanged; a hint that
/// names a directory gets the reserved file name appended exactly once. The
/// result always names the manifest file.
pub proof fn lemma_hint_normalization(h: Seq<Seq<char>>)
    ensures
        h.len() > 0 && h.last() == manifest_name_view() ==> hint_manifest_view(h) == h,
        !(h.len() > 0 && h.last() == manifest_name_view()) ==> hint_manifest_view(h) == h.push(
            manifest_name_view(),
        ),
        hint_manifest_view(h).len() > 0,
        hint_manifest_view(h).last() == manifest_name_view(),
{
}

} // verus!
