//! The source abstraction.
//!
//! A source is a handle bound to one root directory that can be refreshed
//! and then queried for the packages reachable from that root. Refreshing
//! takes the result of a storage scan — one entry per directory whose
//! manifest the scan met, each carrying the parse outcome for that manifest —
//! and makes it the source's inventory. Queries are only answered once the
//! source is ready: asking earlier is a typed failure, never stale data.

use vstd::prelude::*;

use crate::errors::PackageError;
use crate::package::{PackageDescriptor, PackageDescriptorView};
use crate::paths::FsPath;

verus! {

/// The parse outcome for a manifest that failed parsing or validation.
#[derive(Debug)]
pub struct ParseFailure {
    /// The parser's account of what was wrong.
    pub message: String,
}

impl View for ParseFailure {
    type V = Seq<char>;

    open spec fn view(&self) -> Seq<char> {
        self.message@
    }
}

/// One result of scanning storage: a directory that holds a manifest, with
/// the outcome of handing that manifest to the parser.
#[derive(Debug)]
pub struct ScanEntry {
    /// The directory the manifest was found in.
    pub dir: FsPath,
    /// What the parser made of it.
    pub manifest: Result<PackageDescriptor, ParseFailure>,
}

/// The mathematical value of a scan entry.
pub ghost struct ScanEntryView {
    pub dir: Seq<Seq<char>>,
    pub manifest: Result<PackageDescriptorView, Seq<char>>,
}

impl View for ScanEntry {
    type V = ScanEntryView;

    open spec fn view(&self) -> ScanEntryView {
        ScanEntryView {
            dir: self.dir@,
            manifest: match self.manifest {
                Ok(p) => Ok(p@),
                Err(f) => Err(f@),
            },
        }
    }
}

/// The values of a whole scan, entry by entry.
pub open spec fn scan_views(scan: Seq<ScanEntry>) -> Seq<ScanEntryView> {
    scan.map_values(|e: ScanEntry| e@)
}

/// The abstract state of a source: the root it is bound to, whether it has
/// been updated yet, and the inventory the last update left behind.
pub ghost struct SourceSnapshot {
    pub root: Seq<Seq<char>>,
    pub ready: bool,
    pub inventory: Seq<ScanEntryView>,
}

/// What an update does to a source's state: the inventory becomes exactly
/// what the scan reported, the source becomes ready, and the bound root is
/// untouched. The outcome does not depend on the state before the update.
pub open spec fn update_transition(s: SourceSnapshot, scan: Seq<ScanEntryView>) -> SourceSnapshot {
    SourceSnapshot { root: s.root, ready: true, inventory: scan }
}

/// The parse outcome recorded for the manifest that lives exactly at `root`,
/// if the inventory has one; the earliest entry for that directory counts.
pub open spec fn find_root_manifest(inv: Seq<ScanEntryView>, root: Seq<Seq<char>>) -> Option<
    Result<PackageDescriptorView, Seq<char>>,
>
    decreases inv.len(),
{
    if inv.len() == 0 {
        None
    } else if inv[0].dir == root {
        Some(inv[0].manifest)
    } else {
        find_root_manifest(inv.drop_first(), root)
    }
}

/// What asking a source for its root package yields: a typed failure before
/// any update, the recorded descriptor when the root's manifest parsed,
/// `Invalid` when it did not, and `NotFound` when the inventory has no entry
/// exactly at the root.
pub open spec fn root_package_outcome(s: SourceSnapshot) -> Result<
    PackageDescriptorView,
    PackageError,
> {
    if !s.ready {
        Err(PackageError::NotReady)
    } else {
        match find_root_manifest(s.inventory, s.root) {
            None => Err(PackageError::NotFound),
            Some(Err(_)) => Err(PackageError::Invalid),
            Some(Ok(p)) => Ok(p),
        }
    }
}

/// The descriptors of every package whose manifest parsed, in inventory
/// order.
pub open spec fn loaded_packages(inv: Seq<ScanEntryView>) -> Seq<PackageDescriptorView>
    decreases inv.len(),
{
    if inv.len() == 0 {
        Seq::empty()
    } else {
        loaded_packages(inv.drop_last()) + match inv.last().manifest {
            Ok(p) => seq![p],
            Err(_) => Seq::empty(),
        }
    }
}

/// The capability set every source offers: refresh the inventory, list the
/// packages it holds, and return the package at the bound root.
pub trait Source {
    /// The abstract state the contracts below speak of.
    spec fn state(&self) -> SourceSnapshot;

    /// Re-scans storage: afterwards the source is ready and its inventory is
    /// exactly what the scan reported. Safe to call again at any time.
    fn update(&mut self, scan: Vec<ScanEntry>)
        ensures
            final(self).state() == update_transition(old(self).state(), scan_views(scan@)),
    ;

    /// The package whose manifest lives exactly at the bound root directory.
    fn root_package(&self) -> (r: Result<PackageDescriptor, PackageError>)
        ensures
            (match r {
                Ok(p) => root_package_outcome(self.state()) == Ok::<
                    PackageDescriptorView,
                    PackageError,
                >(p@),
                Err(e) => root_package_outcome(self.state()) == Err::<
                    PackageDescriptorView,
                    PackageError,
                >(e),
            }),
    ;

    /// Every package whose manifest parsed, in inventory order; only a source
    /// that was never updated refuses.
    fn list_packages(&self) -> (r: Result<Vec<PackageDescriptor>, PackageError>)
        ensures
            (match r {
                Ok(v) => self.state().ready && v@.map_values(|p: PackageDescriptor| p@)
                    == loaded_packages(self.state().inventory),
                Err(e) => !self.state().ready && e == PackageError::NotReady,
            }),
    ;
}

/// The output-coloring preference a hosting tool hands through; the core
/// never reads it for its logic, it only carries it.
#[derive(Clone, Copy, Debug, PartialEq, Eq, Structural)]
pub enum ColorPreference {
    /// Color when the output is a terminal.
    Auto,
    /// Always color.
    Always,
    /// Never color.
    Never,
}

/// What a coloring flag's word means, the absent flag aside: the three known
/// words name a preference, anything else is refused.
pub open spec fn color_flag_meaning(w: Seq<char>) -> Option<ColorPreference> {
    if w == "auto"@ {
        Some(ColorPreference::Auto)
    } else if w == "always"@ {
        Some(ColorPreference::Always)
    } else if w == "never"@ {
        Some(ColorPreference::Never)
    } else {
        None
    }
}

impl ColorPreference {
    /// Interprets a coloring flag: an absent flag means `Auto`; an unknown
    /// word is refused and handed back to the caller.
    pub fn from_flag(flag: Option<String>) -> (r: Result<ColorPreference, String>)
        ensures
            (match flag {
                None => r == Ok::<ColorPreference, String>(ColorPreference::Auto),
                Some(w) => match color_flag_meaning(w@) {
                    Some(c) => r == Ok::<ColorPreference, String>(c),
                    None => r matches Err(e) && e@ == w@,
                },
            }),
    {
        match flag {
            None => Ok(ColorPreference::Auto),
            Some(w) => {
                if w == "auto".to_owned() {
                    Ok(ColorPreference::Auto)
                } else if w == "always".to_owned() {
                    Ok(ColorPreference::Always)
                } else if w == "never".to_owned() {
                    Ok(ColorPreference::Never)
                } else {
                    Err(w)
                }
            },
        }
    }
}

/// The process-wide configuration a source is constructed with.
#[derive(Clone, Copy, Debug, PartialEq, Eq, Structural)]
pub struct SourceConfig {
    /// How diagnostic output should be colored.
    pub color: ColorPreference,
}

/// A source backed by a local directory tree.
pub struct PathSource {
    root: FsPath,
    color: ColorPreference,
    updated: bool,
    entries: Vec<ScanEntry>,
}

impl PathSource {
    /// The coloring preference the source was constructed with.
    pub closed spec fn color_choice(&self) -> ColorPreference {
        self.color
    }

    /// The coloring preference the source was constructed with.
    pub fn color_preference(&self) -> (r: ColorPreference)
        ensures
            r == self.color_choice(),
    {
        self.color
    }

    /// Binds a new source to `root_dir`. The source starts out not ready:
    /// it answers no query before its first update.
    pub fn for_path(root_dir: FsPath, config: SourceConfig) -> (s: PathSource)
        ensures
            s.state() == (SourceSnapshot {
                root: root_dir@,
                ready: false,
                inventory: Seq::<ScanEntryView>::empty(),
            }),
            s.color_choice() == config.color,
    {
        let s = PathSource { root: root_dir, color: config.color, updated: false, entries: Vec::new() };
        proof {
            assert(s.state().inventory =~= Seq::<ScanEntryView>::empty());
        }
        s
    }
}

impl Source for PathSource {
    closed spec fn state(&self) -> SourceSnapshot {
        SourceSnapshot { root: self.root@, ready: self.updated, inventory: scan_views(self.entries@) }
    }

    fn update(&mut self, scan: Vec<ScanEntry>) {
        self.entries = scan;
        self.updated = true;
    }

    fn root_package(&self) -> (r: Result<PackageDescriptor, PackageError>) {
        if !self.updated {
            return Err(PackageError::NotReady);
        }
        let ghost whole = scan_views(self.entries@);
        proof {
            assert(whole.skip(0) =~= whole);
        }
        let mut i: usize = 0;
        while i < self.entries.len()
            invariant
                self.updated,
                i <= self.entries@.len(),
                whole == scan_views(self.entries@),
                find_root_manifest(whole, self.root@) == find_root_manifest(
                    whole.skip(i as int),
                    self.root@,
                ),
            decreases self.entries@.len() - i,
        {
            proof {
                assert(whole.skip(i as int)[0] == whole[i as int]);
                assert(whole[i as int] == self.entries@[i as int]@);
            }
            if self.entries[i].dir.same_path(&self.root) {
                match &self.entries[i].manifest {
                    Ok(p) => {
                        return Ok(p.clone());
                    },
                    Err(_) => {
                        return Err(PackageError::Invalid);
                    },
                }
            }
            proof {
                assert(whole.skip(i as int).drop_first() =~= whole.skip(i + 1));
            }
            i = i + 1;
        }
        Err(PackageError::NotFound)
    }

    fn list_packages(&self) -> (r: Result<Vec<PackageDescriptor>, PackageError>) {
        if !self.updated {
            return Err(PackageError::NotReady);
        }
        let ghost whole = scan_views(self.entries@);
        let mut out: Vec<PackageDescriptor> = Vec::new();
        let mut i: usize = 0;
        proof {
            assert(out@.map_values(|p: PackageDescriptor| p@) =~= loaded_packages(
                whole.take(0),
            ));
        }
        while i < self.entries.len()
            invariant
                self.updated,
                i <= self.entries@.len(),
                whole == scan_views(self.entries@),
                out@.map_values(|p: PackageDescriptor| p@) == loaded_packages(
                    whole.take(i as int),
                ),
            decreases self.entries@.len() - i,
        {
            proof {
                assert(whole.take(i + 1).drop_last() =~= whole.take(i as int));
                assert(whole.take(i + 1).last() == whole[i as int]);
                assert(whole[i as int] == self.entries@[i as int]@);
            }
            match &self.entries[i].manifest {
                Ok(p) => {
                    out.push(p.clone());
                    proof {
                        assert(out@.map_values(|p: PackageDescriptor| p@) =~= loaded_packages(
                            whole.take(i + 1),
                        ));
                    }
                },
                Err(_) => {
                    proof {
                        assert(out@.map_values(|p: PackageDescriptor| p@) =~= loaded_packages(
                            whole.take(i + 1),
                        ));
                    }
                },
            }
            i = i + 1;
        }
        proof {
            assert(whole.take(self.entries@.len() as int) =~= whole);
        }
        Ok(out)
    }
}

/// The recorded outcome for the root is the earliest inventory entry whose
/// directory is exactly the root, when one exists.
pub proof fn lemma_find_root_manifest_earliest(
    inv: Seq<ScanEntryView>,
    root: Seq<Seq<char>>,
    i: int,
)
    requires
        0 <= i < inv.len(),
        inv[i].dir == root,
        forall|j: int| 0 <= j < i ==> inv[j].dir != root,
    ensures
        find_root_manifest(inv, root) == Some(inv[i].manifest),
    decreases i,
{
    if i > 0 {
        assert(forall|j: int| 0 <= j < i - 1 ==> #[trigger] inv.drop_first()[j].dir != root);
        lemma_find_root_manifest_earliest(inv.drop_first(), root, i - 1);
    }
}

/// With no inventory entry exactly at the root — however many packages sit in
/// subdirectories — nothing is recorded for the root.
pub proof fn lemma_no_root_entry_is_not_found(inv: Seq<ScanEntryView>, root: Seq<Seq<char>>)
    requires
        forall|i: int| 0 <= i < inv.len() ==> inv[i].dir != root,
    ensures
        find_root_manifest(inv, root) is None,
    decreases inv.len(),
{
    if inv.len() > 0 {
        assert(forall|i: int|
            0 <= i < inv.len() - 1 ==> #[trigger] inv.drop_first()[i].dir != root);
        lemma_no_root_entry_is_not_found(inv.drop_first(), root);
    }
}

/// Updating a source twice with the same scan leaves the same state as
/// updating it once, so the root-package outcome is the same both times.
pub proof fn lemma_update_idempotent(s: SourceSnapshot, scan: Seq<ScanEntryView>)
    ensures
        update_transition(update_transition(s, scan), scan) == update_transition(s, scan),
        root_package_outcome(update_transition(update_transition(s, scan), scan))
            == root_package_outcome(update_transition(s, scan)),
{
}

/// Before its first update a source is not ready, and asking it for the root
/// package fails with the dedicated error rather than yielding any package.
pub proof fn lemma_root_package_needs_update(s: SourceSnapshot)
    requires
        !s.ready,
    ensures
        root_package_outcome(s) == Err::<PackageDescriptorView, PackageError>(
            PackageError::NotReady,
        ),
{
}

} // verus!
