//! The loaded, in-memory representation of one package's manifest.
//!
//! A descriptor carries what downstream tooling reads out of a manifest: the
//! package's name and version, its dependency declarations, and its build
//! targets. Parsing the manifest file into a descriptor is the job of an
//! outside collaborator; this crate only carries the result around.

use vstd::prelude::*;

verus! {

/// What a build target produces.
#[derive(Clone, Copy, Debug, PartialEq, Eq, Structural)]
pub enum TargetKind {
    /// A library target.
    Library,
    /// An executable target.
    Binary,
}

/// One declared dependency: the name of the package depended on and the
/// declared version requirement, kept as written.
#[derive(Debug)]
pub struct Dependency {
    /// The name of the package depended on.
    pub name: String,
    /// The declared version requirement, as written in the manifest.
    pub req: String,
}

/// The mathematical value of a dependency declaration.
pub ghost struct DependencyView {
    pub name: Seq<char>,
    pub req: Seq<char>,
}

impl View for Dependency {
    type V = DependencyView;

    open spec fn view(&self) -> DependencyView {
        DependencyView { name: self.name@, req: self.req@ }
    }
}

impl Clone for Dependency {
    fn clone(&self) -> (r: Self)
        ensures
            r@ == self@,
    {
        Dependency { name: self.name.clone(), req: self.req.clone() }
    }
}

/// One declared build target.
#[derive(Debug)]
pub struct Target {
    /// The target's name.
    pub name: String,
    /// What the target produces.
    pub kind: TargetKind,
}

/// The mathematical value of a target definition.
pub ghost struct TargetView {
    pub name: Seq<char>,
    pub kind: TargetKind,
}

impl View for Target {
    type V = TargetView;

    open spec fn view(&self) -> TargetView {
        TargetView { name: self.name@, kind: self.kind }
    }
}

impl Clone for Target {
    fn clone(&self) -> (r: Self)
        ensures
            r@ == self@,
    {
        Target { name: self.name.clone(), kind: self.kind }
    }
}

/// The loaded representation of one package's manifest.
#[derive(Debug)]
pub struct PackageDescriptor {
    /// The package's name.
    pub name: String,
    /// The package's version, as written in the manifest.
    pub version: String,
    /// The declared dependencies.
    pub dependencies: Vec<Dependency>,
    /// The declared build targets.
    pub targets: Vec<Target>,
}

/// The mathematical value of a package descriptor.
pub ghost struct PackageDescriptorView {
    pub name: Seq<char>,
    pub version: Seq<char>,
    pub dependencies: Seq<DependencyView>,
    pub targets: Seq<TargetView>,
}

impl View for PackageDescriptor {
    type V = PackageDescriptorView;

    open spec fn view(&self) -> PackageDescriptorView {
        PackageDescriptorView {
            name: self.name@,
            version: self.version@,
            dependencies: self.dependencies@.map_values(|d: Dependency| d@),
            targets: self.targets@.map_values(|t: Target| t@),
        }
    }
}

impl Clone for PackageDescriptor {
    fn clone(&self) -> (r: Self)
        ensures
            r@ == self@,
    {
        let mut dependencies: Vec<Dependency> = Vec::new();
        let mut i: usize = 0;
        while i < self.dependencies.len()
            invariant
                i <= self.dependencies.len(),
                dependencies@.len() == i as int,
                forall|j: int| 0 <= j < i ==> dependencies@[j]@ == self.dependencies@[j]@,
            decreases self.dependencies.len() - i,
        {
            dependencies.push(self.dependencies[i].clone());
            i = i + 1;
        }
        let mut targets: Vec<Target> = Vec::new();
        let mut k: usize = 0;
        while k < self.targets.len()
            invariant
                k <= self.targets.len(),
                targets@.len() == k as int,
                forall|j: int| 0 <= j < k ==> targets@[j]@ == self.targets@[j]@,
            decreases self.targets.len() - k,
        {
            targets.push(self.targets[k].clone());
            k = k + 1;
        }
        let r = PackageDescriptor {
            name: self.name.clone(),
            version: self.version.clone(),
            dependencies,
            targets,
        };
        proof {
            assert(r@.dependencies =~= self@.dependencies);
            assert(r@.targets =~= self@.targets);
        }
        r
    }
}

} // verus!
